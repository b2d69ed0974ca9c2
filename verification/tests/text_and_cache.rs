//! Text helpers, the locator parser, the request locators, the in-memory
//! cache, and the error taxonomy.

use pokebot::cache::MemCache;
use pokebot::errors::OrchestrationError;
use pokebot::errors::PersistenceError;
use pokebot::errors::ResolutionError;
use pokebot::poke_finder::evolution_chain_url;
use pokebot::poke_finder::poke_species_url;
use pokebot::poke_finder::poke_url;
use pokebot::poke_finder::pokemons_count_url;
use pokebot::text::decimal_string;
use pokebot::text::evolution_chain_id;

#[test]
fn decimal_strings() {
    assert_eq!(decimal_string(0), "0");
    assert_eq!(decimal_string(7), "7");
    assert_eq!(decimal_string(25), "25");
    assert_eq!(decimal_string(100), "100");
    assert_eq!(decimal_string(65535), "65535");
    assert_eq!(decimal_string(18446744073709551615), "18446744073709551615");
}

#[test]
fn chain_identifier_is_second_to_last_segment() {
    assert_eq!(
        evolution_chain_id("https://pokeapi.co/api/v2/evolution-chain/10/"),
        Some("10".to_string())
    );
    assert_eq!(evolution_chain_id("a/b/c"), Some("b".to_string()));
    assert_eq!(evolution_chain_id("x/"), Some("x".to_string()));
    assert_eq!(evolution_chain_id("/"), Some("".to_string()));
    assert_eq!(evolution_chain_id("a/b"), Some("a".to_string()));
    assert_eq!(evolution_chain_id("no-separator"), None);
    assert_eq!(evolution_chain_id(""), None);
}

#[test]
fn request_locators() {
    assert_eq!(poke_url("https://api", "25"), "https://api/pokemon/25");
    assert_eq!(poke_species_url("https://api", "25"), "https://api/pokemon-species/25");
    assert_eq!(evolution_chain_url("https://api", "10"), "https://api/evolution-chain/10");
    assert_eq!(pokemons_count_url("https://api"), "https://api/pokemon-species/");
}

#[test]
fn mem_cache_is_a_last_write_wins_map() {
    let mut cache: MemCache<u16> = MemCache::new();
    assert_eq!(cache.get(&"k".to_string()), None);
    cache.set("k".to_string(), 1);
    cache.set("other".to_string(), 2);
    assert_eq!(cache.get(&"k".to_string()), Some(&1));
    cache.set("k".to_string(), 3);
    assert_eq!(cache.get(&"k".to_string()), Some(&3));
    assert_eq!(cache.get(&"other".to_string()), Some(&2));
    assert_eq!(cache.get(&"missing".to_string()), None);
}

#[test]
fn orchestration_errors_wrap_component_errors() {
    let r = OrchestrationError::from_resolution(ResolutionError::RemoteFetchFailure);
    assert_eq!(r, OrchestrationError::Resolution(ResolutionError::RemoteFetchFailure));
    let p = OrchestrationError::from_persistence(PersistenceError::NotConnected);
    assert_eq!(p, OrchestrationError::Persistence(PersistenceError::NotConnected));
}
