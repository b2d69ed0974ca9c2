//! Cache-aside behaviour of the creature resolver.

use pokebot::pokeapi::CachedPokemon;
use pokebot::pokeapi::PokeAPIChain;
use pokebot::pokeapi::PokeAPIEvolutionchain;
use pokebot::pokeapi::PokeAPIPokemon;
use pokebot::pokeapi::PokeAPIPokemonEvolutionChain;
use pokebot::pokeapi::PokeAPIPokemonSpecies;
use pokebot::pokeapi::PokeAPIResource;
use pokebot::pokeapi::PokeAPISprites;
use pokebot::pokeapi::PokeAPISpritesOther;
use pokebot::pokeapi::PokeAPISpritesOtherOfficialArtwork;
use pokebot::pokeapi::PokeAPIStat;
use pokebot::pokeapi::PokeAPIType;
use pokebot::errors::ResolutionError;
use pokebot::poke_finder::PokeFinder;
use pokebot::poke_finder::RemotePayloads;

fn resource(name: &str, url: &str) -> PokeAPIResource {
    PokeAPIResource { name: name.to_string(), url: url.to_string() }
}

fn sprites() -> PokeAPISprites {
    PokeAPISprites {
        front_default: "front.png".to_string(),
        front_shiny: "shiny.png".to_string(),
        other: PokeAPISpritesOther {
            official_artwork: PokeAPISpritesOtherOfficialArtwork {
                front_default: "art.png".to_string(),
                front_shiny: "art-shiny.png".to_string(),
            },
        },
    }
}

fn payloads(id: u16, name: &str, chain_url: &str) -> RemotePayloads {
    RemotePayloads {
        pokemon: PokeAPIPokemon {
            height: 4,
            id,
            is_default: true,
            name: name.to_string(),
            species: resource(name, "species-url"),
            sprites: sprites(),
            stats: vec![PokeAPIStat { base_stat: 35, effort: 0, stat: resource("hp", "hp-url") }],
            types: vec![PokeAPIType { slot: 1, kind: resource("electric", "type-url") }],
            weight: 60,
        },
        species: PokeAPIPokemonSpecies {
            evolution_chain: PokeAPIEvolutionchain { url: chain_url.to_string() },
            evolves_from_species: None,
            has_gender_differences: true,
            hatch_counter: 10,
            id,
            is_baby: false,
            is_legendary: false,
            is_mythical: false,
            name: name.to_string(),
        },
        evolution_chain: PokeAPIPokemonEvolutionChain {
            chain: PokeAPIChain { evolves_to: vec![], species: resource(name, "chain-url") },
        },
    }
}

const CHAIN_URL: &str = "https://pokeapi.co/api/v2/evolution-chain/10/";

#[test]
fn resolve_miss_fetches_and_returns_merged_record() {
    let mut finder = PokeFinder::new();
    let (record, fetched) = finder
        .find_poke(&"25".to_string(), payloads(25, "Pikachu", CHAIN_URL))
        .expect("resolution should succeed");
    assert!(fetched);
    assert_eq!(record.id, 25);
    assert_eq!(record.name, "Pikachu");
    assert_eq!(record.height, 4);
    assert_eq!(record.weight, 60);
    assert_eq!(record.hatch_counter, 10);
    assert!(record.has_gender_differences);
    assert_eq!(record.stats.len(), 1);
    assert_eq!(record.types.len(), 1);
    assert_eq!(record.evolves_to.len(), 0);
}

#[test]
fn cache_hit_idempotence_second_resolve_fetches_nothing() {
    let mut finder = PokeFinder::new();
    let (first, fetched_first) = finder
        .find_poke(&"25".to_string(), payloads(25, "pikachu", CHAIN_URL))
        .expect("first resolution should succeed");
    assert!(fetched_first);
    let (second, fetched_second) = finder
        .find_poke(&"25".to_string(), payloads(9999, "someone-else", CHAIN_URL))
        .expect("second resolution should succeed");
    assert!(!fetched_second);
    assert_eq!(*first, *second);
}

#[test]
fn dual_key_writeback_answers_under_id_and_lowercased_name() {
    let mut finder = PokeFinder::new();
    let (record, _) = finder
        .find_poke(&"25".to_string(), payloads(25, "Pikachu", CHAIN_URL))
        .expect("resolution should succeed");
    let by_id = finder.find_cached(&"25".to_string()).expect("numeric key should answer");
    let by_name = finder.find_cached(&"pikachu".to_string()).expect("name key should answer");
    assert_eq!(*by_id, *by_name);
    assert_eq!(*by_id, *record);
}

#[test]
fn writeback_key_is_lowercased_not_raw_name() {
    let mut finder = PokeFinder::new();
    finder
        .find_poke(&"25".to_string(), payloads(25, "PIKACHU", CHAIN_URL))
        .expect("resolution should succeed");
    assert!(finder.find_cached(&"pikachu".to_string()).is_some());
    assert!(finder.find_cached(&"PIKACHU".to_string()).is_none());
}

#[test]
fn resolve_by_name_then_by_name_hits() {
    let mut finder = PokeFinder::new();
    let (_, fetched) = finder
        .find_poke(&"pikachu".to_string(), payloads(25, "Pikachu", CHAIN_URL))
        .expect("resolution should succeed");
    assert!(fetched);
    let (_, fetched_again) = finder
        .find_poke(&"pikachu".to_string(), payloads(25, "Pikachu", CHAIN_URL))
        .expect("resolution should succeed");
    assert!(!fetched_again);
}

#[test]
fn malformed_chain_locator_is_a_deserialization_failure() {
    let mut finder = PokeFinder::new();
    let err = finder
        .find_poke(&"25".to_string(), payloads(25, "pikachu", "no-slash-here"))
        .expect_err("a locator without separators cannot name a chain");
    assert_eq!(err, ResolutionError::DeserializationFailure);
    assert!(finder.find_cached(&"25".to_string()).is_none());
}

#[test]
fn merge_maps_every_field() {
    let p = payloads(25, "pikachu", CHAIN_URL);
    let rec = CachedPokemon::merge(p.pokemon, p.species, p.evolution_chain);
    assert_eq!(rec.height, 4);
    assert_eq!(rec.id, 25);
    assert!(rec.is_default);
    assert_eq!(rec.name, "pikachu");
    assert_eq!(rec.sprites.front_default, "front.png");
    assert_eq!(rec.sprites.other.official_artwork.front_shiny, "art-shiny.png");
    assert_eq!(rec.stats[0].base_stat, 35);
    assert_eq!(rec.types[0].slot, 1);
    assert_eq!(rec.weight, 60);
    assert_eq!(rec.evolves_from_species, None);
    assert!(rec.has_gender_differences);
    assert_eq!(rec.hatch_counter, 10);
    assert!(!rec.is_baby);
    assert!(!rec.is_legendary);
    assert!(!rec.is_mythical);
    assert_eq!(rec.evolves_to.len(), 0);
}

#[test]
fn count_cache_aside_fetches_once() {
    let mut finder = PokeFinder::new();
    assert_eq!(finder.cached_count(), None);
    let (count, fetched) = finder.get_poke_count(1025);
    assert_eq!(count, 1025);
    assert!(fetched);
    let (count_again, fetched_again) = finder.get_poke_count(4242);
    assert_eq!(count_again, 1025);
    assert!(!fetched_again);
    assert_eq!(finder.cached_count(), Some(1025));
}
