//! Pagination page math, navigation, and per-entry aggregates.

use pokebot::pokedex::NavigationEvent;
use pokebot::pokedex::PokedexInfo;
use pokebot::pokedex::capture_stats;
use pokebot::pokedex::describe_trainer_pokes;
use pokebot::pokedex::get_pokedex_page;
use pokebot::pokedex::total_pages;
use pokebot::trainer::DBPoke;
use pokebot::trainer::DBTrainer;
use pokebot::trainer::TrainerStore;
use pokebot::trainer::get_trainer_owned_pokes;

fn row(id: &str, trainer: &str, poke_id: u16, shiny: bool, at: u64) -> DBPoke {
    DBPoke::new(id.to_string(), &trainer.to_string(), &poke_id, shiny, at)
}

#[test]
fn page_math_twelve_species_five_per_page() {
    assert_eq!(total_pages(12, 5), 3);
    assert_eq!(total_pages(0, 5), 1);
    assert_eq!(total_pages(10, 5), 3);
    assert_eq!(total_pages(4, 5), 1);
}

#[test]
fn page_beyond_total_is_empty() {
    let list: Vec<DBPoke> = (1..=12u16).map(|i| row("r", "t", i, false, 0)).collect();
    let beyond = get_pokedex_page(3, 4, 5, &list);
    assert!(beyond.is_empty());
}

#[test]
fn page_slices_are_clipped() {
    let list: Vec<DBPoke> = (1..=12u16).map(|i| row("r", "t", i, false, 0)).collect();
    let first = get_pokedex_page(3, 1, 5, &list);
    let second = get_pokedex_page(3, 2, 5, &list);
    let third = get_pokedex_page(3, 3, 5, &list);
    assert_eq!(first.iter().map(|p| p.poke_id).collect::<Vec<_>>(), vec![1, 2, 3, 4, 5]);
    assert_eq!(second.iter().map(|p| p.poke_id).collect::<Vec<_>>(), vec![6, 7, 8, 9, 10]);
    assert_eq!(third.iter().map(|p| p.poke_id).collect::<Vec<_>>(), vec![11, 12]);
}

#[test]
fn navigation_next_on_last_page_is_a_noop() {
    let species: Vec<DBPoke> = (1..=12u16).map(|i| row("r", "t", i, false, 0)).collect();
    let mut info = PokedexInfo::new(vec![], species, 1025, 5);
    assert_eq!(info.current_page, 1);
    assert_eq!(info.total_pages, 3);
    info.handle_navigation(true, NavigationEvent::Previous);
    assert_eq!(info.current_page, 1);
    info.handle_navigation(true, NavigationEvent::Next);
    assert_eq!(info.current_page, 2);
    info.handle_navigation(true, NavigationEvent::Next);
    assert_eq!(info.current_page, 3);
    info.handle_navigation(true, NavigationEvent::Next);
    assert_eq!(info.current_page, 3);
    info.handle_navigation(true, NavigationEvent::Previous);
    assert_eq!(info.current_page, 2);
}

#[test]
fn interaction_stream_moves_the_page_event_by_event() {
    let species: Vec<DBPoke> = (1..=12u16).map(|i| row("r", "t", i, false, 0)).collect();
    let mut info = PokedexInfo::new(vec![], species, 1025, 5);
    let events = vec![
        (true, NavigationEvent::Next),
        (true, NavigationEvent::Next),
        (true, NavigationEvent::Next),
        (false, NavigationEvent::Previous),
        (true, NavigationEvent::Other),
        (true, NavigationEvent::Previous),
    ];
    info.handle_pokedex_interactions(&events);
    assert_eq!(info.current_page, 2);
}

#[test]
fn navigation_ignores_other_users_and_other_events() {
    let species: Vec<DBPoke> = (1..=12u16).map(|i| row("r", "t", i, false, 0)).collect();
    let mut info = PokedexInfo::new(vec![], species, 1025, 5);
    info.handle_navigation(false, NavigationEvent::Next);
    assert_eq!(info.current_page, 1);
    info.handle_navigation(true, NavigationEvent::Other);
    assert_eq!(info.current_page, 1);
}

#[test]
fn aggregates_run_against_the_full_owned_list() {
    let full = vec![
        row("a", "t", 25, false, 10),
        row("b", "t", 25, true, 30),
        row("c", "t", 25, false, 20),
        row("d", "t", 7, true, 5),
    ];
    let stats = capture_stats(&full, 25);
    assert_eq!(stats.poke_id, 25);
    assert_eq!(stats.total_caught, 3);
    assert_eq!(stats.total_shiny_caught, 1);
    assert_eq!(stats.last_captured, 30);
    let other = capture_stats(&full, 7);
    assert_eq!(other.total_caught, 1);
    assert_eq!(other.total_shiny_caught, 1);
    assert_eq!(other.last_captured, 5);
    let absent = capture_stats(&full, 1);
    assert_eq!(absent.total_caught, 0);
    assert_eq!(absent.total_shiny_caught, 0);
    assert_eq!(absent.last_captured, 0);
}

#[test]
fn page_entries_describe_each_slice_row() {
    let full = vec![
        row("a", "t", 25, false, 10),
        row("b", "t", 25, true, 30),
        row("d", "t", 7, true, 5),
    ];
    let page = vec![row("d", "t", 7, true, 5), row("a", "t", 25, false, 10)];
    let entries = describe_trainer_pokes(&page, &full);
    assert_eq!(entries.len(), 2);
    assert_eq!(entries[0].poke_id, 7);
    assert_eq!(entries[0].total_caught, 1);
    assert_eq!(entries[1].poke_id, 25);
    assert_eq!(entries[1].total_caught, 2);
    assert_eq!(entries[1].total_shiny_caught, 1);
    assert_eq!(entries[1].last_captured, 30);
}

#[test]
fn owned_lists_are_sorted_and_deduplicated() {
    let mut store = TrainerStore::new();
    let trainer = DBTrainer::new("t-1".to_string(), "42".to_string(), "g".to_string(), 0);
    let (t, _) = store.find_by_discord_id(&"42".to_string(), &"g".to_string(), trainer);
    for (poke_id, at) in [(25u16, 10u64), (7, 20), (25, 30), (3, 40), (7, 50)] {
        let mut next_id = String::from("p-");
        next_id.push_str(&at.to_string());
        let poke = DBPoke::new(next_id, &t.id, &poke_id, false, at);
        store.insert_poke(poke);
    }
    let other = DBPoke::new("q".to_string(), &"someone-else".to_string(), &99, false, 1);
    store.insert_poke(other);
    let (owned, species) = get_trainer_owned_pokes(&store, &t);
    assert_eq!(owned.iter().map(|p| p.poke_id).collect::<Vec<_>>(), vec![3, 7, 7, 25, 25]);
    assert_eq!(species.iter().map(|p| p.poke_id).collect::<Vec<_>>(), vec![3, 7, 25]);
}
