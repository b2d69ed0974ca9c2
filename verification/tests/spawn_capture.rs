//! Spawn rolls, the capture race, and the persistence of its outcome.

use pokebot::spawn::CaptureOutcome;
use pokebot::spawn::PokeSpawnHandler;
use pokebot::spawn::SpawnedPokemon;
use pokebot::spawn::message_triggers_spawn;
use pokebot::spawn::run_capture;
use pokebot::spawn::select_winner;
use pokebot::spawn::spawn_random_overrides;
use pokebot::trainer::DBTrainer;
use pokebot::trainer::TrainerStore;
use pokebot::trainer::persist_capture_outcome;

const BOT: u64 = 7;

#[test]
fn spawn_rate_one_always_spawns() {
    let handler = PokeSpawnHandler::new(1, 30, 8192);
    for _ in 0..100 {
        assert!(handler.can_spawn());
    }
}

#[test]
fn generated_poke_is_in_range_and_forced_shiny() {
    let handler = PokeSpawnHandler::new(1, 30, 1);
    for _ in 0..100 {
        let spawned = handler.generate_new_poke(151);
        assert!(1 <= spawned.id && spawned.id <= 151);
        assert!(spawned.is_shiny);
    }
}

#[test]
fn generated_poke_single_species() {
    let handler = PokeSpawnHandler::new(1, 30, 8192);
    let spawned = handler.generate_new_poke(1);
    assert_eq!(spawned.id, 1);
}

#[test]
fn winner_is_first_non_bot_participant() {
    assert_eq!(select_winner(&vec![], BOT), None);
    assert_eq!(select_winner(&vec![BOT], BOT), None);
    assert_eq!(select_winner(&vec![BOT, 42], BOT), Some(42));
    assert_eq!(select_winner(&vec![42, BOT], BOT), Some(42));
    assert_eq!(select_winner(&vec![BOT, 42, 43], BOT), Some(42));
}

#[test]
fn capture_window_times_out_on_empty_polls() {
    let polls: Vec<Vec<u64>> = vec![vec![BOT], vec![BOT], vec![]];
    assert_eq!(run_capture(&polls, BOT), CaptureOutcome::Fled);
}

#[test]
fn capture_stops_at_first_winning_poll() {
    let polls: Vec<Vec<u64>> = vec![vec![BOT], vec![BOT, 42], vec![BOT, 99]];
    assert_eq!(run_capture(&polls, BOT), CaptureOutcome::Captured(42));
}

#[test]
fn fled_outcome_writes_no_capture_row() {
    let mut store = TrainerStore::new();
    let fresh = DBTrainer::new("t-1".to_string(), "42".to_string(), "g-1".to_string(), 100);
    let recorded = persist_capture_outcome(
        &mut store,
        &CaptureOutcome::Fled,
        &"g-1".to_string(),
        &SpawnedPokemon::new(25, false),
        fresh,
        "p-1".to_string(),
        100,
    );
    assert!(recorded.is_none());
    assert_eq!(store.trainer_rows().len(), 0);
    assert_eq!(store.poke_rows().len(), 0);
}

#[test]
fn capture_outcome_writes_trainer_and_row() {
    let mut store = TrainerStore::new();
    let fresh = DBTrainer::new("t-1".to_string(), "42".to_string(), "g-1".to_string(), 100);
    let recorded = persist_capture_outcome(
        &mut store,
        &CaptureOutcome::Captured(42),
        &"g-1".to_string(),
        &SpawnedPokemon::new(25, true),
        fresh,
        "p-1".to_string(),
        100,
    )
    .expect("a capture records a trainer");
    assert_eq!(recorded.id, "t-1");
    assert_eq!(store.trainer_rows().len(), 1);
    assert_eq!(store.poke_rows().len(), 1);
    let row = &store.poke_rows()[0];
    assert_eq!(row.trainer_id, "t-1");
    assert_eq!(row.poke_id, 25);
    assert!(row.is_shiny);
}

#[test]
fn trainer_upsert_idempotence_two_captures_one_row() {
    let mut store = TrainerStore::new();
    let fresh1 = DBTrainer::new("t-1".to_string(), "42".to_string(), "g-1".to_string(), 100);
    let first = persist_capture_outcome(
        &mut store,
        &CaptureOutcome::Captured(42),
        &"g-1".to_string(),
        &SpawnedPokemon::new(25, false),
        fresh1,
        "p-1".to_string(),
        100,
    )
    .expect("first capture records a trainer");
    let fresh2 = DBTrainer::new("t-2".to_string(), "42".to_string(), "g-1".to_string(), 200);
    let second = persist_capture_outcome(
        &mut store,
        &CaptureOutcome::Captured(42),
        &"g-1".to_string(),
        &SpawnedPokemon::new(133, true),
        fresh2,
        "p-2".to_string(),
        200,
    )
    .expect("second capture records a trainer");
    assert_eq!(first, second);
    assert_eq!(store.trainer_rows().len(), 1);
    assert_eq!(store.poke_rows().len(), 2);
    assert_eq!(store.poke_rows()[0].trainer_id, "t-1");
    assert_eq!(store.poke_rows()[1].trainer_id, "t-1");
}

#[test]
fn distinct_scopes_get_distinct_trainers() {
    let mut store = TrainerStore::new();
    let fresh1 = DBTrainer::new("t-1".to_string(), "42".to_string(), "g-1".to_string(), 100);
    let (a, created_a) = store.find_by_discord_id(&"42".to_string(), &"g-1".to_string(), fresh1);
    let fresh2 = DBTrainer::new("t-2".to_string(), "42".to_string(), "g-2".to_string(), 100);
    let (b, created_b) = store.find_by_discord_id(&"42".to_string(), &"g-2".to_string(), fresh2);
    assert!(created_a);
    assert!(created_b);
    assert_ne!(a.id, b.id);
    assert_eq!(store.trainer_rows().len(), 2);
}

#[test]
fn dev_spawn_overrides() {
    let forced = spawn_random_overrides(15, true);
    assert_eq!(forced.bot_poke_spawn_rate, 1);
    assert_eq!(forced.bot_poke_flee_time_secs, 15);
    assert_eq!(forced.bot_poke_shiny_rate, 1);
    let plain = spawn_random_overrides(15, false);
    assert_eq!(plain.bot_poke_shiny_rate, 10000);
}

#[test]
fn spawn_trigger_guard() {
    assert!(message_triggers_spawn(false, true));
    assert!(!message_triggers_spawn(true, true));
    assert!(!message_triggers_spawn(false, false));
    assert!(!message_triggers_spawn(true, false));
}
