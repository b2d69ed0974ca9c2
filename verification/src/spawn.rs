//! The spawn orchestrator's decisions: the spawn and shiny rolls, the draw
//! of the spawned creature, and the capture race over reaction rosters.
//!
//! One spawn lifecycle runs: roll — draw — resolve — announce — capture
//! window — outcome. The announcement and the once-per-second polling are
//! chat-collaborator work at the process edge; every decision between them
//! stands here.

use vstd::prelude::*;

verus! {

use rand::Rng;

/// A creature drawn for one spawn event, held only for the lifetime of the
/// event.
#[derive(Clone, Copy, Debug, PartialEq, Eq, Structural)]
pub struct SpawnedPokemon {
    pub id: u16,
    pub is_shiny: bool,
}

impl SpawnedPokemon {
    /// A spawned creature with the given id and shininess.
    pub fn new(id: u16, is_shiny: bool) -> (r: Self)
        ensures
            r == (SpawnedPokemon { id, is_shiny }),
    {
        Self { id, is_shiny }
    }
}

/// Relies on rand's `Rng::gen_range` over the half-open range `0..bound`:
/// the draw lies within the range, and only an empty range panics, which
/// the precondition excludes. Of a random draw nothing more is promised
/// than its bounds.
#[verifier::external_body]
fn random_below(bound: u64) -> (r: u64)
    requires
        1 <= bound,
    ensures
        r < bound,
{
    rand::thread_rng().gen_range(0..bound)
}

/// Spawn configuration: the denominators of the spawn and shiny rolls and
/// the length of the capture window, fully populated at construction.
#[derive(Clone, Copy, Debug, PartialEq, Eq, Structural)]
pub struct PokeSpawnHandler {
    pub bot_poke_spawn_rate: u64,
    pub bot_poke_flee_time_secs: u64,
    pub bot_poke_shiny_rate: u64,
}

impl PokeSpawnHandler {
    /// Roll denominators describe a probability of one in N, so they are at
    /// least one.
    pub open spec fn wf(&self) -> bool {
        self.bot_poke_spawn_rate >= 1 && self.bot_poke_shiny_rate >= 1
    }

    /// A handler with the given configuration.
    pub fn new(spawn_rate: u64, flee_time_secs: u64, shiny_rate: u64) -> (r: Self)
        requires
            spawn_rate >= 1,
            shiny_rate >= 1,
        ensures
            r == (PokeSpawnHandler {
                bot_poke_spawn_rate: spawn_rate,
                bot_poke_flee_time_secs: flee_time_secs,
                bot_poke_shiny_rate: shiny_rate,
            }),
            r.wf(),
    {
        PokeSpawnHandler {
            bot_poke_spawn_rate: spawn_rate,
            bot_poke_flee_time_secs: flee_time_secs,
            bot_poke_shiny_rate: shiny_rate,
        }
    }

    /// The spawn roll: one uniform draw in `[0, spawn_rate)`; the spawn
    /// proceeds only on a draw of zero. With a denominator of one every
    /// invocation spawns.
    pub fn can_spawn(&self) -> (b: bool)
        requires
            self.wf(),
        ensures
            self.bot_poke_spawn_rate == 1 ==> b,
    {
        let chance = random_below(self.bot_poke_spawn_rate);
        chance == 0
    }

    /// Draw the creature of one spawn event: a uniform id in
    /// `[1, poke_count]`, shiny exactly when a second uniform draw in
    /// `[0, shiny_rate)` lands on zero. With a shiny denominator of one
    /// every spawn is shiny.
    pub fn generate_new_poke(&self, poke_count: u16) -> (r: SpawnedPokemon)
        requires
            self.wf(),
            poke_count >= 1,
        ensures
            1 <= r.id <= poke_count,
            self.bot_poke_shiny_rate == 1 ==> r.is_shiny,
    {
        let draw = random_below(poke_count as u64);
        let id: u16 = (draw + 1) as u16;
        let is_shiny = random_below(self.bot_poke_shiny_rate) == 0;
        SpawnedPokemon::new(id, is_shiny)
    }
}

/// The winner a roster yields: the first participant in roster order whose
/// identity is not the bot's own reaction, if any.
pub open spec fn winner_in(roster: Seq<u64>, bot: u64) -> Option<u64>
    decreases roster.len(),
{
    if roster.len() == 0 {
        None
    } else if roster.first() != bot {
        Some(roster.first())
    } else {
        winner_in(roster.drop_first(), bot)
    }
}

/// Pick the capture winner from one reaction roster: the first participant
/// in roster order that is not the bot account.
pub fn select_winner(roster: &Vec<u64>, bot: u64) -> (r: Option<u64>)
    ensures
        r == winner_in(roster@, bot),
{
    proof {
        assert(roster@.skip(0) =~= roster@);
    }
    let mut i: usize = 0;
    while i < roster.len()
        invariant
            i <= roster@.len(),
            winner_in(roster@, bot) == winner_in(roster@.skip(i as int), bot),
        decreases roster@.len() - i,
    {
        proof {
            assert(roster@.skip(i as int).first() == roster@[i as int]);
            assert(roster@.skip(i as int).drop_first() =~= roster@.skip(i as int + 1));
        }
        if roster[i] != bot {
            return Some(roster[i]);
        }
        i = i + 1;
    }
    proof {
        assert(roster@.skip(roster@.len() as int).len() == 0);
    }
    None
}

/// The outcome of one capture window.
#[derive(Clone, Copy, Debug, PartialEq, Eq, Structural)]
pub enum CaptureOutcome {
    /// The given participant captured the creature.
    Captured(u64),
    /// The window elapsed with no qualifying participant.
    Fled,
}

/// The outcome of polling the given rosters in order: the first roster that
/// yields a winner decides the capture at once; a run out of rosters means
/// the creature fled.
pub open spec fn capture_run(rosters: Seq<Seq<u64>>, bot: u64) -> CaptureOutcome
    decreases rosters.len(),
{
    if rosters.len() == 0 {
        CaptureOutcome::Fled
    } else {
        match winner_in(rosters.first(), bot) {
            Some(u) => CaptureOutcome::Captured(u),
            None => capture_run(rosters.drop_first(), bot),
        }
    }
}

/// Run one capture window over the rosters observed at each poll, one per
/// second of the window, in order. The loop exits at the first winner
/// without waiting out the remaining polls.
pub fn run_capture(rosters: &Vec<Vec<u64>>, bot: u64) -> (r: CaptureOutcome)
    ensures
        r == capture_run(rosters@.map_values(|v: Vec<u64>| v@), bot),
{
    let ghost all = rosters@.map_values(|v: Vec<u64>| v@);
    proof {
        assert(all.skip(0) =~= all);
    }
    let mut i: usize = 0;
    while i < rosters.len()
        invariant
            i <= rosters@.len(),
            all == rosters@.map_values(|v: Vec<u64>| v@),
            capture_run(all, bot) == capture_run(all.skip(i as int), bot),
        decreases rosters@.len() - i,
    {
        proof {
            assert(all.skip(i as int).first() == rosters@[i as int]@);
            assert(all.skip(i as int).drop_first() =~= all.skip(i as int + 1));
        }
        match select_winner(&rosters[i], bot) {
            Some(u) => {
                return CaptureOutcome::Captured(u);
            },
            None => {
            },
        }
        i = i + 1;
    }
    proof {
        assert(all.skip(rosters@.len() as int).len() == 0);
    }
    CaptureOutcome::Fled
}

/// A capture window whose every poll observes no qualifying participant
/// resolves to `Fled` once the window elapses; no poll can decide a capture.
pub proof fn lemma_capture_window_times_out(rosters: Seq<Seq<u64>>, bot: u64)
    requires
        forall|i: int| 0 <= i < rosters.len() ==> winner_in(#[trigger] rosters[i], bot) is None,
    ensures
        capture_run(rosters, bot) == CaptureOutcome::Fled,
    decreases rosters.len(),
{
    if rosters.len() > 0 {
        assert(rosters.first() == rosters[0]);
        lemma_capture_window_times_out(rosters.drop_first(), bot);
    }
}

/// The spawn configuration the development spawn command builds: spawn on
/// every invocation, the given capture window, and a shiny roll that is
/// certain when forced and one in ten thousand otherwise.
pub fn spawn_random_overrides(flee_time_secs: u64, force_shiny: bool) -> (r: PokeSpawnHandler)
    ensures
        r == (PokeSpawnHandler {
            bot_poke_spawn_rate: 1,
            bot_poke_flee_time_secs: flee_time_secs,
            bot_poke_shiny_rate: if force_shiny {
                1u64
            } else {
                10000u64
            },
        }),
        r.wf(),
{
    let shiny_rate: u64 = if force_shiny {
        1
    } else {
        10000
    };
    PokeSpawnHandler::new(1, flee_time_secs, shiny_rate)
}

/// Whether a chat message opens a spawn attempt: only messages from non-bot
/// authors inside a guild do.
pub fn message_triggers_spawn(author_is_bot: bool, in_guild: bool) -> (r: bool)
    ensures
        r == (!author_is_bot && in_guild),
{
    !author_is_bot && in_guild
}

} // verus!
