//! Persisted capture outcomes: trainer rows, capture rows, and the store
//! operations the bot performs on them.
//!
//! A trainer row represents one user within one guild and is created lazily
//! on the first successful capture of that pair; a capture row is created
//! exactly once per successful capture and never mutated. `TrainerStore`
//! realizes the persistence contract in memory, with row ids and timestamps
//! supplied by the caller; a document-store backend performs the same
//! operations at the process edge.

use vstd::prelude::*;

verus! {

use crate::spawn::CaptureOutcome;
use crate::spawn::SpawnedPokemon;
use crate::text::decimal_rep;
use crate::text::decimal_string;

/// A trainer row: one user within one guild.
#[derive(Debug, PartialEq, Eq)]
pub struct DBTrainer {
    pub id: String,
    pub discord_id: String,
    pub discord_guild_id: String,
    pub created_at: u64,
    pub updated_at: u64,
}

impl Clone for DBTrainer {
    fn clone(&self) -> (r: Self)
        ensures
            r == *self,
    {
        DBTrainer {
            id: self.id.clone(),
            discord_id: self.discord_id.clone(),
            discord_guild_id: self.discord_guild_id.clone(),
            created_at: self.created_at,
            updated_at: self.updated_at,
        }
    }
}

impl DBTrainer {
    /// A trainer row for the given identity and scope, stamped with the
    /// caller's row id and clock.
    pub fn new(id: String, discord_id: String, discord_guild_id: String, now: u64) -> (r: Self)
        ensures
            r == (DBTrainer { id, discord_id, discord_guild_id, created_at: now, updated_at: now }),
    {
        DBTrainer { id, discord_id, discord_guild_id, created_at: now, updated_at: now }
    }
}

/// A capture row: one successful capture, referencing its trainer.
#[derive(Debug, PartialEq, Eq)]
pub struct DBPoke {
    pub id: String,
    pub trainer_id: String,
    pub poke_id: u16,
    pub is_shiny: bool,
    pub created_at: u64,
    pub updated_at: u64,
}

impl Clone for DBPoke {
    fn clone(&self) -> (r: Self)
        ensures
            r == *self,
    {
        DBPoke {
            id: self.id.clone(),
            trainer_id: self.trainer_id.clone(),
            poke_id: self.poke_id,
            is_shiny: self.is_shiny,
            created_at: self.created_at,
            updated_at: self.updated_at,
        }
    }
}

impl DBPoke {
    /// A capture row for the given trainer and creature, stamped with the
    /// caller's row id and clock.
    pub fn new(id: String, trainer_id: &String, poke_id: &u16, is_shiny: bool, now: u64) -> (r:
        Self)
        ensures
            r == (DBPoke {
                id,
                trainer_id: *trainer_id,
                poke_id: *poke_id,
                is_shiny,
                created_at: now,
                updated_at: now,
            }),
    {
        DBPoke {
            id,
            trainer_id: trainer_id.clone(),
            poke_id: *poke_id,
            is_shiny,
            created_at: now,
            updated_at: now,
        }
    }
}

/// The wire shape of a trainer row, generic over the store backend's row id
/// and timestamp types. `DBTrainer` is its plain in-memory instantiation.
#[derive(Debug, PartialEq, Eq)]
pub struct Trainer<Id, DateTime> {
    pub _id: Id,
    pub discord_id: u128,
    pub discord_guild_id: u128,
    pub created_at: DateTime,
    pub updated_at: DateTime,
}

/// The wire shape of a capture row, generic over the store backend's row id
/// and timestamp types. `DBPoke` is its plain in-memory instantiation.
#[derive(Debug, PartialEq, Eq)]
pub struct DatabasePokemon<Id, DateTime> {
    pub _id: Id,
    pub trainer_id: Id,
    pub poke_id: u16,
    pub is_shiny: bool,
    pub created_at: DateTime,
    pub updated_at: DateTime,
}

/// Whether a trainer row belongs to the given identity and scope.
pub open spec fn trainer_matches(t: DBTrainer, discord_id: Seq<char>, guild_id: Seq<char>) -> bool {
    t.discord_id@ == discord_id && t.discord_guild_id@ == guild_id
}

/// The first trainer row of the given identity and scope, if any.
pub open spec fn find_trainer_spec(
    s: Seq<DBTrainer>,
    discord_id: Seq<char>,
    guild_id: Seq<char>,
) -> Option<DBTrainer>
    decreases s.len(),
{
    if s.len() == 0 {
        None
    } else if trainer_matches(s.first(), discord_id, guild_id) {
        Some(s.first())
    } else {
        find_trainer_spec(s.drop_first(), discord_id, guild_id)
    }
}

/// A lookup misses exactly when no row matches.
pub proof fn lemma_find_trainer_none(s: Seq<DBTrainer>, discord_id: Seq<char>, guild_id: Seq<char>)
    ensures
        find_trainer_spec(s, discord_id, guild_id) is None <==> (forall|i: int|
            0 <= i < s.len() ==> !trainer_matches(#[trigger] s[i], discord_id, guild_id)),
    decreases s.len(),
{
    if s.len() > 0 {
        lemma_find_trainer_none(s.drop_first(), discord_id, guild_id);
        assert(forall|i: int|
            1 <= i < s.len() ==> s.drop_first()[i - 1] == #[trigger] s[i]);
        assert(s[0] == s.first());
    }
}

/// The rows of `s` owned by the given trainer, in store order.
pub open spec fn owned_by(s: Seq<DBPoke>, trainer_id: Seq<char>) -> Seq<DBPoke>
    decreases s.len(),
{
    if s.len() == 0 {
        s
    } else {
        let rest = owned_by(s.drop_last(), trainer_id);
        if s.last().trainer_id@ == trainer_id {
            rest.push(s.last())
        } else {
            rest
        }
    }
}

/// The two persisted tables, as the bot reads and writes them. Trainer rows
/// are only ever created through the idempotent upsert, so one
/// (identity, scope) pair owns at most one row.
pub struct TrainerStore {
    trainers: Vec<DBTrainer>,
    pokes: Vec<DBPoke>,
}

impl TrainerStore {
    /// The trainer rows, in insertion order.
    pub closed spec fn trainers(&self) -> Seq<DBTrainer> {
        self.trainers@
    }

    /// The capture rows, in insertion order.
    pub closed spec fn pokes(&self) -> Seq<DBPoke> {
        self.pokes@
    }

    /// No two trainer rows share an identity and scope.
    pub open spec fn wf(&self) -> bool {
        forall|i: int, j: int|
            0 <= i < j < self.trainers().len() ==> !trainer_matches(
                #[trigger] self.trainers()[j],
                (#[trigger] self.trainers()[i]).discord_id@,
                self.trainers()[i].discord_guild_id@,
            )
    }

    /// An empty store.
    pub fn new() -> (r: Self)
        ensures
            r.trainers() == Seq::<DBTrainer>::empty(),
            r.pokes() == Seq::<DBPoke>::empty(),
            r.wf(),
    {
        TrainerStore { trainers: Vec::new(), pokes: Vec::new() }
    }

    /// The trainer table, read-only.
    pub fn trainer_rows(&self) -> (r: &Vec<DBTrainer>)
        ensures
            r@ == self.trainers(),
    {
        &self.trainers
    }

    /// The capture table, read-only.
    pub fn poke_rows(&self) -> (r: &Vec<DBPoke>)
        ensures
            r@ == self.pokes(),
    {
        &self.pokes
    }

    /// The first trainer row of the given identity and scope, if any.
    pub fn lookup_trainer(&self, discord_id: &String, discord_guild_id: &String) -> (r: Option<
        DBTrainer,
    >)
        ensures
            r == find_trainer_spec(self.trainers(), discord_id@, discord_guild_id@),
    {
        let ghost s = self.trainers@;
        let mut i: usize = 0;
        proof {
            assert(s.skip(0) =~= s);
        }
        while i < self.trainers.len()
            invariant
                i <= s.len(),
                s == self.trainers@,
                find_trainer_spec(s, discord_id@, discord_guild_id@) == find_trainer_spec(
                    s.skip(i as int),
                    discord_id@,
                    discord_guild_id@,
                ),
            decreases s.len() - i,
        {
            proof {
                assert(s.skip(i as int).first() == s[i as int]);
                assert(s.skip(i as int).drop_first() =~= s.skip(i as int + 1));
            }
            let t = &self.trainers[i];
            if t.discord_id == *discord_id && t.discord_guild_id == *discord_guild_id {
                return Some(t.clone());
            }
            i = i + 1;
        }
        proof {
            assert(s.skip(s.len() as int).len() == 0);
        }
        None
    }

    /// Find the trainer of the given identity and scope, creating the row
    /// lazily when none exists: the idempotent upsert. Returns the row that
    /// now stands for the pair and whether it was created; an existing pair
    /// is returned as it stands, with nothing inserted.
    pub fn find_by_discord_id(
        &mut self,
        discord_id: &String,
        discord_guild_id: &String,
        fresh: DBTrainer,
    ) -> (r: (DBTrainer, bool))
        requires
            old(self).wf(),
            trainer_matches(fresh, discord_id@, discord_guild_id@),
        ensures
            final(self).wf(),
            final(self).pokes() == old(self).pokes(),
            match find_trainer_spec(old(self).trainers(), discord_id@, discord_guild_id@) {
                Some(t) => r == (t, false) && final(self).trainers() == old(self).trainers(),
                None => r == (fresh, true) && final(self).trainers() == old(self).trainers().push(
                    fresh,
                ),
            },
    {
        match self.lookup_trainer(discord_id, discord_guild_id) {
            Some(t) => (t, false),
            None => {
                let out = fresh.clone();
                proof {
                    lemma_find_trainer_none(self.trainers@, discord_id@, discord_guild_id@);
                }
                self.trainers.push(fresh);
                (out, true)
            },
        }
    }

    /// Append one capture row. The trainer table is untouched.
    pub fn insert_poke(&mut self, poke: DBPoke)
        ensures
            final(self).pokes() == old(self).pokes().push(poke),
            final(self).trainers() == old(self).trainers(),
            old(self).wf() ==> final(self).wf(),
    {
        self.pokes.push(poke);
    }

    /// The capture rows owned by the given trainer, in store order.
    pub fn find_by_trainer_id(&self, trainer_id: &String) -> (r: Vec<DBPoke>)
        ensures
            r@ == owned_by(self.pokes(), trainer_id@),
    {
        let ghost s = self.pokes@;
        let mut out: Vec<DBPoke> = Vec::new();
        let mut i: usize = 0;
        proof {
            assert(s.take(0) =~= Seq::<DBPoke>::empty());
        }
        while i < self.pokes.len()
            invariant
                i <= s.len(),
                s == self.pokes@,
                out@ == owned_by(s.take(i as int), trainer_id@),
            decreases s.len() - i,
        {
            let ghost t = s.take(i as int + 1);
            proof {
                assert(t.drop_last() =~= s.take(i as int));
                assert(t.last() == s[i as int]);
            }
            if self.pokes[i].trainer_id == *trainer_id {
                out.push(self.pokes[i].clone());
            }
            i = i + 1;
        }
        proof {
            assert(s.take(s.len() as int) =~= s);
        }
        out
    }
}

/// Two captures by one (identity, scope) pair reuse one trainer row: after
/// the insert that a missing pair provokes, the pair's lookup finds exactly
/// the inserted row, so a second upsert returns it and inserts nothing.
pub proof fn lemma_trainer_upsert_idempotent(
    s: Seq<DBTrainer>,
    fresh: DBTrainer,
    discord_id: Seq<char>,
    guild_id: Seq<char>,
)
    requires
        trainer_matches(fresh, discord_id, guild_id),
        find_trainer_spec(s, discord_id, guild_id) is None,
    ensures
        find_trainer_spec(s.push(fresh), discord_id, guild_id) == Some(fresh),
    decreases s.len(),
{
    if s.len() == 0 {
        assert(s.push(fresh).first() == fresh);
    } else {
        assert(s.push(fresh).first() == s.first());
        assert(s.push(fresh).drop_first() =~= s.drop_first().push(fresh));
        lemma_trainer_upsert_idempotent(s.drop_first(), fresh, discord_id, guild_id);
    }
}

/// Rows in non-decreasing creature id order.
pub open spec fn sorted_by_poke_id(s: Seq<DBPoke>) -> bool {
    forall|i: int, j: int|
        0 <= i < j < s.len() ==> (#[trigger] s[i]).poke_id <= (#[trigger] s[j]).poke_id
}

/// Creature ids strictly increasing: each id occurs once.
pub open spec fn distinct_poke_ids(s: Seq<DBPoke>) -> bool {
    forall|i: int, j: int|
        0 <= i < j < s.len() ==> (#[trigger] s[i]).poke_id < (#[trigger] s[j]).poke_id
}

/// Sort capture rows by creature id. The multiset of rows is unchanged.
pub fn sort_pokes_by_id(v: &mut Vec<DBPoke>)
    ensures
        sorted_by_poke_id(final(v)@),
        final(v)@.to_multiset() == old(v)@.to_multiset(),
{
    let mut i: usize = 1;
    while i < v.len()
        invariant
            i >= 1,
            v@.to_multiset() == old(v)@.to_multiset(),
            forall|a: int, b: int|
                0 <= a < b < i && b < v@.len() ==> (#[trigger] v@[a]).poke_id
                    <= (#[trigger] v@[b]).poke_id,
        decreases v@.len() - i,
    {
        let mut j: usize = i;
        while j > 0 && v[j - 1].poke_id > v[i].poke_id
            invariant
                j <= i < v@.len(),
                forall|k: int| j <= k < i ==> (#[trigger] v@[k]).poke_id > v@[i as int].poke_id,
            decreases j,
        {
            j = j - 1;
        }
        let ghost s0 = v@;
        let x = v.remove(i);
        v.insert(j, x);
        proof {
            broadcast use vstd::seq_lib::group_to_multiset_ensures;

            let s2 = v@;
            assert(s2 == s0.remove(i as int).insert(j as int, s0[i as int]));
            assert(s0.contains(s0[i as int]));
            assert(s2.to_multiset() =~= s0.to_multiset());
            assert forall|a: int, b: int|
                0 <= a < b < i + 1 && b < s2.len() implies (#[trigger] s2[a]).poke_id
                <= (#[trigger] s2[b]).poke_id by {
                if b < j {
                    assert(s2[a] == s0[a] && s2[b] == s0[b]);
                } else if b == j {
                    assert(s2[b] == s0[i as int]);
                    assert(s2[a] == s0[a]);
                    assert(s0[j - 1].poke_id <= s0[i as int].poke_id);
                    if a < j - 1 {
                        assert(s0[a].poke_id <= s0[j - 1].poke_id);
                    }
                } else {
                    assert(s2[b] == s0[b - 1]);
                    if a < j {
                        assert(s2[a] == s0[a]);
                        if j > 0 {
                            assert(s0[j - 1].poke_id <= s0[i as int].poke_id);
                        }
                        if b - 1 == i {
                        } else {
                            assert(s0[i as int].poke_id < s0[b - 1].poke_id);
                        }
                        if a <= j - 1 && j - 1 < i {
                            assert(s0[a].poke_id <= s0[j - 1].poke_id || a == j - 1);
                        }
                    } else if a == j {
                        assert(s2[a] == s0[i as int]);
                        if b - 1 == i {
                        } else {
                            assert(s0[i as int].poke_id < s0[b - 1].poke_id);
                        }
                    } else {
                        assert(s2[a] == s0[a - 1]);
                        if b - 1 == i {
                            assert(s0[a - 1].poke_id > s0[i as int].poke_id || a - 1 < j);
                            assert(j <= a - 1 < i);
                            assert(s0[a - 1].poke_id <= s0[i as int].poke_id || true);
                        }
                        if a - 1 < b - 1 && b - 1 < i {
                            assert(s0[a - 1].poke_id <= s0[b - 1].poke_id);
                        }
                    }
                }
            }
        }
        i = i + 1;
    }
}

/// The rows that survive removing each row whose creature id repeats the id
/// of the row kept just before it: on a sorted list, the first row of each
/// creature id.
pub open spec fn dedup_by_poke_id(s: Seq<DBPoke>) -> Seq<DBPoke>
    decreases s.len(),
{
    if s.len() == 0 {
        s
    } else {
        let rest = dedup_by_poke_id(s.drop_last());
        if rest.len() > 0 && rest.last().poke_id == s.last().poke_id {
            rest
        } else {
            rest.push(s.last())
        }
    }
}

/// Deduplicate rows by creature id, keeping the first row of each run.
pub fn dedup_pokes_by_id(v: &Vec<DBPoke>) -> (r: Vec<DBPoke>)
    ensures
        r@ == dedup_by_poke_id(v@),
{
    let mut out: Vec<DBPoke> = Vec::new();
    let mut i: usize = 0;
    proof {
        assert(v@.take(0) =~= Seq::<DBPoke>::empty());
    }
    while i < v.len()
        invariant
            i <= v@.len(),
            out@ == dedup_by_poke_id(v@.take(i as int)),
        decreases v@.len() - i,
    {
        let ghost t = v@.take(i as int + 1);
        proof {
            assert(t.drop_last() =~= v@.take(i as int));
            assert(t.last() == v@[i as int]);
        }
        if out.len() > 0 {
            let keep = out[out.len() - 1].poke_id != v[i].poke_id;
            if keep {
                out.push(v[i].clone());
            }
        } else {
            out.push(v[i].clone());
        }
        i = i + 1;
    }
    proof {
        assert(v@.take(v@.len() as int) =~= v@);
    }
    out
}

/// On a sorted list, deduplication leaves each creature id exactly once,
/// still in order, and keeps the final id.
pub proof fn lemma_dedup_sorted_distinct(s: Seq<DBPoke>)
    requires
        sorted_by_poke_id(s),
    ensures
        distinct_poke_ids(dedup_by_poke_id(s)),
        s.len() > 0 ==> dedup_by_poke_id(s).len() > 0 && dedup_by_poke_id(s).last().poke_id
            == s.last().poke_id,
    decreases s.len(),
{
    if s.len() > 0 {
        let t = s.drop_last();
        assert(sorted_by_poke_id(t)) by {
            assert(forall|i: int| 0 <= i < t.len() ==> t[i] == s[i]);
        }
        lemma_dedup_sorted_distinct(t);
        let rest = dedup_by_poke_id(t);
        if !(rest.len() > 0 && rest.last().poke_id == s.last().poke_id) {
            let d = rest.push(s.last());
            assert forall|i: int, j: int|
                0 <= i < j < d.len() implies (#[trigger] d[i]).poke_id
                < (#[trigger] d[j]).poke_id by {
                if j < d.len() - 1 {
                    assert(d[i] == rest[i] && d[j] == rest[j]);
                } else {
                    assert(d[j] == s.last());
                    if rest.len() > 0 {
                        assert(d[i] == rest[i]);
                        assert(t.len() > 0);
                        assert(rest.last().poke_id == t.last().poke_id);
                        assert(t.last().poke_id <= s.last().poke_id);
                        if i < rest.len() - 1 {
                            assert(rest[i].poke_id < rest.last().poke_id);
                        }
                    }
                }
            }
        }
    }
}

/// The owned list and the distinct-species list of one trainer: the
/// trainer's capture rows sorted by creature id, and that sorted list
/// deduplicated by creature id in the same order.
pub fn get_trainer_owned_pokes(store: &TrainerStore, trainer: &DBTrainer) -> (r: (
    Vec<DBPoke>,
    Vec<DBPoke>,
))
    ensures
        sorted_by_poke_id(r.0@),
        r.0@.to_multiset() == owned_by(store.pokes(), trainer.id@).to_multiset(),
        r.1@ == dedup_by_poke_id(r.0@),
        distinct_poke_ids(r.1@),
{
    let mut pokes = store.find_by_trainer_id(&trainer.id);
    sort_pokes_by_id(&mut pokes);
    let species = dedup_pokes_by_id(&pokes);
    proof {
        lemma_dedup_sorted_distinct(pokes@);
    }
    (pokes, species)
}

/// Persist the outcome of one capture window: a fled event writes nothing;
/// a capture upserts the winner's trainer row and appends exactly one
/// capture row referencing it, the spawned creature and the shiny flag.
/// The candidate trainer row (used only when the winner's pair has no row
/// yet), the capture row id and the clock come from the caller; the
/// candidate must carry the winner's decimal identity and the guild scope.
/// Returns the trainer the capture was recorded for, if any.
pub fn persist_capture_outcome(
    store: &mut TrainerStore,
    outcome: &CaptureOutcome,
    guild_id: &String,
    spawned: &SpawnedPokemon,
    fresh: DBTrainer,
    fresh_poke_id: String,
    now: u64,
) -> (r: Option<DBTrainer>)
    requires
        old(store).wf(),
        *outcome matches CaptureOutcome::Captured(winner) ==> trainer_matches(
            fresh,
            decimal_rep(winner as nat),
            guild_id@,
        ),
    ensures
        final(store).wf(),
        *outcome is Fled ==> r is None && *final(store) == *old(store),
        *outcome matches CaptureOutcome::Captured(winner) ==> {
            let found = find_trainer_spec(
                old(store).trainers(),
                decimal_rep(winner as nat),
                guild_id@,
            );
            let t = match found {
                Some(t) => t,
                None => fresh,
            };
            &&& r == Some(t)
            &&& final(store).trainers() == (if found is Some {
                old(store).trainers()
            } else {
                old(store).trainers().push(fresh)
            })
            &&& final(store).pokes() == old(store).pokes().push(
                DBPoke {
                    id: fresh_poke_id,
                    trainer_id: t.id,
                    poke_id: spawned.id,
                    is_shiny: spawned.is_shiny,
                    created_at: now,
                    updated_at: now,
                },
            )
        },
{
    match outcome {
        CaptureOutcome::Fled => None,
        CaptureOutcome::Captured(winner) => {
            let discord_id = decimal_string(*winner);
            let (trainer, _created) = store.find_by_discord_id(&discord_id, guild_id, fresh);
            let poke = DBPoke::new(fresh_poke_id, &trainer.id, &spawned.id, spawned.is_shiny, now);
            store.insert_poke(poke);
            Some(trainer)
        },
    }
}

} // verus!
