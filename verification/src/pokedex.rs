//! The pagination controller: page math over a trainer's catch history and
//! the navigation decisions of one browsing session.
//!
//! A session renders one page of the distinct-species list at a time; each
//! entry's aggregates are computed against the full owned list. Sending,
//! updating and the interaction stream are chat-collaborator work at the
//! process edge; the page selection, the aggregates and the navigation
//! rules stand here.

use vstd::prelude::*;

verus! {

use std::rc::Rc;
use crate::pokeapi::CachedPokemon;
use crate::pokeapi::share_record;
use crate::trainer::DBPoke;

/// Number of pages shown for a distinct-species list of `species_count`
/// entries at `poke_per_page` entries per page: the integer quotient plus
/// one. A list whose length is an exact multiple of the page size thus gets
/// one trailing empty page; that page math is preserved as the session's
/// users know it.
pub fn total_pages(species_count: usize, poke_per_page: u16) -> (r: u16)
    requires
        poke_per_page >= 1,
        species_count as int / (poke_per_page as int) + 1 <= u16::MAX,
    ensures
        r == species_count as int / (poke_per_page as int) + 1,
        r >= 1,
{
    let q = species_count / (poke_per_page as usize);
    (q + 1) as u16
}

/// One page of the list: entries `(p-1)*per_page .. p*per_page`, clipped to
/// the list; a page beyond `total_pages` is empty.
pub fn get_pokedex_page(
    total_pages: u16,
    current_page: u16,
    poke_per_page: u16,
    pokelist: &Vec<DBPoke>,
) -> (r: Vec<DBPoke>)
    requires
        current_page >= 1,
    ensures
        current_page > total_pages ==> r@ == Seq::<DBPoke>::empty(),
        current_page <= total_pages ==> {
            let len = pokelist@.len() as int;
            let start = (current_page - 1) * poke_per_page;
            let end = current_page * poke_per_page;
            r@ == pokelist@.subrange(
                if start < len {
                    start as int
                } else {
                    len
                },
                if end < len {
                    end as int
                } else {
                    len
                },
            )
        },
{
    let mut out: Vec<DBPoke> = Vec::new();
    if current_page > total_pages {
        return out;
    }
    let len: usize = pokelist.len();
    proof {
        vstd::arithmetic::mul::lemma_mul_upper_bound(
            current_page - 1,
            65534,
            poke_per_page as int,
            65535,
        );
    }
    let start: u64 = (current_page as u64 - 1) * (poke_per_page as u64);
    let end: u64 = start + (poke_per_page as u64);
    let ghost lo: int = if start < len as u64 {
        start as int
    } else {
        len as int
    };
    let mut i: u64 = start;
    proof {
        assert(pokelist@.subrange(lo, lo) =~= Seq::<DBPoke>::empty());
    }
    while i < end && i < len as u64
        invariant
            start <= i <= end,
            len == pokelist@.len(),
            lo == (if start < len as u64 {
                start as int
            } else {
                len as int
            }),
            out@ == pokelist@.subrange(
                lo,
                if i < len as u64 {
                    i as int
                } else {
                    len as int
                },
            ),
        decreases end - i,
    {
        out.push(pokelist[i as usize].clone());
        proof {
            assert(pokelist@.subrange(lo, i as int + 1) =~= pokelist@.subrange(lo, i as int).push(
                pokelist@[i as int],
            ));
        }
        i = i + 1;
    }
    proof {
        assert((current_page - 1) * (poke_per_page as int) + poke_per_page == current_page * (
        poke_per_page as int)) by (nonlinear_arith);
    }
    out
}

/// A navigation event of one pagination session.
#[derive(Clone, Copy, Debug, PartialEq, Eq, Structural)]
pub enum NavigationEvent {
    /// The "previous" affordance.
    Previous,
    /// The "next" affordance.
    Next,
    /// Anything else; ignored.
    Other,
}

/// The page a session shows after one interaction: events not from the
/// requester are ignored; "previous" steps back above page one; "next"
/// steps forward below the last page; everything else leaves the page.
pub open spec fn page_after(
    current_page: u16,
    total_pages: u16,
    from_requester: bool,
    ev: NavigationEvent,
) -> u16 {
    if !from_requester {
        current_page
    } else if ev is Previous && current_page > 1 {
        (current_page - 1) as u16
    } else if ev is Next && current_page < total_pages {
        (current_page + 1) as u16
    } else {
        current_page
    }
}

/// The page shown after consuming a stream of interactions in order.
pub open spec fn page_after_events(
    current_page: u16,
    total_pages: u16,
    events: Seq<(bool, NavigationEvent)>,
) -> u16
    decreases events.len(),
{
    if events.len() == 0 {
        current_page
    } else {
        page_after_events(
            page_after(current_page, total_pages, events.first().0, events.first().1),
            total_pages,
            events.drop_first(),
        )
    }
}

/// The aggregates one pagination entry shows, computed against the full
/// owned list.
#[derive(Clone, Copy, Debug, PartialEq, Eq, Structural)]
pub struct PokedexEntryStats {
    /// The creature the entry describes.
    pub poke_id: u16,
    /// How many times the trainer captured this creature.
    pub total_caught: usize,
    /// How many of those captures were shiny.
    pub total_shiny_caught: usize,
    /// The most recent capture timestamp, or zero when none exists.
    pub last_captured: u64,
}

/// The rows of `s` capturing creature `id`, in order.
pub open spec fn captures_of(s: Seq<DBPoke>, id: u16) -> Seq<DBPoke>
    decreases s.len(),
{
    if s.len() == 0 {
        s
    } else {
        let rest = captures_of(s.drop_last(), id);
        if s.last().poke_id == id {
            rest.push(s.last())
        } else {
            rest
        }
    }
}

/// The shiny rows of `s` capturing creature `id`, in order.
pub open spec fn shiny_captures_of(s: Seq<DBPoke>, id: u16) -> Seq<DBPoke>
    decreases s.len(),
{
    if s.len() == 0 {
        s
    } else {
        let rest = shiny_captures_of(s.drop_last(), id);
        if s.last().poke_id == id && s.last().is_shiny {
            rest.push(s.last())
        } else {
            rest
        }
    }
}

/// The largest capture timestamp among the rows of `s` capturing creature
/// `id`, and zero when there is none.
pub open spec fn latest_capture_time(s: Seq<DBPoke>, id: u16) -> u64
    decreases s.len(),
{
    if s.len() == 0 {
        0u64
    } else {
        let rest = latest_capture_time(s.drop_last(), id);
        if s.last().poke_id == id && s.last().created_at > rest {
            s.last().created_at
        } else {
            rest
        }
    }
}

/// The latest-capture aggregate is the maximum: no capture of the creature
/// is more recent, and when the creature was captured at all, one of its
/// captures carries exactly that timestamp.
pub proof fn lemma_latest_capture_is_max(s: Seq<DBPoke>, id: u16)
    ensures
        forall|i: int|
            0 <= i < s.len() && (#[trigger] s[i]).poke_id == id ==> s[i].created_at
                <= latest_capture_time(s, id),
        (exists|i: int| 0 <= i < s.len() && (#[trigger] s[i]).poke_id == id) ==> exists|i: int|
            0 <= i < s.len() && (#[trigger] s[i]).poke_id == id && s[i].created_at
                == latest_capture_time(s, id),
        (forall|i: int| 0 <= i < s.len() ==> (#[trigger] s[i]).poke_id != id)
            ==> latest_capture_time(s, id) == 0,
    decreases s.len(),
{
    if s.len() > 0 {
        let t = s.drop_last();
        lemma_latest_capture_is_max(t, id);
        assert(forall|i: int| 0 <= i < s.len() - 1 ==> t[i] == #[trigger] s[i]);
        assert(s[s.len() - 1] == s.last());
        let rest = latest_capture_time(t, id);
        if s.last().poke_id == id && s.last().created_at > rest {
            assert(s[s.len() - 1].created_at == latest_capture_time(s, id));
        } else {
            if exists|i: int| 0 <= i < t.len() && (#[trigger] t[i]).poke_id == id {
                let w = choose|i: int|
                    0 <= i < t.len() && (#[trigger] t[i]).poke_id == id && t[i].created_at == rest;
                assert(s[w].poke_id == id && s[w].created_at == latest_capture_time(s, id));
            } else {
                if s.last().poke_id == id {
                    assert(rest == 0);
                    assert(s[s.len() - 1].created_at == latest_capture_time(s, id));
                }
            }
        }
    }
}

/// The aggregates of creature `id` against the full owned list: total
/// captures, shiny captures, and the most recent capture timestamp.
pub fn capture_stats(full: &Vec<DBPoke>, poke_id: u16) -> (r: PokedexEntryStats)
    ensures
        r.poke_id == poke_id,
        r.total_caught == captures_of(full@, poke_id).len(),
        r.total_shiny_caught == shiny_captures_of(full@, poke_id).len(),
        r.last_captured == latest_capture_time(full@, poke_id),
{
    let ghost s = full@;
    let mut total: usize = 0;
    let mut shiny: usize = 0;
    let mut last: u64 = 0;
    let mut i: usize = 0;
    proof {
        assert(s.take(0) =~= Seq::<DBPoke>::empty());
    }
    while i < full.len()
        invariant
            i <= s.len(),
            s == full@,
            total <= i,
            shiny <= i,
            total == captures_of(s.take(i as int), poke_id).len(),
            shiny == shiny_captures_of(s.take(i as int), poke_id).len(),
            last == latest_capture_time(s.take(i as int), poke_id),
        decreases s.len() - i,
    {
        let ghost t = s.take(i as int + 1);
        proof {
            assert(t.drop_last() =~= s.take(i as int));
            assert(t.last() == s[i as int]);
        }
        let row = &full[i];
        if row.poke_id == poke_id {
            total = total + 1;
            if row.is_shiny {
                shiny = shiny + 1;
            }
            if row.created_at > last {
                last = row.created_at;
            }
        }
        i = i + 1;
    }
    proof {
        assert(s.take(s.len() as int) =~= s);
    }
    PokedexEntryStats { poke_id, total_caught: total, total_shiny_caught: shiny, last_captured: last }
}

/// The aggregates of every entry of one page slice, each computed against
/// the full owned list, in slice order.
pub fn describe_trainer_pokes(page: &Vec<DBPoke>, full: &Vec<DBPoke>) -> (r: Vec<PokedexEntryStats>)
    ensures
        r@.len() == page@.len(),
        forall|i: int|
            0 <= i < page@.len() ==> #[trigger] r@[i] == (PokedexEntryStats {
                poke_id: page@[i].poke_id,
                total_caught: captures_of(full@, page@[i].poke_id).len() as usize,
                total_shiny_caught: shiny_captures_of(full@, page@[i].poke_id).len() as usize,
                last_captured: latest_capture_time(full@, page@[i].poke_id),
            }),
{
    let mut out: Vec<PokedexEntryStats> = Vec::new();
    let mut i: usize = 0;
    while i < page.len()
        invariant
            i <= page@.len(),
            out@.len() == i,
            forall|j: int|
                0 <= j < i ==> #[trigger] out@[j] == (PokedexEntryStats {
                    poke_id: page@[j].poke_id,
                    total_caught: captures_of(full@, page@[j].poke_id).len() as usize,
                    total_shiny_caught: shiny_captures_of(full@, page@[j].poke_id).len() as usize,
                    last_captured: latest_capture_time(full@, page@[j].poke_id),
                }),
        decreases page@.len() - i,
    {
        let stats = capture_stats(full, page[i].poke_id);
        out.push(stats);
        i = i + 1;
    }
    out
}

/// The first memoized record of the given creature id in a session cache,
/// if any.
pub open spec fn first_with_id(s: Seq<Rc<CachedPokemon>>, id: u16) -> Option<Rc<CachedPokemon>>
    decreases s.len(),
{
    if s.len() == 0 {
        None
    } else if s.first().id == id {
        Some(s.first())
    } else {
        first_with_id(s.drop_first(), id)
    }
}

/// Look a creature up in the session's memoization cache by id, avoiding a
/// repeat resolution within the session.
pub fn find_cached_by_id(poke_cache: &Vec<Rc<CachedPokemon>>, poke_id: u16) -> (r: Option<
    Rc<CachedPokemon>,
>)
    ensures
        r == first_with_id(poke_cache@, poke_id),
{
    let ghost s = poke_cache@;
    proof {
        assert(s.skip(0) =~= s);
    }
    let mut i: usize = 0;
    while i < poke_cache.len()
        invariant
            i <= s.len(),
            s == poke_cache@,
            first_with_id(s, poke_id) == first_with_id(s.skip(i as int), poke_id),
        decreases s.len() - i,
    {
        proof {
            assert(s.skip(i as int).first() == s[i as int]);
            assert(s.skip(i as int).drop_first() =~= s.skip(i as int + 1));
        }
        if poke_cache[i].id == poke_id {
            return Some(share_record(&poke_cache[i]));
        }
        i = i + 1;
    }
    proof {
        assert(s.skip(s.len() as int).len() == 0);
    }
    None
}

/// The state of one pagination session.
pub struct PokedexInfo {
    /// How many species the remote source knows in total.
    pub total_pokes: u16,
    /// The page currently shown, starting at one.
    pub current_page: u16,
    /// The number of pages of the session's distinct-species list.
    pub total_pages: u16,
    /// Entries shown per page.
    pub pokes_per_page: u16,
    /// The full owned list, sorted by creature id.
    pub trainer_pokes: Vec<DBPoke>,
    /// The owned list deduplicated by creature id, same order.
    pub trainer_species: Vec<DBPoke>,
}

impl PokedexInfo {
    /// A session's pages are 1-based and never navigate past the last page.
    pub open spec fn wf(&self) -> bool {
        1 <= self.current_page <= self.total_pages
    }

    /// Open a session on page one over the given lists.
    pub fn new(
        trainer_pokes: Vec<DBPoke>,
        trainer_species: Vec<DBPoke>,
        total_pokes: u16,
        pokes_per_page: u16,
    ) -> (r: Self)
        requires
            pokes_per_page >= 1,
            trainer_species@.len() as int / (pokes_per_page as int) + 1 <= u16::MAX,
        ensures
            r == (PokedexInfo {
                total_pokes,
                current_page: 1u16,
                total_pages: (trainer_species@.len() as int / (pokes_per_page as int) + 1) as u16,
                pokes_per_page,
                trainer_pokes,
                trainer_species,
            }),
            r.wf(),
    {
        let pages = total_pages(trainer_species.len(), pokes_per_page);
        PokedexInfo {
            total_pokes,
            current_page: 1,
            total_pages: pages,
            pokes_per_page,
            trainer_pokes,
            trainer_species,
        }
    }

    /// Consume one session's interaction stream in order: each event moves
    /// the page as `page_after` says and nothing else changes. In a running
    /// session the page is re-rendered after each accepted navigation; the
    /// stream ends when the collaborator's idle timeout closes it.
    pub fn handle_pokedex_interactions(&mut self, events: &Vec<(bool, NavigationEvent)>)
        requires
            old(self).wf(),
        ensures
            final(self).wf(),
            final(self).current_page == page_after_events(
                old(self).current_page,
                old(self).total_pages,
                events@,
            ),
            final(self).total_pokes == old(self).total_pokes,
            final(self).total_pages == old(self).total_pages,
            final(self).pokes_per_page == old(self).pokes_per_page,
            final(self).trainer_pokes == old(self).trainer_pokes,
            final(self).trainer_species == old(self).trainer_species,
    {
        let ghost all = events@;
        let ghost orig = *self;
        proof {
            assert(all.skip(0) =~= all);
        }
        let mut i: usize = 0;
        while i < events.len()
            invariant
                i <= all.len(),
                all == events@,
                self.wf(),
                self.total_pages == orig.total_pages,
                self.total_pokes == orig.total_pokes,
                self.pokes_per_page == orig.pokes_per_page,
                self.trainer_pokes == orig.trainer_pokes,
                self.trainer_species == orig.trainer_species,
                page_after_events(orig.current_page, orig.total_pages, all) == page_after_events(
                    self.current_page,
                    orig.total_pages,
                    all.skip(i as int),
                ),
            decreases all.len() - i,
        {
            proof {
                assert(all.skip(i as int).first() == all[i as int]);
                assert(all.skip(i as int).drop_first() =~= all.skip(i as int + 1));
            }
            let (from_requester, ev) = events[i];
            self.handle_navigation(from_requester, ev);
            i = i + 1;
        }
        proof {
            assert(all.skip(all.len() as int).len() == 0);
        }
    }

    /// Apply one interaction to the session: the page moves as `page_after`
    /// says and nothing else changes. Stepping "next" on the last page and
    /// stepping "previous" on page one are no-ops.
    pub fn handle_navigation(&mut self, from_requester: bool, ev: NavigationEvent)
        requires
            old(self).wf(),
        ensures
            final(self).wf(),
            final(self).current_page == page_after(
                old(self).current_page,
                old(self).total_pages,
                from_requester,
                ev,
            ),
            final(self).total_pokes == old(self).total_pokes,
            final(self).total_pages == old(self).total_pages,
            final(self).pokes_per_page == old(self).pokes_per_page,
            final(self).trainer_pokes == old(self).trainer_pokes,
            final(self).trainer_species == old(self).trainer_species,
    {
        if !from_requester {
            return ;
        }
        match ev {
            NavigationEvent::Previous => {
                if self.current_page > 1 {
                    self.current_page = self.current_page - 1;
                }
            },
            NavigationEvent::Next => {
                if self.current_page < self.total_pages {
                    self.current_page = self.current_page + 1;
                }
            },
            NavigationEvent::Other => {},
        }
    }
}

} // verus!
