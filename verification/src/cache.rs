//! An in-process key/value store with last-write-wins semantics, viewed as a
//! `Map` from key characters to values.
//!
//! The resolver treats its cache as a plain string-keyed map with `get` and
//! `set` and no invalidation policy. This store realizes that contract for
//! in-process use (session memoization, tests); a networked cache backend
//! sits behind the same contract at the process edge.

use vstd::prelude::*;

verus! {

/// A string-keyed map. Writes append; a read returns the value of the most
/// recent write of the key.
pub struct MemCache<T> {
    entries: Vec<(String, T)>,
}

/// The map described by a sequence of writes, applied in order.
spec fn entries_map<T>(s: Seq<(String, T)>) -> Map<Seq<char>, T>
    decreases s.len(),
{
    if s.len() == 0 {
        Map::empty()
    } else {
        entries_map(s.drop_last()).insert(s.last().0@, s.last().1)
    }
}

impl<T> View for MemCache<T> {
    type V = Map<Seq<char>, T>;

    closed spec fn view(&self) -> Map<Seq<char>, T> {
        entries_map(self.entries@)
    }
}

impl<T> MemCache<T> {
    /// An empty store.
    pub fn new() -> (r: Self)
        ensures
            r@ == Map::<Seq<char>, T>::empty(),
    {
        MemCache { entries: Vec::new() }
    }

    /// The value most recently written under `key`, if any.
    pub fn get(&self, key: &String) -> (r: Option<&T>)
        ensures
            match r {
                Some(v) => self@.contains_key(key@) && *v == self@[key@],
                None => !self@.contains_key(key@),
            },
    {
        let ghost s = self.entries@;
        proof {
            assert(s.take(s.len() as int) =~= s);
        }
        let mut i: usize = self.entries.len();
        while i > 0
            invariant
                i <= s.len(),
                s == self.entries@,
                self@.contains_key(key@) <==> entries_map(s.take(i as int)).contains_key(key@),
                self@.contains_key(key@) ==> self@[key@] == entries_map(s.take(i as int))[key@],
            decreases i,
        {
            i = i - 1;
            let ghost t = s.take(i as int + 1);
            proof {
                assert(t.drop_last() =~= s.take(i as int));
                assert(t.last() == s[i as int]);
            }
            if self.entries[i].0 == *key {
                proof {
                    assert(entries_map(t)[key@] == s[i as int].1);
                }
                return Some(&self.entries[i].1);
            }
        }
        proof {
            assert(s.take(0) =~= Seq::<(String, T)>::empty());
        }
        None
    }

    /// Write `value` under `key`, superseding any earlier write of the key.
    pub fn set(&mut self, key: String, value: T)
        ensures
            final(self)@ == old(self)@.insert(key@, value),
    {
        let ghost s = self.entries@;
        let ghost k = key@;
        self.entries.push((key, value));
        proof {
            assert(self.entries@.drop_last() =~= s);
        }
    }
}

} // verus!
