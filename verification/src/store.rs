//! An in-memory model of the durable key-value store the dispatchers rely
//! on: string keys, integer-id values, absence a valid outcome. The real
//! store lives outside the process and round-trips the ids as decimal
//! strings; this model is what the dispatchers are verified against and what
//! the tests exercise.

use vstd::prelude::*;

verus! {

/// The map a list of writes denotes: a later write to a key overrides an
/// earlier one.
pub open spec fn entries_map(s: Seq<(String, u64)>) -> Map<Seq<char>, u64>
    decreases s.len(),
{
    if s.len() == 0 {
        Map::empty()
    } else {
        entries_map(s.drop_last()).insert(s.last().0@, s.last().1)
    }
}

/// The in-memory key-value store: a write log, viewed as the map of the
/// most recent write per key.
pub struct MemStore {
    entries: Vec<(String, u64)>,
}

impl View for MemStore {
    type V = Map<Seq<char>, u64>;

    closed spec fn view(&self) -> Map<Seq<char>, u64> {
        entries_map(self.entries@)
    }
}

impl MemStore {
    /// An empty store: no key maps to anything.
    pub fn new() -> (s: Self)
        ensures
            s@ == Map::<Seq<char>, u64>::empty(),
    {
        MemStore { entries: Vec::new() }
    }

    /// Writes `value` under `key`, overriding any earlier write.
    pub fn set(&mut self, key: String, value: u64)
        ensures
            final(self)@ == old(self)@.insert(key@, value),
    {
        self.entries.push((key, value));
        proof {
            assert(self.entries@.drop_last() =~= old(self).entries@);
        }
    }

    /// Reads the most recent write under `key`; `None` means the key was
    /// never written, an expected outcome, not an error.
    pub fn get(&self, key: &String) -> (r: Option<u64>)
        ensures
            r == if self@.contains_key(key@) {
                Some(self@[key@])
            } else {
                None::<u64>
            },
    {
        let mut found: Option<u64> = None;
        let n = self.entries.len();
        let mut i: usize = 0;
        while i < n
            invariant
                0 <= i <= n,
                n == self.entries@.len(),
                found == if entries_map(self.entries@.subrange(0, i as int)).contains_key(key@) {
                    Some(entries_map(self.entries@.subrange(0, i as int))[key@])
                } else {
                    None::<u64>
                },
            decreases n - i,
        {
            proof {
                assert(self.entries@.subrange(0, i + 1).drop_last() =~= self.entries@.subrange(
                    0,
                    i as int,
                ));
            }
            if self.entries[i].0 == *key {
                found = Some(self.entries[i].1);
            }
            i += 1;
        }
        proof {
            assert(self.entries@.subrange(0, n as int) =~= self.entries@);
        }
        found
    }
}

} // verus!
