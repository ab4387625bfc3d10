//! The store that maps each identity to its latest accepted score.

use vstd::prelude::*;

use crate::address::Address;
use crate::score::PlayerScore;

verus! {

/// A partial map from identity to score record, with overwrite on upsert.
///
/// The records are held in a vector with one record per identity; the ghost
/// map is the abstract content.
pub struct Leaderboard {
    entries: Vec<PlayerScore>,
    contents: Ghost<Map<Address, PlayerScore>>,
}

impl View for Leaderboard {
    type V = Map<Address, PlayerScore>;

    closed spec fn view(&self) -> Map<Address, PlayerScore> {
        self.contents@
    }
}

impl Leaderboard {
    /// Well-formedness: the vector holds each identity once, and holds exactly
    /// the map.
    pub closed spec fn wf(&self) -> bool {
        &&& forall|i: int, j: int|
            0 <= i < j < self.entries@.len() ==> self.entries@[i].wallet_address
                != self.entries@[j].wallet_address
        &&& forall|i: int|
            0 <= i < self.entries@.len() ==> self.contents@.contains_key(
                #[trigger] self.entries@[i].wallet_address,
            ) && self.contents@[self.entries@[i].wallet_address] == self.entries@[i]
        &&& forall|a: Address|
            #[trigger] self.contents@.contains_key(a) ==> exists|i: int|
                0 <= i < self.entries@.len() && self.entries@[i].wallet_address == a
    }

    /// An empty store.
    pub fn new() -> (r: Leaderboard)
        ensures
            r.wf(),
            r@ == Map::<Address, PlayerScore>::empty(),
    {
        Leaderboard { entries: Vec::new(), contents: Ghost(Map::empty()) }
    }

    /// The position of the record of `a` in the vector, if any.
    fn find(&self, a: &Address) -> (r: Option<usize>)
        requires
            self.wf(),
        ensures
            match r {
                Some(i) => i < self.entries@.len() && self.entries@[i as int].wallet_address
                    == *a && self@.contains_key(*a),
                None => !self@.contains_key(*a),
            },
    {
        let mut i: usize = 0;
        while i < self.entries.len()
            invariant
                0 <= i <= self.entries@.len(),
                self.wf(),
                forall|j: int| 0 <= j < i ==> self.entries@[j].wallet_address != *a,
            decreases self.entries@.len() - i,
        {
            if self.entries[i].wallet_address.same_as(a) {
                return Some(i);
            }
            i = i + 1;
        }
        None
    }

    /// The record of `a`, or `None` when `a` has none.
    pub fn get(&self, a: &Address) -> (r: Option<PlayerScore>)
        requires
            self.wf(),
        ensures
            r == (if self@.contains_key(*a) {
                Some(self@[*a])
            } else {
                None
            }),
    {
        match self.find(a) {
            Some(i) => Some(self.entries[i].duplicate()),
            None => None,
        }
    }

    /// Whether `a` has a record.
    pub fn contains(&self, a: &Address) -> (r: bool)
        requires
            self.wf(),
        ensures
            r == self@.contains_key(*a),
    {
        self.find(a).is_some()
    }

    /// Stores `record` under its identity, replacing whatever was there.
    pub fn upsert(&mut self, record: PlayerScore)
        requires
            old(self).wf(),
        ensures
            final(self).wf(),
            final(self)@ == old(self)@.insert(record.wallet_address, record),
    {
        let a = record.wallet_address;
        let found = self.find(&a);
        let ghost old_entries = self.entries@;
        let ghost new_contents = self.contents@.insert(a, record);
        match found {
            Some(i) => {
                self.entries.set(i, record);
                assert forall|k: Address| #[trigger] new_contents.contains_key(k) implies exists|
                    j: int,
                |
                    0 <= j < self.entries@.len() && self.entries@[j].wallet_address == k by {
                    if k != a {
                        let j = choose|j: int|
                            0 <= j < old_entries.len() && old_entries[j].wallet_address == k;
                        assert(self.entries@[j].wallet_address == k);
                    } else {
                        assert(self.entries@[i as int].wallet_address == k);
                    }
                }
            },
            None => {
                self.entries.push(record);
                let ghost n = old_entries.len() as int;
                assert forall|k: Address| #[trigger] new_contents.contains_key(k) implies exists|
                    j: int,
                |
                    0 <= j < self.entries@.len() && self.entries@[j].wallet_address == k by {
                    if k != a {
                        let j = choose|j: int|
                            0 <= j < old_entries.len() && old_entries[j].wallet_address == k;
                        assert(self.entries@[j].wallet_address == k);
                    } else {
                        assert(self.entries@[n].wallet_address == k);
                    }
                }
            },
        }
        self.contents = Ghost(new_contents);
    }
}

} // verus!
