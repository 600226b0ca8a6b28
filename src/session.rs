//! Per-channel bookkeeping shared by the adapters: which channels have a live
//! session (and the handle that cancels it), and which identifiers have
//! already been resolved.

use vstd::prelude::*;
use crate::text::same_text;

verus! {

/// A table keyed by channel name, with at most one entry per key.
pub struct ChannelTable<V> {
    entries: Vec<(String, V)>,
    contents: Ghost<Map<Seq<char>, V>>,
}

impl<V> View for ChannelTable<V> {
    type V = Map<Seq<char>, V>;

    closed spec fn view(&self) -> Map<Seq<char>, V> {
        self.contents@
    }
}

impl<V> ChannelTable<V> {
    /// Entries have distinct keys and are exactly the contents.
    pub closed spec fn wf(&self) -> bool {
        &&& forall|i: int, j: int|
            0 <= i < self.entries@.len() && 0 <= j < self.entries@.len() && i != j
                ==> #[trigger] self.entries@[i].0@ != #[trigger] self.entries@[j].0@
        &&& forall|i: int|
            0 <= i < self.entries@.len() ==> self.contents@.contains_key(
                #[trigger] self.entries@[i].0@,
            ) && self.contents@[self.entries@[i].0@] == self.entries@[i].1
        &&& forall|k: Seq<char>|
            #[trigger] self.contents@.contains_key(k) ==> exists|i: int|
                0 <= i < self.entries@.len() && #[trigger] self.entries@[i].0@ == k
    }

    pub fn new() -> (r: ChannelTable<V>)
        ensures
            r.wf(),
            r@ == Map::<Seq<char>, V>::empty(),
    {
        ChannelTable { entries: Vec::new(), contents: Ghost(Map::empty()) }
    }

    fn index_of(&self, key: &str) -> (r: Option<usize>)
        requires
            self.wf(),
        ensures
            match r {
                Some(i) => i < self.entries@.len() && self.entries@[i as int].0@ == key@,
                None => !self@.contains_key(key@),
            },
    {
        let mut i: usize = 0;
        while i < self.entries.len()
            invariant
                self.wf(),
                i <= self.entries@.len(),
                forall|t: int| 0 <= t < i ==> #[trigger] self.entries@[t].0@ != key@,
            decreases self.entries@.len() - i,
        {
            if same_text(self.entries[i].0.as_str(), key) {
                return Some(i);
            }
            i = i + 1;
        }
        None
    }

    /// The value stored for `key`.
    pub fn get(&self, key: &str) -> (r: Option<&V>)
        requires
            self.wf(),
        ensures
            match r {
                Some(v) => self@.contains_key(key@) && self@[key@] == *v,
                None => !self@.contains_key(key@),
            },
    {
        match self.index_of(key) {
            Some(i) => Some(&self.entries[i].1),
            None => None,
        }
    }

    /// Removes the entry for `key` and hands back its value; with no entry,
    /// nothing changes.
    pub fn take(&mut self, key: &str) -> (r: Option<V>)
        requires
            old(self).wf(),
        ensures
            final(self).wf(),
            final(self)@ == old(self)@.remove(key@),
            match r {
                Some(v) => old(self)@.contains_key(key@) && old(self)@[key@] == v,
                None => !old(self)@.contains_key(key@) && final(self)@ == old(self)@,
            },
    {
        match self.index_of(key) {
            Some(i) => {
                let ghost before = self.entries@;
                let e = self.entries.remove(i);
                self.contents = Ghost(self.contents@.remove(key@));
                assert forall|t: int| 0 <= t < self.entries@.len() implies self.contents@.contains_key(
                    #[trigger] self.entries@[t].0@,
                ) && self.contents@[self.entries@[t].0@] == self.entries@[t].1 by {
                    if t < i {
                        assert(self.entries@[t] == before[t]);
                        assert(before[t].0@ != before[i as int].0@);
                    } else {
                        assert(self.entries@[t] == before[t + 1]);
                        assert(before[t + 1].0@ != before[i as int].0@);
                    }
                }
                assert forall|k: Seq<char>| #[trigger] self.contents@.contains_key(k) implies exists|
                    t: int,
                |
                    0 <= t < self.entries@.len() && #[trigger] self.entries@[t].0@ == k by {
                    let j = choose|j: int| 0 <= j < before.len() && #[trigger] before[j].0@ == k;
                    if j < i {
                        assert(self.entries@[j].0@ == k);
                    } else {
                        assert(j != i);
                        assert(self.entries@[j - 1].0@ == k);
                    }
                }
                assert forall|a: int, b: int|
                    0 <= a < self.entries@.len() && 0 <= b < self.entries@.len() && a != b
                        implies #[trigger] self.entries@[a].0@ != #[trigger] self.entries@[b].0@ by {
                    let a0 = if a < i {
                        a
                    } else {
                        a + 1
                    };
                    let b0 = if b < i {
                        b
                    } else {
                        b + 1
                    };
                    assert(self.entries@[a] == before[a0]);
                    assert(self.entries@[b] == before[b0]);
                    assert(before[a0].0@ != before[b0].0@);
                }
                Some(e.1)
            },
            None => {
                assert(self@.remove(key@) =~= self@);
                None
            },
        }
    }

    /// Stores `value` for `key`, handing back the value it replaces.
    pub fn put(&mut self, key: String, value: V) -> (r: Option<V>)
        requires
            old(self).wf(),
        ensures
            final(self).wf(),
            final(self)@ == old(self)@.insert(key@, value),
            match r {
                Some(v) => old(self)@.contains_key(key@) && old(self)@[key@] == v,
                None => !old(self)@.contains_key(key@),
            },
    {
        let ghost before = self@;
        let ghost k = key@;
        let r = self.take(key.as_str());
        let ghost mid = self.entries@;
        self.entries.push((key, value));
        self.contents = Ghost(self.contents@.insert(k, value));
        assert forall|t: int| 0 <= t < self.entries@.len() implies self.contents@.contains_key(
            #[trigger] self.entries@[t].0@,
        ) && self.contents@[self.entries@[t].0@] == self.entries@[t].1 by {
            if t < mid.len() {
                assert(self.entries@[t] == mid[t]);
            }
        }
        assert forall|k2: Seq<char>| #[trigger] self.contents@.contains_key(k2) implies exists|
            t: int,
        | 0 <= t < self.entries@.len() && #[trigger] self.entries@[t].0@ == k2 by {
            if k2 == k {
                assert(self.entries@[mid.len() as int].0@ == k2);
            } else {
                let j = choose|j: int| 0 <= j < mid.len() && #[trigger] mid[j].0@ == k2;
                assert(self.entries@[j] == mid[j]);
            }
        }
        assert forall|a: int, b: int|
            0 <= a < self.entries@.len() && 0 <= b < self.entries@.len() && a != b
                implies #[trigger] self.entries@[a].0@ != #[trigger] self.entries@[b].0@ by {
            if a < mid.len() && b < mid.len() {
                assert(self.entries@[a] == mid[a]);
                assert(self.entries@[b] == mid[b]);
            } else if a < mid.len() {
                assert(self.entries@[a] == mid[a]);
                assert(mid[a].0@ != k);
            } else {
                assert(self.entries@[b] == mid[b]);
                assert(mid[b].0@ != k);
            }
        }
        assert(self@ =~= before.insert(k, value));
        r
    }
}

}
