//! A small map from text keys to values.
use vstd::prelude::*;
use crate::text;

verus! {

/// A table of values by text key; each key occurs at most once.
#[derive(Debug, Clone)]
pub struct KeyTable<V> {
    pub entries: Vec<(String, V)>,
}

impl<V> KeyTable<V> {
    /// No key occurs twice.
    pub open spec fn wf(&self) -> bool {
        forall|i: int, j: int|
            0 <= i < j < self.entries@.len() ==> #[trigger] self.entries@[i].0@ != #[trigger] self.entries@[j].0@
    }

    pub open spec fn view(&self) -> Map<Seq<char>, V> {
        Map::new(
            |k: Seq<char>| exists|i: int| 0 <= i < self.entries@.len() && self.entries@[i].0@ == k,
            |k: Seq<char>| self.entries@[choose|i: int| 0 <= i < self.entries@.len() && self.entries@[i].0@ == k].1,
        )
    }

    /// An empty table.
    pub fn new() -> (r: KeyTable<V>)
        ensures
            r.wf(),
            r.view() == Map::<Seq<char>, V>::empty(),
    {
        let r = KeyTable { entries: Vec::new() };
        assert(r.view() =~= Map::<Seq<char>, V>::empty());
        r
    }

    fn index_of(&self, key: &str) -> (r: Option<usize>)
        requires
            self.wf(),
        ensures
            match r {
                Some(i) => i < self.entries@.len() && self.entries@[i as int].0@ == key@,
                None => forall|i: int| 0 <= i < self.entries@.len() ==> self.entries@[i].0@ != key@,
            },
    {
        let mut i: usize = 0;
        while i < self.entries.len()
            invariant
                i <= self.entries.len(),
                forall|j: int| 0 <= j < i ==> self.entries@[j].0@ != key@,
            decreases self.entries.len() - i,
        {
            if text::str_eq(self.entries[i].0.as_str(), key) {
                return Some(i);
            }
            i += 1;
        }
        None
    }

    /// The value stored under `key`.
    pub fn get(&self, key: &str) -> (r: Option<&V>)
        requires
            self.wf(),
        ensures
            r matches Some(v) ==> self.view().dom().contains(key@) && *v == self.view()[key@],
            r is None ==> !self.view().dom().contains(key@),
    {
        match self.index_of(key) {
            Some(i) => {
                let ghost k = key@;
                assert(self.view().dom().contains(k));
                let ghost c = choose|j: int| 0 <= j < self.entries@.len() && self.entries@[j].0@ == k;
                assert(c == i) by {
                    if c != i {
                        if c < i {
                            assert(self.entries@[c].0@ != self.entries@[i as int].0@);
                        } else {
                            assert(self.entries@[i as int].0@ != self.entries@[c].0@);
                        }
                    }
                }
                Some(&self.entries[i].1)
            },
            None => {
                assert(!self.view().dom().contains(key@));
                None
            },
        }
    }

    /// Stores `until` under `key`, replacing what was there.
    pub fn insert(&mut self, key: String, until: V)
        requires
            old(self).wf(),
        ensures
            final(self).wf(),
            final(self).view() == old(self).view().insert(key@, until),
    {
        match self.index_of(key.as_str()) {
            Some(i) => {
                let ghost old_entries = self.entries@;
                self.entries.set(i, (key, until));
                assert forall|a: int, b: int| 0 <= a < b < self.entries@.len() implies
                    #[trigger] self.entries@[a].0@ != #[trigger] self.entries@[b].0@ by {
                    assert(old_entries[a].0@ != old_entries[b].0@);
                }
                assert(self.view() =~= old(self).view().insert(key@, until)) by {
                    assert forall|k: Seq<char>| #[trigger] self.view().dom().contains(k)
                        == old(self).view().insert(key@, until).dom().contains(k) by {
                        if k == key@ {
                            assert(self.entries@[i as int].0@ == k);
                        }
                        if old(self).view().dom().contains(k) {
                            let w = choose|j: int| 0 <= j < old_entries.len() && old_entries[j].0@ == k;
                            if w != i {
                                assert(self.entries@[w].0@ == k);
                            }
                        }
                        if self.view().dom().contains(k) && k != key@ {
                            let w = choose|j: int| 0 <= j < self.entries@.len() && self.entries@[j].0@ == k;
                            assert(old_entries[w].0@ == k);
                        }
                    }
                    assert forall|k: Seq<char>| #[trigger] self.view().dom().contains(k) implies
                        self.view()[k] == old(self).view().insert(key@, until)[k] by {
                        let w = choose|j: int| 0 <= j < self.entries@.len() && self.entries@[j].0@ == k;
                        if k == key@ {
                            assert(w == i) by {
                                if w < i {
                                    assert(self.entries@[w].0@ != self.entries@[i as int].0@);
                                } else if w > i {
                                    assert(self.entries@[i as int].0@ != self.entries@[w].0@);
                                }
                            }
                        } else {
                            assert(old_entries[w].0@ == k);
                            let w2 = choose|j: int| 0 <= j < old_entries.len() && old_entries[j].0@ == k;
                            assert(w2 == w) by {
                                if w2 < w {
                                    assert(old_entries[w2].0@ != old_entries[w].0@);
                                } else if w2 > w {
                                    assert(old_entries[w].0@ != old_entries[w2].0@);
                                }
                            }
                        }
                    }
                }
            },
            None => {
                let ghost old_entries = self.entries@;
                let ghost kv = key@;
                self.entries.push((key, until));
                assert forall|a: int, b: int| 0 <= a < b < self.entries@.len() implies
                    #[trigger] self.entries@[a].0@ != #[trigger] self.entries@[b].0@ by {
                    if b < old_entries.len() {
                        assert(old_entries[a].0@ != old_entries[b].0@);
                    }
                }
                assert(self.view() =~= old(self).view().insert(kv, until)) by {
                    let n = old_entries.len() as int;
                    assert forall|k: Seq<char>| #[trigger] self.view().dom().contains(k)
                        == old(self).view().insert(kv, until).dom().contains(k) by {
                        if k == kv {
                            assert(self.entries@[n].0@ == k);
                        }
                        if old(self).view().dom().contains(k) {
                            let w = choose|j: int| 0 <= j < old_entries.len() && old_entries[j].0@ == k;
                            assert(self.entries@[w].0@ == k);
                        }
                        if self.view().dom().contains(k) && k != kv {
                            let w = choose|j: int| 0 <= j < self.entries@.len() && self.entries@[j].0@ == k;
                            assert(w != n);
                            assert(old_entries[w].0@ == k);
                        }
                    }
                    assert forall|k: Seq<char>| #[trigger] self.view().dom().contains(k) implies
                        self.view()[k] == old(self).view().insert(kv, until)[k] by {
                        let w = choose|j: int| 0 <= j < self.entries@.len() && self.entries@[j].0@ == k;
                        if k == kv {
                            assert(w == n) by {
                                if w < n {
                                    assert(old_entries[w].0@ != kv);
                                }
                            }
                        } else {
                            assert(w != n);
                            assert(old_entries[w].0@ == k);
                            let w2 = choose|j: int| 0 <= j < old_entries.len() && old_entries[j].0@ == k;
                            assert(w2 == w) by {
                                if w2 < w {
                                    assert(old_entries[w2].0@ != old_entries[w].0@);
                                } else if w2 > w {
                                    assert(old_entries[w].0@ != old_entries[w2].0@);
                                }
                            }
                        }
                    }
                }
            },
        }
    }
}

} // verus!
