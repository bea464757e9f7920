//! A map keyed by job root.
//!
//! Roots are compared as text. The map holds each root at most once; its view
//! is a mathematical map from the root's characters to the stored value.
//!
//! The entries are kept in a list that is searched from the front: the roots
//! of one application are few. A hash map of the standard library with
//! `String` keys cannot be reasoned about here, and the string-keyed map of
//! vstd neither hands back what it removes nor lends a value for change,
//! which the log of a root and the handle of a job need.

use vstd::prelude::*;
use crate::text::str_eq;

verus! {

/// Values stored per job root, each root at most once.
pub struct RootMap<V> {
    entries: Vec<(String, V)>,
}

impl<V> RootMap<V> {
    #[verifier::type_invariant]
    spec fn distinct_roots(self) -> bool {
        forall|i: int, j: int|
            0 <= i < j < self.entries@.len() ==> self.entries@[i].0@ != self.entries@[j].0@
    }

    spec fn holds_at(self, root: Seq<char>, i: int) -> bool {
        0 <= i < self.entries@.len() && self.entries@[i].0@ == root
    }

    spec fn position(self, root: Seq<char>) -> int {
        choose|i: int| self.holds_at(root, i)
    }

    /// The stored values by root.
    pub closed spec fn view(&self) -> Map<Seq<char>, V> {
        Map::new(
            |root: Seq<char>| exists|i: int| self.holds_at(root, i),
            |root: Seq<char>| self.entries@[self.position(root)].1,
        )
    }

    proof fn lemma_entry(self, i: int)
        requires
            self.distinct_roots(),
            0 <= i < self.entries@.len(),
        ensures
            self@.contains_key(self.entries@[i].0@),
            self@[self.entries@[i].0@] == self.entries@[i].1,
    {
        let root = self.entries@[i].0@;
        assert(self.holds_at(root, i));
        let p = self.position(root);
        assert(self.holds_at(root, p));
        assert(p == i);
    }

    proof fn lemma_absent(self, root: Seq<char>)
        requires
            forall|i: int| 0 <= i < self.entries@.len() ==> self.entries@[i].0@ != root,
        ensures
            !self@.contains_key(root),
    {
        assert forall|i: int| !self.holds_at(root, i) by {}
    }

    /// A map without entries.
    pub fn new() -> (map: Self)
        ensures
            map@ == Map::<Seq<char>, V>::empty(),
    {
        let map = RootMap { entries: Vec::new() };
        assert(map@ =~= Map::<Seq<char>, V>::empty());
        map
    }

    /// Whether no root is stored.
    pub fn is_empty(&self) -> (empty: bool)
        ensures
            empty == (self@ == Map::<Seq<char>, V>::empty()),
    {
        proof {
            use_type_invariant(self);
            if self.entries@.len() > 0 {
                self.lemma_entry(0);
            } else {
                assert(self@ =~= Map::<Seq<char>, V>::empty());
            }
        }
        self.entries.len() == 0
    }

    fn find(&self, root: &str) -> (found: Option<usize>)
        ensures
            match found {
                Some(i) => self.holds_at(root@, i as int),
                None => forall|i: int| 0 <= i < self.entries@.len() ==> self.entries@[i].0@ != root@,
            },
    {
        let mut i: usize = 0;
        while i < self.entries.len()
            invariant
                i <= self.entries.len(),
                forall|k: int| 0 <= k < i ==> self.entries@[k].0@ != root@,
            decreases self.entries.len() - i,
        {
            if str_eq(self.entries[i].0.as_str(), root) {
                return Some(i);
            }
            i += 1;
        }
        None
    }

    /// Whether `root` is stored.
    pub fn contains_key(&self, root: &str) -> (present: bool)
        ensures
            present == self@.contains_key(root@),
    {
        let found = self.find(root);
        proof {
            use_type_invariant(self);
            match found {
                Some(i) => {
                    self.lemma_entry(i as int);
                },
                None => {
                    self.lemma_absent(root@);
                },
            }
        }
        found.is_some()
    }

    /// The value stored for `root`, if any.
    pub fn get(&self, root: &str) -> (value: Option<&V>)
        ensures
            match value {
                Some(v) => self@.contains_key(root@) && *v == self@[root@],
                None => !self@.contains_key(root@),
            },
    {
        let found = self.find(root);
        proof {
            use_type_invariant(self);
        }
        match found {
            Some(i) => {
                proof {
                    self.lemma_entry(i as int);
                }
                Some(&self.entries[i].1)
            },
            None => {
                proof {
                    self.lemma_absent(root@);
                }
                None
            },
        }
    }

    /// Stores `value` for `root` and hands back the value it replaces, if any.
    pub fn insert(&mut self, root: String, value: V) -> (previous: Option<V>)
        ensures
            final(self)@ == old(self)@.insert(root@, value),
            match previous {
                Some(v) => old(self)@.contains_key(root@) && v == old(self)@[root@],
                None => !old(self)@.contains_key(root@),
            },
    {
        let found = self.find(root.as_str());
        proof {
            use_type_invariant(&*self);
        }
        let ghost before = *self;
        let ghost key = root@;
        let mut entries: Vec<(String, V)> = Vec::new();
        core::mem::swap(&mut self.entries, &mut entries);
        let previous = match found {
            Some(i) => {
                proof {
                    before.lemma_entry(i as int);
                }
                let entry = entries.remove(i);
                Some(entry.1)
            },
            None => {
                proof {
                    before.lemma_absent(root@);
                }
                None
            },
        };
        assert(forall|i: int| 0 <= i < entries@.len() ==> entries@[i].0@ != key);
        entries.push((root, value));
        self.entries = entries;
        proof {
            let after = *self;
            let last = after.entries@.len() - 1;
            assert(after.distinct_roots());
            assert forall|k: Seq<char>| #[trigger]
                after@.contains_key(k) == before@.insert(key, value).contains_key(k) by {
                if k == key {
                    after.lemma_entry(last);
                } else if before@.contains_key(k) {
                    let p = before.position(k);
                    assert(before.holds_at(k, p));
                    let q = if found is Some && p > found->0 {
                        p - 1
                    } else {
                        p
                    };
                    assert(after.holds_at(k, q));
                } else if after@.contains_key(k) {
                    let q = after.position(k);
                    assert(after.holds_at(k, q));
                    let p = if found is Some && q >= found->0 {
                        q + 1
                    } else {
                        q
                    };
                    assert(before.holds_at(k, p));
                }
            }
            assert forall|k: Seq<char>| #[trigger]
                after@.contains_key(k) implies after@[k] == before@.insert(key, value)[k] by {
                if k == key {
                    after.lemma_entry(last);
                } else {
                    let p = before.position(k);
                    assert(before.holds_at(k, p));
                    before.lemma_entry(p);
                    let q = if found is Some && p > found->0 {
                        p - 1
                    } else {
                        p
                    };
                    after.lemma_entry(q);
                }
            }
            assert(after@ =~= before@.insert(key, value));
        }
        previous
    }

    /// Takes `root` out of the map and hands back its value, if it was stored.
    pub fn remove(&mut self, root: &str) -> (removed: Option<V>)
        ensures
            final(self)@ == old(self)@.remove(root@),
            match removed {
                Some(v) => old(self)@.contains_key(root@) && v == old(self)@[root@],
                None => !old(self)@.contains_key(root@),
            },
    {
        let found = self.find(root);
        proof {
            use_type_invariant(&*self);
        }
        let ghost before = *self;
        let ghost key = root@;
        match found {
            Some(i) => {
                proof {
                    before.lemma_entry(i as int);
                }
                let mut entries: Vec<(String, V)> = Vec::new();
                core::mem::swap(&mut self.entries, &mut entries);
                let entry = entries.remove(i);
                self.entries = entries;
                proof {
                    let after = *self;
                    assert(after.distinct_roots());
                    assert forall|k: Seq<char>| #[trigger]
                        after@.contains_key(k) == before@.remove(key).contains_key(k) by {
                        if k == key {
                            after.lemma_absent(key);
                        } else if before@.contains_key(k) {
                            let p = before.position(k);
                            assert(before.holds_at(k, p));
                            let q = if p > i {
                                p - 1
                            } else {
                                p
                            };
                            assert(after.holds_at(k, q));
                        } else if after@.contains_key(k) {
                            let q = after.position(k);
                            assert(after.holds_at(k, q));
                            let p = if q >= i {
                                q + 1
                            } else {
                                q
                            };
                            assert(before.holds_at(k, p));
                        }
                    }
                    assert forall|k: Seq<char>| #[trigger]
                        after@.contains_key(k) implies after@[k] == before@.remove(key)[k] by {
                        let q = after.position(k);
                        assert(after.holds_at(k, q));
                        after.lemma_entry(q);
                        let p = if q >= i {
                            q + 1
                        } else {
                            q
                        };
                        before.lemma_entry(p);
                    }
                    assert(after@ =~= before@.remove(key));
                }
                Some(entry.1)
            },
            None => {
                proof {
                    before.lemma_absent(key);
                    assert(before@ =~= before@.remove(key));
                }
                None
            },
        }
    }
}

} // verus!
