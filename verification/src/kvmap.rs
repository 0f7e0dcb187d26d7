//! A small string-to-string association map used by the domain contexts.
//!
//! Keys are unique; insertion replaces. Lookup finds the unique entry with
//! the given key.

use vstd::prelude::*;

verus! {

use crate::strings::str_eq;
use crate::url_table::lemma_lookup_absent;
use crate::url_table::lemma_lookup_insert_fresh;
use crate::url_table::lemma_lookup_present;
use crate::url_table::lemma_lookup_update;
use crate::url_table::spec_lookup;

/// A string-keyed map with unique keys.
pub struct KvMap {
    /// The entries; keys are pairwise distinct.
    pub entries: Vec<(String, String)>,
}

impl KvMap {
    /// Keys are pairwise distinct.
    pub open spec fn wf(&self) -> bool {
        forall|i: int, j: int|
            0 <= i < j < self.entries@.len() ==> (#[trigger] self.entries@[i]).0@ != (
            #[trigger] self.entries@[j]).0@
    }

    /// What the map binds the given key to.
    pub open spec fn spec_get(&self, key: Seq<char>) -> Option<String> {
        spec_lookup(self.entries@, key)
    }

    /// Create an empty map.
    pub fn new() -> (r: Self)
        ensures
            r.wf(),
            forall|k: Seq<char>| #[trigger] r.spec_get(k) is None,
    {
        KvMap { entries: Vec::new() }
    }

    /// Look up a key.
    pub fn get(&self, key: &str) -> (r: Option<&String>)
        ensures
            match r {
                Some(v) => self.spec_get(key@) == Some(*v),
                None => self.spec_get(key@) is None,
            },
    {
        let mut i: usize = 0;
        proof {
            assert(self.entries@.skip(0) =~= self.entries@);
        }
        while i < self.entries.len()
            invariant
                i <= self.entries@.len(),
                self.spec_get(key@) == spec_lookup(self.entries@.skip(i as int), key@),
            decreases self.entries@.len() - i,
        {
            proof {
                assert(self.entries@.skip(i as int)[0] == self.entries@[i as int]);
                assert(self.entries@.skip(i as int).skip(1) =~= self.entries@.skip(i + 1));
            }
            if str_eq(self.entries[i].0.as_str(), key) {
                return Some(&self.entries[i].1);
            }
            i += 1;
        }
        proof {
            assert(self.entries@.skip(i as int) =~= Seq::<(String, String)>::empty());
        }
        None
    }

    /// Bind a key to a value, replacing any existing binding.
    pub fn insert(&mut self, key: String, value: String)
        requires
            old(self).wf(),
        ensures
            final(self).wf(),
            forall|k: Seq<char>|
                #[trigger] final(self).spec_get(k) == if k == key@ {
                    Some(value)
                } else {
                    old(self).spec_get(k)
                },
    {
        let n = self.entries.len();
        let mut p: usize = 0;
        while p < n
            invariant
                self == old(self),
                n == self.entries@.len(),
                p <= n,
                self.wf(),
                forall|j: int| 0 <= j < p ==> (#[trigger] self.entries@[j]).0@ != key@,
            decreases n - p,
        {
            if str_eq(self.entries[p].0.as_str(), key.as_str()) {
                let ghost old_entries = self.entries@;
                proof {
                    assert forall|i: int|
                        0 <= i < old_entries.len() && i != p implies (#[trigger] old_entries[i]).0@
                        != old_entries[p as int].0@ by {
                        if i < p {
                        } else {
                            assert(old_entries[p as int].0@ != old_entries[i].0@);
                        }
                    }
                    lemma_lookup_present(old_entries, p as int);
                }
                self.entries.set(p, (key, value));
                proof {
                    assert forall|k: Seq<char>|
                        #[trigger] spec_lookup(self.entries@, k) == if k == old_entries[
                            p as int
                        ].0@ {
                            Some(self.entries@[p as int].1)
                        } else {
                            spec_lookup(old_entries, k)
                        } by {
                        lemma_lookup_update(old_entries, p as int, self.entries@[p as int], k);
                    }
                    assert forall|i: int, j: int|
                        0 <= i < j < self.entries@.len() implies (#[trigger] self.entries@[i]).0@
                        != (#[trigger] self.entries@[j]).0@ by {
                        assert(self.entries@[i].0@ == old_entries[i].0@);
                        assert(self.entries@[j].0@ == old_entries[j].0@);
                    }
                }
                return ;
            }
            p += 1;
        }
        let ghost old_entries = self.entries@;
        proof {
            lemma_lookup_absent(old_entries, key@);
        }
        self.entries.push((key, value));
        proof {
            assert(self.entries@ =~= old_entries.insert(old_entries.len() as int, self.entries@.last()));
            assert forall|k: Seq<char>|
                #[trigger] spec_lookup(self.entries@, k) == if k == self.entries@.last().0@ {
                    Some(self.entries@.last().1)
                } else {
                    spec_lookup(old_entries, k)
                } by {
                lemma_lookup_insert_fresh(
                    old_entries,
                    old_entries.len() as int,
                    self.entries@.last(),
                    k,
                );
            }
            assert forall|i: int, j: int|
                0 <= i < j < self.entries@.len() implies (#[trigger] self.entries@[i]).0@ != (
                #[trigger] self.entries@[j]).0@ by {
                if j < self.entries@.len() - 1 {
                    assert(self.entries@[i].0@ == old_entries[i].0@);
                    assert(self.entries@[j].0@ == old_entries[j].0@);
                } else {
                    assert(self.entries@[i].0@ == old_entries[i].0@);
                    assert(self.entries@[j].0@ == key@);
                }
            }
        }
    }
}

} // verus!
