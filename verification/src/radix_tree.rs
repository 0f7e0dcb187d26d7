//! A prefix store: a string-keyed map supporting exact lookup,
//! longest-prefix lookup and all-prefixes enumeration.

use vstd::prelude::*;

verus! {

use crate::strings::str_eq;
use crate::strings::str_starts_with;
use crate::url_table::lemma_lookup_absent;
use crate::url_table::lemma_lookup_insert_fresh;
use crate::url_table::lemma_lookup_present;
use crate::url_table::lemma_lookup_update;
use crate::url_table::spec_lookup;
use vstd::string::StrSliceExecFns;

/// A string-keyed store with unique keys and prefix lookups.
pub struct RadixTree<V> {
    /// The entries; keys are pairwise distinct.
    pub entries: Vec<(String, V)>,
}

impl<V> RadixTree<V> {
    /// Keys are pairwise distinct.
    pub open spec fn wf(&self) -> bool {
        forall|i: int, j: int|
            0 <= i < j < self.entries@.len() ==> (#[trigger] self.entries@[i]).0@ != (
            #[trigger] self.entries@[j]).0@
    }

    /// What the store binds the given key to.
    pub open spec fn spec_get(&self, key: Seq<char>) -> Option<V> {
        spec_lookup(self.entries@, key)
    }

    /// Create an empty store.
    pub fn new() -> (r: Self)
        ensures
            r.wf(),
            forall|k: Seq<char>| #[trigger] r.spec_get(k) is None,
            r.entries@.len() == 0,
    {
        RadixTree { entries: Vec::new() }
    }

    /// Insert a key-value pair. If the key already exists, the value is
    /// replaced and the old value returned.
    pub fn insert(&mut self, key: &str, value: V) -> (r: Option<V>)
        requires
            old(self).wf(),
        ensures
            final(self).wf(),
            forall|k: Seq<char>|
                #[trigger] final(self).spec_get(k) == if k == key@ {
                    Some(value)
                } else {
                    old(self).spec_get(k)
                },
            r == old(self).spec_get(key@),
    {
        let n = self.entries.len();
        let mut p: usize = 0;
        while p < n
            invariant
                self == old(self),
                n == self.entries@.len(),
                p <= n,
                self.wf(),
                forall|j: int| 0 <= j < p ==> (#[trigger] self.entries@[j]).0@ != key@,
            decreases n - p,
        {
            if str_eq(self.entries[p].0.as_str(), key) {
                let ghost old_entries = self.entries@;
                proof {
                    assert forall|i: int|
                        0 <= i < old_entries.len() && i != p implies (#[trigger] old_entries[i]).0@
                        != old_entries[p as int].0@ by {
                        if i < p {
                        } else {
                            assert(old_entries[p as int].0@ != old_entries[i].0@);
                        }
                    }
                    lemma_lookup_present(old_entries, p as int);
                    crate::url_table::lemma_lookup_first(old_entries, p as int);
                }
                let slot = self.entries.remove(p);
                self.entries.insert(p, (key.to_owned(), value));
                proof {
                    assert(self.entries@ =~= old_entries.update(p as int, self.entries@[p as int]));
                    assert forall|k: Seq<char>|
                        #[trigger] spec_lookup(self.entries@, k) == if k == old_entries[
                            p as int
                        ].0@ {
                            Some(self.entries@[p as int].1)
                        } else {
                            spec_lookup(old_entries, k)
                        } by {
                        lemma_lookup_update(old_entries, p as int, self.entries@[p as int], k);
                    }
                    assert forall|i: int, j: int|
                        0 <= i < j < self.entries@.len() implies (#[trigger] self.entries@[i]).0@
                        != (#[trigger] self.entries@[j]).0@ by {
                        assert(self.entries@[i].0@ == old_entries[i].0@);
                        assert(self.entries@[j].0@ == old_entries[j].0@);
                    }
                    assert(spec_lookup(old_entries, key@) == Some(slot.1));
                }
                return Some(slot.1);
            }
            p += 1;
        }
        let ghost old_entries = self.entries@;
        proof {
            lemma_lookup_absent(old_entries, key@);
        }
        self.entries.push((key.to_owned(), value));
        proof {
            assert(self.entries@ =~= old_entries.insert(
                old_entries.len() as int,
                self.entries@.last(),
            ));
            assert forall|k: Seq<char>|
                #[trigger] spec_lookup(self.entries@, k) == if k == self.entries@.last().0@ {
                    Some(self.entries@.last().1)
                } else {
                    spec_lookup(old_entries, k)
                } by {
                lemma_lookup_insert_fresh(
                    old_entries,
                    old_entries.len() as int,
                    self.entries@.last(),
                    k,
                );
            }
            assert forall|i: int, j: int|
                0 <= i < j < self.entries@.len() implies (#[trigger] self.entries@[i]).0@ != (
                #[trigger] self.entries@[j]).0@ by {
                if j < self.entries@.len() - 1 {
                    assert(self.entries@[i].0@ == old_entries[i].0@);
                    assert(self.entries@[j].0@ == old_entries[j].0@);
                } else {
                    assert(self.entries@[i].0@ == old_entries[i].0@);
                    assert(self.entries@[j].0@ == key@);
                }
            }
        }
        None
    }

    /// Find the value for an exact key match.
    pub fn get(&self, key: &str) -> (r: Option<&V>)
        ensures
            match r {
                Some(v) => self.spec_get(key@) == Some(*v),
                None => self.spec_get(key@) is None,
            },
    {
        let mut i: usize = 0;
        proof {
            assert(self.entries@.skip(0) =~= self.entries@);
        }
        while i < self.entries.len()
            invariant
                i <= self.entries@.len(),
                self.spec_get(key@) == spec_lookup(self.entries@.skip(i as int), key@),
            decreases self.entries@.len() - i,
        {
            proof {
                assert(self.entries@.skip(i as int)[0] == self.entries@[i as int]);
                assert(self.entries@.skip(i as int).skip(1) =~= self.entries@.skip(i + 1));
            }
            if str_eq(self.entries[i].0.as_str(), key) {
                return Some(&self.entries[i].1);
            }
            i += 1;
        }
        proof {
            assert(self.entries@.skip(i as int) =~= Seq::<(String, V)>::empty());
        }
        None
    }

    /// Find the value whose key is the longest stored prefix of the input.
    pub fn find_longest_prefix(&self, key: &str) -> (r: Option<&V>)
        ensures
            match r {
                Some(v) => exists|i: int|
                    0 <= i < self.entries@.len() && (#[trigger] self.entries@[i]).0@.is_prefix_of(
                        key@,
                    ) && *v == self.entries@[i].1 && (forall|j: int|
                        0 <= j < self.entries@.len() && (#[trigger] self.entries@[j]).0@.is_prefix_of(
                            key@,
                        ) ==> self.entries@[j].0@.len() <= self.entries@[i].0@.len()),
                None => forall|j: int|
                    0 <= j < self.entries@.len() ==> !(#[trigger] self.entries@[j]).0@.is_prefix_of(
                        key@,
                    ),
            },
    {
        let n = self.entries.len();
        let mut best: usize = 0;
        let mut found = false;
        let mut i: usize = 0;
        while i < n
            invariant
                n == self.entries@.len(),
                i <= n,
                found ==> best < i && self.entries@[best as int].0@.is_prefix_of(key@) && (forall|
                    j: int,
                |
                    0 <= j < i && (#[trigger] self.entries@[j]).0@.is_prefix_of(key@)
                        ==> self.entries@[j].0@.len() <= self.entries@[best as int].0@.len()),
                !found ==> forall|j: int|
                    0 <= j < i ==> !(#[trigger] self.entries@[j]).0@.is_prefix_of(key@),
            decreases n - i,
        {
            if str_starts_with(key, self.entries[i].0.as_str(), false) {
                if !found {
                    best = i;
                    found = true;
                } else {
                    let bl = self.entries[best].0.unicode_len();
                    let cl = self.entries[i].0.unicode_len();
                    if cl > bl {
                        best = i;
                    }
                }
            }
            i += 1;
        }
        if found {
            Some(&self.entries[best].1)
        } else {
            None
        }
    }

    /// The value is bound to some prefix of the key.
    pub open spec fn prefix_binding(&self, key: Seq<char>, v: V) -> bool {
        exists|l2: int|
            0 <= l2 <= key.len() && #[trigger] self.spec_get(key.take(l2)) == Some(v)
    }

    /// Find the values of every stored key that is a prefix of the input,
    /// shortest first and longest last: each returned value is the binding
    /// of some prefix of the input.
    pub fn find_all_prefixes(&self, key: &str) -> (r: Vec<&V>)
        ensures
            forall|m: int| 0 <= m < r@.len() ==> self.prefix_binding(key@, *(#[trigger] r@[m])),
    {
        let n = key.unicode_len();
        let mut out: Vec<&V> = Vec::new();
        let mut l: usize = 0;
        loop
            invariant
                n == key@.len(),
                l <= n,
                forall|m: int|
                    0 <= m < out@.len() ==> self.prefix_binding(key@, *(#[trigger] out@[m])),
            decreases n - l,
        {
            let prefix = key.substring_char(0, l);
            match self.get(prefix) {
                Some(v) => {
                    let ghost old_out = out@;
                    out.push(v);
                    proof {
                        assert(prefix@ =~= key@.take(l as int));
                        assert(out@[out@.len() - 1] == v);
                        assert forall|m: int|
                            0 <= m < out@.len() implies self.prefix_binding(
                            key@,
                            *(#[trigger] out@[m]),
                        ) by {
                            if m < out@.len() - 1 {
                                assert(out@[m] == old_out[m]);
                            } else {
                                assert(self.spec_get(key@.take(l as int)) == Some(*out@[m]));
                            }
                        }
                    }
                },
                None => {},
            }
            if l == n {
                break ;
            }
            l += 1;
        }
        out
    }
}

/// A bound key is held by some entry.
proof fn lemma_lookup_index<V>(entries: Seq<(String, V)>, key: Seq<char>)
    requires
        spec_lookup(entries, key) is Some,
    ensures
        exists|i: int|
            0 <= i < entries.len() && (#[trigger] entries[i]).0@ == key && entries[i].1
                == spec_lookup(entries, key)->Some_0,
    decreases entries,
{
    if entries.len() > 0 {
        if entries[0].0@ == key {
            assert(0 <= 0 < entries.len() && entries[0].0@ == key);
        } else {
            lemma_lookup_index(entries.skip(1), key);
            let i = choose|i: int|
                0 <= i < entries.skip(1).len() && (#[trigger] entries.skip(1)[i]).0@ == key
                    && entries.skip(1)[i].1 == spec_lookup(entries.skip(1), key)->Some_0;
            assert(entries[i + 1] == entries.skip(1)[i]);
        }
    }
}

} // verus!
