//! A sorted association table keyed by type URL.
//!
//! The registry's factory tables are kept sorted by URL and free of
//! duplicates, so the list of registered URLs is always available in sorted
//! order for self-correcting error messages. Lookup returns the value of
//! the unique entry with the given key.

use vstd::prelude::*;

verus! {

use crate::strings::lex_le;
use crate::strings::lemma_lex_le_total;
use crate::strings::str_eq;
use crate::strings::str_lex_le;

/// The value of the first entry with the given key, if any.
pub open spec fn spec_lookup<T>(entries: Seq<(String, T)>, key: Seq<char>) -> Option<T>
    decreases entries,
{
    if entries.len() == 0 {
        None
    } else if entries[0].0@ == key {
        Some(entries[0].1)
    } else {
        spec_lookup(entries.skip(1), key)
    }
}

/// The order is transitive.
pub proof fn lemma_lex_le_trans(a: Seq<char>, b: Seq<char>, c: Seq<char>)
    requires
        lex_le(a, b),
        lex_le(b, c),
    ensures
        lex_le(a, c),
    decreases a.len(),
{
    if a.len() > 0 && b.len() > 0 && c.len() > 0 {
        if (a[0] as u32) == (b[0] as u32) && (b[0] as u32) == (c[0] as u32) {
            lemma_lex_le_trans(a.skip(1), b.skip(1), c.skip(1));
        }
    }
}

/// The order is antisymmetric.
pub proof fn lemma_lex_le_antisym(a: Seq<char>, b: Seq<char>)
    requires
        lex_le(a, b),
        lex_le(b, a),
    ensures
        a == b,
    decreases a.len(),
{
    if a.len() > 0 && b.len() > 0 {
        assert((a[0] as u32) == (b[0] as u32));
        assert(a[0] == b[0]) by {
            vstd::utf8::char_u32_cast(a[0], a[0] as u32);
            vstd::utf8::char_u32_cast(b[0], b[0] as u32);
        }
        lemma_lex_le_antisym(a.skip(1), b.skip(1));
        assert(a =~= seq![a[0]] + a.skip(1));
        assert(b =~= seq![b[0]] + b.skip(1));
    } else {
        if a.len() == 0 {
            assert(b.len() == 0);
            assert(a =~= b);
        }
    }
}

/// A table is well formed when its URL list mirrors its entry keys, and the
/// keys are strictly sorted (hence unique).
pub open spec fn table_wf<T>(entries: Seq<(String, T)>, urls: Seq<String>) -> bool {
    &&& urls.len() == entries.len()
    &&& forall|i: int| 0 <= i < entries.len() ==> (#[trigger] urls[i])@ == entries[i].0@
    &&& forall|i: int|
        0 <= i < entries.len() - 1 ==> lex_le((#[trigger] entries[i]).0@, entries[i + 1].0@)
            && entries[i].0@ != entries[i + 1].0@
}

/// In a strictly sorted table the keys are pairwise ordered.
pub proof fn lemma_sorted_pairwise<T>(entries: Seq<(String, T)>, i: int, j: int)
    requires
        forall|k: int|
            0 <= k < entries.len() - 1 ==> lex_le((#[trigger] entries[k]).0@, entries[k + 1].0@)
                && entries[k].0@ != entries[k + 1].0@,
        0 <= i < j < entries.len(),
    ensures
        lex_le(entries[i].0@, entries[j].0@),
        entries[i].0@ != entries[j].0@,
    decreases j - i,
{
    if j == i + 1 {
    } else {
        lemma_sorted_pairwise(entries, i, j - 1);
        lemma_lex_le_trans(entries[i].0@, entries[j - 1].0@, entries[j].0@);
        if entries[i].0@ == entries[j].0@ {
            lemma_lex_le_antisym(entries[i].0@, entries[j - 1].0@);
        }
    }
}

/// Looking up a key that no entry holds yields nothing.
pub proof fn lemma_lookup_absent<T>(entries: Seq<(String, T)>, key: Seq<char>)
    requires
        forall|i: int| 0 <= i < entries.len() ==> (#[trigger] entries[i]).0@ != key,
    ensures
        spec_lookup(entries, key) is None,
    decreases entries,
{
    if entries.len() > 0 {
        assert(entries.skip(1).len() == entries.len() - 1);
        assert forall|i: int| 0 <= i < entries.skip(1).len() implies (#[trigger] entries.skip(1)[
            i
        ]).0@ != key by {
            assert(entries.skip(1)[i] == entries[i + 1]);
        }
        lemma_lookup_absent(entries.skip(1), key);
    }
}

/// A key held by some entry is bound by the table.
pub proof fn lemma_lookup_present<T>(entries: Seq<(String, T)>, p: int)
    requires
        0 <= p < entries.len(),
    ensures
        spec_lookup(entries, entries[p].0@) is Some,
    decreases p,
{
    if entries[0].0@ == entries[p].0@ {
    } else {
        assert(entries.skip(1)[p - 1] == entries[p]);
        lemma_lookup_present(entries.skip(1), p - 1);
    }
}

/// The first entry holding a key decides the lookup.
pub proof fn lemma_lookup_first<T>(entries: Seq<(String, T)>, p: int)
    requires
        0 <= p < entries.len(),
        forall|j: int| 0 <= j < p ==> (#[trigger] entries[j]).0@ != entries[p].0@,
    ensures
        spec_lookup(entries, entries[p].0@) == Some(entries[p].1),
    decreases p,
{
    if p > 0 {
        assert(entries.skip(1)[p - 1] == entries[p]);
        assert forall|j: int|
            0 <= j < p - 1 implies (#[trigger] entries.skip(1)[j]).0@ != entries.skip(1)[
            p - 1
        ].0@ by {
            assert(entries.skip(1)[j] == entries[j + 1]);
        }
        lemma_lookup_first(entries.skip(1), p - 1);
    }
}

/// Inserting an entry with a fresh key adds exactly that binding.
pub proof fn lemma_lookup_insert_fresh<T>(
    entries: Seq<(String, T)>,
    p: int,
    e: (String, T),
    key: Seq<char>,
)
    requires
        0 <= p <= entries.len(),
        forall|i: int| 0 <= i < entries.len() ==> (#[trigger] entries[i]).0@ != e.0@,
    ensures
        spec_lookup(entries.insert(p, e), key) == if key == e.0@ {
            Some(e.1)
        } else {
            spec_lookup(entries, key)
        },
    decreases p,
{
    let ins = entries.insert(p, e);
    if p == 0 {
        assert(ins[0] == e);
        assert(ins.skip(1) =~= entries);
    } else {
        assert(ins[0] == entries[0]);
        if entries[0].0@ == key {
        } else {
            assert(ins.skip(1) =~= entries.skip(1).insert(p - 1, e));
            assert forall|i: int|
                0 <= i < entries.skip(1).len() implies (#[trigger] entries.skip(1)[i]).0@
                != e.0@ by {
                assert(entries.skip(1)[i] == entries[i + 1]);
            }
            lemma_lookup_insert_fresh(entries.skip(1), p - 1, e, key);
        }
    }
}

/// Replacing the unique entry with a key rebinds exactly that key.
pub proof fn lemma_lookup_update<T>(
    entries: Seq<(String, T)>,
    p: int,
    e: (String, T),
    key: Seq<char>,
)
    requires
        0 <= p < entries.len(),
        e.0@ == entries[p].0@,
        forall|i: int|
            0 <= i < entries.len() && i != p ==> (#[trigger] entries[i]).0@ != entries[p].0@,
    ensures
        spec_lookup(entries.update(p, e), key) == if key == e.0@ {
            Some(e.1)
        } else {
            spec_lookup(entries, key)
        },
    decreases p,
{
    let upd = entries.update(p, e);
    if p == 0 {
        assert(upd[0] == e);
        assert(upd.skip(1) =~= entries.skip(1));
        if key == e.0@ {
        } else {
            assert(entries[0].0@ != key);
        }
    } else {
        assert(upd[0] == entries[0]);
        if entries[0].0@ == key {
            assert(key != e.0@);
        } else {
            assert(upd.skip(1) =~= entries.skip(1).update(p - 1, e));
            assert forall|i: int|
                0 <= i < entries.skip(1).len() && i != p - 1 implies (#[trigger] entries.skip(1)[
                i
            ]).0@ != entries.skip(1)[p - 1].0@ by {
                assert(entries.skip(1)[i] == entries[i + 1]);
                assert(entries.skip(1)[p - 1] == entries[p]);
            }
            assert(entries.skip(1)[p - 1] == entries[p]);
            lemma_lookup_update(entries.skip(1), p - 1, e, key);
        }
    }
}

/// A sorted association table keyed by type URL.
pub struct UrlTable<T> {
    /// The entries, sorted by URL.
    pub entries: Vec<(String, T)>,
    /// The URLs alone, mirroring `entries`.
    pub urls: Vec<String>,
}

impl<T> UrlTable<T> {
    /// The table invariant.
    pub open spec fn wf(&self) -> bool {
        table_wf(self.entries@, self.urls@)
    }

    /// What the table binds the given URL to.
    pub open spec fn spec_get(&self, key: Seq<char>) -> Option<T> {
        spec_lookup(self.entries@, key)
    }

    /// Create an empty table.
    pub fn new() -> (r: Self)
        ensures
            r.wf(),
            r.entries@.len() == 0,
            forall|k: Seq<char>| #[trigger] r.spec_get(k) is None,
    {
        UrlTable { entries: Vec::new(), urls: Vec::new() }
    }

    /// The number of entries.
    pub fn len(&self) -> (r: usize)
        ensures
            r == self.entries@.len(),
    {
        self.entries.len()
    }

    /// Look up a URL.
    pub fn get(&self, key: &str) -> (r: Option<&T>)
        ensures
            match r {
                Some(v) => self.spec_get(key@) == Some(*v),
                None => self.spec_get(key@) is None,
            },
    {
        let mut i: usize = 0;
        proof {
            assert(self.entries@.skip(0) =~= self.entries@);
        }
        while i < self.entries.len()
            invariant
                i <= self.entries@.len(),
                self.spec_get(key@) == spec_lookup(self.entries@.skip(i as int), key@),
            decreases self.entries@.len() - i,
        {
            proof {
                assert(self.entries@.skip(i as int)[0] == self.entries@[i as int]);
                assert(self.entries@.skip(i as int).skip(1) =~= self.entries@.skip(i + 1));
            }
            if str_eq(self.entries[i].0.as_str(), key) {
                return Some(&self.entries[i].1);
            }
            i += 1;
        }
        proof {
            assert(self.entries@.skip(i as int) =~= Seq::<(String, T)>::empty());
        }
        None
    }

    /// Register a binding: replaces the binding of an already-registered
    /// URL, otherwise inserts at the sorted position.
    pub fn insert(&mut self, url: String, value: T)
        requires
            old(self).wf(),
        ensures
            final(self).wf(),
            forall|k: Seq<char>|
                #[trigger] final(self).spec_get(k) == if k == url@ {
                    Some(value)
                } else {
                    old(self).spec_get(k)
                },
            final(self).urls@.len() == final(self).entries@.len(),
            old(self).spec_get(url@) is Some ==> final(self).entries@.len() == old(
                self,
            ).entries@.len(),
            old(self).spec_get(url@) is None ==> final(self).entries@.len() == old(
                self,
            ).entries@.len() + 1,
    {
        let p = find_pos(&self.entries, url.as_str());
        let n = self.entries.len();
        if p < n && str_eq(self.entries[p].0.as_str(), url.as_str()) {
            let ghost old_entries = self.entries@;
            proof {
                assert forall|i: int|
                    0 <= i < old_entries.len() && i != p implies (#[trigger] old_entries[i]).0@
                    != old_entries[p as int].0@ by {
                    if i < p {
                        lemma_sorted_pairwise(old_entries, i, p as int);
                    } else {
                        lemma_sorted_pairwise(old_entries, p as int, i);
                    }
                }
            }
            self.entries.set(p, (url, value));
            proof {
                lemma_lookup_present(old_entries, p as int);
                assert forall|k: Seq<char>|
                    #[trigger] spec_lookup(self.entries@, k) == if k == old_entries[p as int].0@ {
                        Some(self.entries@[p as int].1)
                    } else {
                        spec_lookup(old_entries, k)
                    } by {
                    lemma_lookup_update(
                        old_entries,
                        p as int,
                        self.entries@[p as int],
                        k,
                    );
                }
                assert(table_wf(self.entries@, self.urls@));
            }
        } else {
            let ghost old_entries = self.entries@;
            let ghost old_urls = self.urls@;
            proof {
                assert forall|i: int|
                    0 <= i < old_entries.len() implies (#[trigger] old_entries[i]).0@ != url@ by {
                    if i < p {
                    } else if i == p {
                    } else {
                        lemma_sorted_pairwise(old_entries, p as int, i);
                        if old_entries[i].0@ == url@ {
                            lemma_lex_le_antisym(url@, old_entries[p as int].0@);
                        }
                    }
                }
            }
            let url_copy = url.clone();
            self.entries.insert(p, (url, value));
            self.urls.insert(p, url_copy);
            proof {
                lemma_lookup_absent(old_entries, url@);
                assert forall|k: Seq<char>|
                    #[trigger] spec_lookup(self.entries@, k) == if k == self.entries@[p as int].0@ {
                        Some(self.entries@[p as int].1)
                    } else {
                        spec_lookup(old_entries, k)
                    } by {
                    lemma_lookup_insert_fresh(
                        old_entries,
                        p as int,
                        self.entries@[p as int],
                        k,
                    );
                }
                assert(table_wf(self.entries@, self.urls@)) by {
                    assert forall|i: int|
                        0 <= i < self.entries@.len() implies (#[trigger] self.urls@[i])@
                        == self.entries@[i].0@ by {
                        if i < p {
                            assert(self.urls@[i] == old_urls[i]);
                            assert(self.entries@[i] == old_entries[i]);
                        } else if i > p {
                            assert(self.urls@[i] == old_urls[i - 1]);
                            assert(self.entries@[i] == old_entries[i - 1]);
                        }
                    }
                    assert forall|i: int|
                        0 <= i < self.entries@.len() - 1 implies lex_le(
                        (#[trigger] self.entries@[i]).0@,
                        self.entries@[i + 1].0@,
                    ) && self.entries@[i].0@ != self.entries@[i + 1].0@ by {
                        if i + 1 < p {
                            assert(self.entries@[i] == old_entries[i]);
                            assert(self.entries@[i + 1] == old_entries[i + 1]);
                        } else if i + 1 == p {
                            assert(self.entries@[i] == old_entries[i]);
                        } else if i == p {
                            assert(self.entries@[i + 1] == old_entries[i]);
                        } else {
                            assert(self.entries@[i] == old_entries[i - 1]);
                            assert(self.entries@[i + 1] == old_entries[i]);
                        }
                    }
                }
            }
        }
    }
}

/// Finds the sorted insertion position for a URL: the first index whose
/// key is not below the URL.
fn find_pos<T>(entries: &Vec<(String, T)>, url: &str) -> (p: usize)
    ensures
        p <= entries@.len(),
        forall|j: int|
            0 <= j < p ==> lex_le((#[trigger] entries@[j]).0@, url@) && entries@[j].0@ != url@,
        p < entries@.len() ==> lex_le(url@, entries@[p as int].0@),
{
    let n = entries.len();
    let mut i: usize = 0;
    loop
        invariant
            n == entries@.len(),
            i <= n,
            forall|j: int|
                0 <= j < i ==> lex_le((#[trigger] entries@[j]).0@, url@) && entries@[j].0@ != url@,
        decreases n - i,
    {
        if i == n {
            return n;
        }
        if str_lex_le(url, entries[i].0.as_str()) {
            return i;
        }
        proof {
            lemma_lex_le_total(url@, entries@[i as int].0@);
            if entries@[i as int].0@ == url@ {
                lemma_lex_le_refl(url@);
            }
        }
        i += 1;
    }
}

/// The order is reflexive.
pub proof fn lemma_lex_le_refl(a: Seq<char>)
    ensures
        lex_le(a, a),
    decreases a.len(),
{
    if a.len() > 0 {
        lemma_lex_le_refl(a.skip(1));
    }
}

} // verus!
