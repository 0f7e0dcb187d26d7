//! `MatcherTree` — map-based matching: extract a key, then look it up.
//!
//! Instead of scanning predicates, a matcher tree extracts one key from the
//! context and looks it up in an exact map or a longest-prefix store.

use vstd::prelude::*;

verus! {

use crate::data_input::DataInput;
use crate::input_matcher::InputMatcher;
use crate::matching_data::MatchingData;
use crate::on_match::OnMatch;
use crate::radix_tree::RadixTree;
use crate::strings::str_eq;
use crate::url_table::spec_lookup;

/// Tree-based matcher using map lookups instead of predicate scanning.
pub enum MatcherTree<I: DataInput, M: InputMatcher, A> {
    /// Exact string lookup.
    ExactMatch {
        /// Extracts the lookup key from the context.
        input: I,
        /// Map from exact key to outcome.
        map: Vec<(String, OnMatch<I, M, A>)>,
        /// Fallback when no key matches.
        on_no_match: Option<OnMatch<I, M, A>>,
    },
    /// Longest-prefix lookup.
    PrefixMatch {
        /// Extracts the lookup key from the context.
        input: I,
        /// Prefix store mapping prefixes to outcomes.
        tree: RadixTree<OnMatch<I, M, A>>,
        /// Fallback when no prefix matches.
        on_no_match: Option<OnMatch<I, M, A>>,
    },
}

/// The value of the last entry with the given key, if any: later entries
/// replace earlier ones.
pub open spec fn spec_lookup_last<T>(entries: Seq<(String, T)>, key: Seq<char>) -> Option<T>
    decreases entries,
{
    if entries.len() == 0 {
        None
    } else if entries.last().0@ == key {
        Some(entries.last().1)
    } else {
        spec_lookup_last(entries.drop_last(), key)
    }
}

/// Some stored key is a prefix of the given key.
pub open spec fn has_prefix_entry<V>(entries: Seq<(String, V)>, key: Seq<char>) -> bool {
    exists|i: int| 0 <= i < entries.len() && (#[trigger] entries[i]).0@.is_prefix_of(key)
}

/// The entry at `i` holds a longest stored prefix of the given key.
pub open spec fn is_longest_prefix_at<V>(
    entries: Seq<(String, V)>,
    key: Seq<char>,
    i: int,
) -> bool {
    &&& 0 <= i < entries.len()
    &&& entries[i].0@.is_prefix_of(key)
    &&& forall|j: int|
        0 <= j < entries.len() && (#[trigger] entries[j]).0@.is_prefix_of(key)
            ==> entries[j].0@.len() <= entries[i].0@.len()
}

/// What a fallback resolves to.
pub open spec fn spec_fallback<I: DataInput, M: InputMatcher, A>(
    onm: &Option<OnMatch<I, M, A>>,
    ctx: &I::Ctx,
) -> Option<A> {
    match onm {
        Some(om) => om.spec_resolve(ctx),
        None => None,
    }
}

impl<I: DataInput, M: InputMatcher, A> MatcherTree<I, M, A> {
    /// Create an exact-match tree. Keys are looked up in order; with
    /// distinct keys the map behaves as the entry list written down.
    pub fn exact(input: I, entries: Vec<(String, OnMatch<I, M, A>)>, on_no_match: Option<
        OnMatch<I, M, A>,
    >) -> (r: Self)
        ensures
            r matches MatcherTree::ExactMatch { input: i2, map, on_no_match: f } && i2 == input
                && f == on_no_match && map == entries,
    {
        MatcherTree::ExactMatch { input, map: entries, on_no_match }
    }

    /// Create a prefix-match tree; the longest stored prefix of the key
    /// wins.
    pub fn prefix(input: I, entries: Vec<(String, OnMatch<I, M, A>)>, on_no_match: Option<
        OnMatch<I, M, A>,
    >) -> (r: Self)
        ensures
            r matches MatcherTree::PrefixMatch { input: i2, tree, on_no_match: f } && i2 == input
                && f == on_no_match && tree.wf() && (forall|k: Seq<char>|
                #[trigger] tree.spec_get(k) == spec_lookup_last(entries@, k)),
    {
        let ghost orig = entries@;
        let mut tree: RadixTree<OnMatch<I, M, A>> = RadixTree::new();
        let mut rest = entries;
        let ghost mut i: int = 0;
        proof {
            assert(orig.take(0) =~= Seq::<(String, OnMatch<I, M, A>)>::empty());
        }
        while rest.len() > 0
            invariant
                orig == entries@,
                0 <= i <= orig.len(),
                i + rest@.len() == orig.len(),
                rest@ == orig.skip(i),
                tree.wf(),
                forall|k: Seq<char>|
                    #[trigger] tree.spec_get(k) == spec_lookup_last(orig.take(i), k),
            decreases rest@.len(),
        {
            proof {
                assert(rest@[0] == orig[i]);
                assert(rest@.skip(1) =~= orig.skip(i + 1));
            }
            let e = rest.remove(0);
            let ghost old_tree = tree;
            let _previous = tree.insert(e.0.as_str(), e.1);
            proof {
                i = i + 1;
                assert(orig.take(i).drop_last() =~= orig.take(i - 1));
                assert(orig.take(i).last() == orig[i - 1]);
                assert forall|k: Seq<char>|
                    #[trigger] tree.spec_get(k) == spec_lookup_last(orig.take(i), k) by {
                    if k == orig[i - 1].0@ {
                    } else {
                        assert(tree.spec_get(k) == old_tree.spec_get(k));
                    }
                }
            }
        }
        proof {
            assert(orig.take(i) =~= orig);
        }
        MatcherTree::PrefixMatch { input, tree, on_no_match }
    }

    /// Evaluate the tree against a context: when the extracted datum is a
    /// string with a matching entry, the entry decides; otherwise the
    /// fallback decides.
    pub fn evaluate(&self, ctx: &I::Ctx) -> (r: Option<&A>)
        ensures
            self matches MatcherTree::PrefixMatch { input, tree, on_no_match } ==> match input.spec_get(
                ctx,
            ) {
                MatchingData::String(s) => if has_prefix_entry(tree.entries@, s@) {
                    exists|i: int|
                        #[trigger] is_longest_prefix_at(tree.entries@, s@, i) && match r {
                            Some(a) => tree.entries@[i].1.spec_resolve(ctx) == Some(*a),
                            None => tree.entries@[i].1.spec_resolve(ctx) is None,
                        }
                } else {
                    match r {
                        Some(a) => spec_fallback(on_no_match, ctx) == Some(*a),
                        None => spec_fallback(on_no_match, ctx) is None,
                    }
                },
                _ => match r {
                    Some(a) => spec_fallback(on_no_match, ctx) == Some(*a),
                    None => spec_fallback(on_no_match, ctx) is None,
                },
            },
            self matches MatcherTree::ExactMatch { input, map, on_no_match } ==> match r {
                Some(a) => (match input.spec_get(ctx) {
                    MatchingData::String(s) => match spec_lookup(map@, s@) {
                        Some(om) => om.spec_resolve(ctx) == Some(*a),
                        None => spec_fallback(on_no_match, ctx) == Some(*a),
                    },
                    _ => spec_fallback(on_no_match, ctx) == Some(*a),
                }),
                None => (match input.spec_get(ctx) {
                    MatchingData::String(s) => match spec_lookup(map@, s@) {
                        Some(om) => om.spec_resolve(ctx) is None,
                        None => spec_fallback(on_no_match, ctx) is None,
                    },
                    _ => spec_fallback(on_no_match, ctx) is None,
                }),
            },
    {
        match self {
            MatcherTree::ExactMatch { input, map, on_no_match } => {
                let data = input.get(ctx);
                match &data {
                    MatchingData::String(s) => {
                        match lookup_entry(map, s.as_str()) {
                            Some(om) => om.evaluate(ctx),
                            None => match on_no_match {
                                Some(om) => om.evaluate(ctx),
                                None => None,
                            },
                        }
                    },
                    _ => match on_no_match {
                        Some(om) => om.evaluate(ctx),
                        None => None,
                    },
                }
            },
            MatcherTree::PrefixMatch { input, tree, on_no_match } => {
                let data = input.get(ctx);
                match &data {
                    MatchingData::String(s) => {
                        match tree.find_longest_prefix(s.as_str()) {
                            Some(om) => {
                                let r = om.evaluate(ctx);
                                proof {
                                    let w = choose|i: int|
                                        0 <= i < tree.entries@.len() && (
                                        #[trigger] tree.entries@[i]).0@.is_prefix_of(s@) && *om
                                            == tree.entries@[i].1 && (forall|j: int|
                                            0 <= j < tree.entries@.len() && (
                                            #[trigger] tree.entries@[j]).0@.is_prefix_of(s@)
                                                ==> tree.entries@[j].0@.len()
                                                <= tree.entries@[i].0@.len());
                                    assert(is_longest_prefix_at(tree.entries@, s@, w));
                                }
                                r
                            },
                            None => match on_no_match {
                                Some(om) => om.evaluate(ctx),
                                None => None,
                            },
                        }
                    },
                    _ => match on_no_match {
                        Some(om) => om.evaluate(ctx),
                        None => None,
                    },
                }
            },
        }
    }
}

/// Looks up the first entry with the given key.
fn lookup_entry<'a, I: DataInput, M: InputMatcher, A>(
    entries: &'a Vec<(String, OnMatch<I, M, A>)>,
    key: &str,
) -> (r: Option<&'a OnMatch<I, M, A>>)
    ensures
        match r {
            Some(v) => spec_lookup(entries@, key@) == Some(*v),
            None => spec_lookup(entries@, key@) is None,
        },
{
    let mut i: usize = 0;
    proof {
        assert(entries@.skip(0) =~= entries@);
    }
    while i < entries.len()
        invariant
            i <= entries@.len(),
            spec_lookup(entries@, key@) == spec_lookup(entries@.skip(i as int), key@),
        decreases entries@.len() - i,
    {
        proof {
            assert(entries@.skip(i as int)[0] == entries@[i as int]);
            assert(entries@.skip(i as int).skip(1) =~= entries@.skip(i + 1));
        }
        if str_eq(entries[i].0.as_str(), key) {
            return Some(&entries[i].1);
        }
        i += 1;
    }
    proof {
        assert(entries@.skip(i as int) =~= Seq::<(String, OnMatch<I, M, A>)>::empty());
    }
    None
}

} // verus!
