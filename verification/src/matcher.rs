//! `Matcher` — the top-level matcher with first-match-wins semantics.
//!
//! A matcher scans its field matchers in order and stops at the first one
//! whose `on_match` resolves to an action. A field matcher whose nested
//! matcher yields nothing does not win: the scan continues with its
//! siblings. When nothing matches, the optional fallback decides.

use vstd::prelude::*;

verus! {

use crate::MAX_DEPTH;
use crate::data_input::DataInput;
use crate::errors::MatcherError;
use crate::field_matcher::FieldMatcher;
use crate::input_matcher::InputMatcher;
use crate::on_match::OnMatch;
use crate::predicate::depth_inc;
use crate::predicate::depth_max;
use crate::trace::EvalStep;
use crate::trace::EvalTrace;
use crate::trace::OnMatchTrace;

/// Top-level matcher: an ordered list of field matchers plus an optional
/// fallback.
pub struct Matcher<I: DataInput, M: InputMatcher, A> {
    /// The list of field matchers to evaluate, in order.
    pub matcher_list: Vec<FieldMatcher<I, M, A>>,
    /// Fallback when no field matcher produces an action.
    pub on_no_match: Option<OnMatch<I, M, A>>,
}

/// The first action produced by the field matchers, scanned in order.
pub open spec fn spec_eval_list<I: DataInput, M: InputMatcher, A>(
    fms: Seq<FieldMatcher<I, M, A>>,
    ctx: &I::Ctx,
) -> Option<A>
    decreases fms,
{
    if fms.len() == 0 {
        None
    } else {
        match fms[0].spec_resolution(ctx) {
            Some(a) => Some(a),
            None => spec_eval_list(fms.skip(1), ctx),
        }
    }
}

/// The deepest depth among the field matchers, 0 when there are none.
pub open spec fn spec_depth_fm_list<I: DataInput, M: InputMatcher, A>(
    fms: Seq<FieldMatcher<I, M, A>>,
) -> usize
    decreases fms,
{
    if fms.len() == 0 {
        0
    } else {
        depth_max(spec_depth_fm_list(fms.drop_last()), fms.last().spec_depth())
    }
}

impl<I: DataInput, M: InputMatcher, A> Matcher<I, M, A> {
    /// What this matcher evaluates to: the first action produced by its
    /// field matchers, else whatever the fallback resolves to.
    pub open spec fn spec_evaluate(&self, ctx: &I::Ctx) -> Option<A>
        decreases self,
    {
        match spec_eval_list(self.matcher_list@, ctx) {
            Some(a) => Some(a),
            None => match &self.on_no_match {
                Some(om) => om.spec_resolve(ctx),
                None => None,
            },
        }
    }

    /// The depth of this matcher tree: one more than the deepest of its
    /// field matchers and its fallback.
    pub open spec fn spec_depth(&self) -> usize
        decreases self,
    {
        depth_inc(
            depth_max(
                spec_depth_fm_list(self.matcher_list@),
                match &self.on_no_match {
                    Some(om) => om.spec_nested_depth(),
                    None => 0,
                },
            ),
        )
    }

    /// Create a new matcher.
    pub fn new(matcher_list: Vec<FieldMatcher<I, M, A>>, on_no_match: Option<OnMatch<I, M, A>>) -> (r:
        Self)
        ensures
            r.matcher_list == matcher_list,
            r.on_no_match == on_no_match,
    {
        Matcher { matcher_list, on_no_match }
    }

    /// Create an empty matcher: no field matchers and no fallback.
    pub fn empty() -> (r: Self)
        ensures
            r.matcher_list@.len() == 0,
            r.on_no_match is None,
    {
        Matcher { matcher_list: Vec::new(), on_no_match: None }
    }

    /// Evaluate this matcher against the given context.
    ///
    /// Field matchers are scanned in order; the first one whose `on_match`
    /// resolves to an action wins. A field matcher whose nested matcher
    /// yields nothing is not a match and the scan continues. When no field
    /// matcher wins, the fallback is resolved.
    pub fn evaluate(&self, ctx: &I::Ctx) -> (r: Option<&A>)
        ensures
            match r {
                Some(a) => self.spec_evaluate(ctx) == Some(*a),
                None => self.spec_evaluate(ctx) is None,
            },
        decreases self,
    {
        let scan = eval_fm_list(&self.matcher_list, ctx);
        match scan {
            Some(a) => Some(a),
            None => match &self.on_no_match {
                Some(om) => om.evaluate(ctx),
                None => None,
            },
        }
    }

    /// Evaluate with a full trace for debugging.
    ///
    /// The trace's `result` is identical to what plain evaluation returns.
    /// One step is recorded per scanned field matcher, in order, and the
    /// scan stops after the first winning field matcher. `used_fallback`
    /// reports whether the fallback was consulted.
    pub fn evaluate_with_trace(&self, ctx: &I::Ctx) -> (r: EvalTrace<A>)
        ensures
            match r.result {
                Some(a) => self.spec_evaluate(ctx) == Some(*a),
                None => self.spec_evaluate(ctx) is None,
            },
            r.used_fallback == (spec_eval_list(self.matcher_list@, ctx) is None
                && self.on_no_match is Some),
            r.steps@.len() <= self.matcher_list@.len(),
            forall|k: int|
                0 <= k < r.steps@.len() ==> (#[trigger] r.steps@[k]).index == k
                    && r.steps@[k].matched == self.matcher_list@[k].predicate.spec_evaluate(ctx),
            spec_eval_list(self.matcher_list@, ctx) is None ==> r.steps@.len()
                == self.matcher_list@.len(),
            spec_eval_list(self.matcher_list@, ctx) is Some ==> r.steps@.len()
                > 0 && self.matcher_list@[r.steps@.len() - 1].spec_resolution(ctx) is Some,
        decreases self,
    {
        let (steps, scan) = trace_scan(&self.matcher_list, ctx);
        match scan {
            Some(a) => EvalTrace { result: Some(a), steps, used_fallback: false },
            None => match &self.on_no_match {
                Some(om) => {
                    let res = om.evaluate(ctx);
                    EvalTrace { result: res, steps, used_fallback: true }
                },
                None => EvalTrace { result: None, steps, used_fallback: false },
            },
        }
    }

    /// Returns the number of field matchers.
    pub fn len(&self) -> (r: usize)
        ensures
            r == self.matcher_list@.len(),
    {
        self.matcher_list.len()
    }

    /// Returns `true` if there are no field matchers.
    pub fn is_empty(&self) -> (r: bool)
        ensures
            r == (self.matcher_list@.len() == 0),
    {
        self.matcher_list.len() == 0
    }

    /// Returns `true` if there is a fallback.
    pub fn has_fallback(&self) -> (r: bool)
        ensures
            r == (self.on_no_match is Some),
    {
        self.on_no_match.is_some()
    }

    /// Calculate the depth of this matcher tree.
    pub fn depth(&self) -> (r: usize)
        ensures
            r == self.spec_depth(),
        decreases self,
    {
        let field_depth = depth_fm_list(&self.matcher_list);
        let no_match_depth = match &self.on_no_match {
            Some(om) => nested_depth(om),
            None => 0,
        };
        let inner = if field_depth < no_match_depth {
            no_match_depth
        } else {
            field_depth
        };
        if inner < usize::MAX {
            inner + 1
        } else {
            inner
        }
    }

    /// Validate this matcher against the depth bound.
    ///
    /// Call this at config load time to catch oversized trees early.
    pub fn validate(&self) -> (r: Result<(), MatcherError>)
        ensures
            r is Ok <==> self.spec_depth() <= MAX_DEPTH,
            r matches Err(e) ==> e == (MatcherError::DepthExceeded {
                depth: self.spec_depth(),
                max: MAX_DEPTH,
            }),
    {
        let depth = self.depth();
        if depth > MAX_DEPTH {
            return Err(MatcherError::DepthExceeded { depth, max: MAX_DEPTH });
        }
        Ok(())
    }
}

/// Computes the depth of a nested `OnMatch`.
fn nested_depth<I: DataInput, M: InputMatcher, A>(om: &OnMatch<I, M, A>) -> (r: usize)
    ensures
        r == om.spec_nested_depth(),
    decreases om,
{
    match om {
        OnMatch::Action(_) => 0,
        OnMatch::Matcher(m) => m.depth(),
    }
}

/// Computes the deepest depth among the field matchers.
fn depth_fm_list<I: DataInput, M: InputMatcher, A>(fms: &Vec<FieldMatcher<I, M, A>>) -> (r: usize)
    ensures
        r == spec_depth_fm_list(fms@),
    decreases fms@,
{
    let mut best: usize = 0;
    let mut i: usize = 0;
    proof {
        assert(fms@.take(0) =~= Seq::<FieldMatcher<I, M, A>>::empty());
    }
    while i < fms.len()
        invariant
            i <= fms@.len(),
            best == spec_depth_fm_list(fms@.take(i as int)),
        decreases fms@.len() - i,
    {
        let fm = &fms[i];
        let pd = fm.predicate.depth();
        let nd = nested_depth(&fm.on_match);
        let d = if pd < nd {
            nd
        } else {
            pd
        };
        proof {
            assert(d == fm.spec_depth());
        }
        if d > best {
            best = d;
        }
        i += 1;
        proof {
            assert(fms@.take(i as int).drop_last() =~= fms@.take(i - 1));
            assert(fms@.take(i as int).last() == fms@[i - 1]);
        }
    }
    proof {
        assert(fms@.take(fms@.len() as int) =~= fms@);
    }
    best
}

/// Scans the field matchers in order and returns the first action.
fn eval_fm_list<'a, I: DataInput, M: InputMatcher, A>(
    fms: &'a Vec<FieldMatcher<I, M, A>>,
    ctx: &I::Ctx,
) -> (r: Option<&'a A>)
    ensures
        match r {
            Some(a) => spec_eval_list(fms@, ctx) == Some(*a),
            None => spec_eval_list(fms@, ctx) is None,
        },
    decreases fms@,
{
    let mut i: usize = 0;
    proof {
        assert(fms@.skip(0) =~= fms@);
    }
    while i < fms.len()
        invariant
            i <= fms@.len(),
            spec_eval_list(fms@, ctx) == spec_eval_list(fms@.skip(i as int), ctx),
        decreases fms@.len() - i,
    {
        let fm = &fms[i];
        proof {
            assert(fms@.skip(i as int)[0] == fms@[i as int]);
            assert(fms@.skip(i as int).skip(1) =~= fms@.skip(i + 1));
        }
        if fm.matches(ctx) {
            match &fm.on_match {
                OnMatch::Action(a) => {
                    proof {
                        assert(fm.spec_resolution(ctx) == Some(*a));
                        assert(spec_eval_list(fms@.skip(i as int), ctx) == Some(*a));
                    }
                    return Some(a);
                },
                OnMatch::Matcher(nested) => {
                    let res = nested.evaluate(ctx);
                    if let Some(a) = res {
                        proof {
                            assert(fm.spec_resolution(ctx) == Some(*a));
                            assert(spec_eval_list(fms@.skip(i as int), ctx) == Some(*a));
                        }
                        return Some(a);
                    }
                    proof {
                        assert(fm.spec_resolution(ctx) is None);
                    }
                },
            }
        } else {
            proof {
                assert(fm.spec_resolution(ctx) is None);
            }
        }
        i += 1;
    }
    proof {
        assert(fms@.skip(i as int) =~= Seq::<FieldMatcher<I, M, A>>::empty());
    }
    None
}

/// Scans the field matchers in order, recording one step per scanned
/// field matcher and stopping at the first action produced.
fn trace_scan<'a, I: DataInput, M: InputMatcher, A>(
    fms: &'a Vec<FieldMatcher<I, M, A>>,
    ctx: &I::Ctx,
) -> (r: (Vec<EvalStep<'a, A>>, Option<&'a A>))
    ensures
        match r.1 {
            Some(a) => spec_eval_list(fms@, ctx) == Some(*a),
            None => spec_eval_list(fms@, ctx) is None,
        },
        r.0@.len() <= fms@.len(),
        forall|k: int|
            0 <= k < r.0@.len() ==> (#[trigger] r.0@[k]).index == k && r.0@[k].matched == fms@[
                k
            ].predicate.spec_evaluate(ctx),
        r.1 is None ==> r.0@.len() == fms@.len(),
        r.1 is Some ==> r.0@.len() > 0 && fms@[r.0@.len() - 1].spec_resolution(ctx) is Some,
    decreases fms@,
{
    let mut steps: Vec<EvalStep<'a, A>> = Vec::new();
    let mut i: usize = 0;
    proof {
        assert(fms@.skip(0) =~= fms@);
    }
    while i < fms.len()
        invariant
            i <= fms@.len(),
            steps@.len() == i,
            spec_eval_list(fms@, ctx) == spec_eval_list(fms@.skip(i as int), ctx),
            forall|k: int|
                0 <= k < i ==> (#[trigger] steps@[k]).index == k && steps@[k].matched == fms@[
                    k
                ].predicate.spec_evaluate(ctx),
        decreases fms@.len() - i,
    {
        let fm = &fms[i];
        proof {
            assert(fms@.skip(i as int)[0] == fms@[i as int]);
            assert(fms@.skip(i as int).skip(1) =~= fms@.skip(i + 1));
        }
        let pt = fm.predicate.evaluate_with_trace(ctx);
        let matched = pt.matched();
        proof {
            assert(matched == fms@[i as int].predicate.spec_evaluate(ctx));
        }
        if matched {
            match &fm.on_match {
                OnMatch::Action(a) => {
                    steps.push(
                        EvalStep {
                            index: i,
                            matched,
                            predicate_trace: pt,
                            on_match: Some(OnMatchTrace::Action(a)),
                        },
                    );
                    proof {
                        assert(fm.spec_resolution(ctx) == Some(*a));
                        assert(spec_eval_list(fms@.skip(i as int), ctx) == Some(*a));
                    }
                    return (steps, Some(a));
                },
                OnMatch::Matcher(nested) => {
                    let sub = nested.evaluate_with_trace(ctx);
                    let res = sub.result;
                    steps.push(
                        EvalStep {
                            index: i,
                            matched,
                            predicate_trace: pt,
                            on_match: Some(OnMatchTrace::Nested(Box::new(sub))),
                        },
                    );
                    if let Some(a) = res {
                        proof {
                            assert(fm.spec_resolution(ctx) == Some(*a));
                            assert(spec_eval_list(fms@.skip(i as int), ctx) == Some(*a));
                        }
                        return (steps, Some(a));
                    }
                    proof {
                        assert(fm.spec_resolution(ctx) is None);
                    }
                },
            }
        } else {
            steps.push(EvalStep { index: i, matched, predicate_trace: pt, on_match: None });
            proof {
                assert(fm.spec_resolution(ctx) is None);
            }
        }
        i += 1;
    }
    proof {
        assert(fms@.skip(i as int) =~= Seq::<FieldMatcher<I, M, A>>::empty());
    }
    (steps, None)
}

/// First-match-wins: when the field matcher at `k` produces an action and
/// every earlier one produces none, the scan returns exactly that action.
pub proof fn lemma_list_first_match<I: DataInput, M: InputMatcher, A>(
    fms: Seq<FieldMatcher<I, M, A>>,
    ctx: &I::Ctx,
    k: int,
)
    requires
        0 <= k < fms.len(),
        fms[k].spec_resolution(ctx) is Some,
        forall|j: int| 0 <= j < k ==> #[trigger] fms[j].spec_resolution(ctx) is None,
    ensures
        spec_eval_list(fms, ctx) == fms[k].spec_resolution(ctx),
    decreases k,
{
    if k > 0 {
        assert(fms[0].spec_resolution(ctx) is None);
        assert forall|j: int| 0 <= j < k - 1 implies #[trigger] fms.skip(1)[j].spec_resolution(
            ctx,
        ) is None by {
            assert(fms[j + 1].spec_resolution(ctx) is None);
        }
        assert(fms.skip(1)[k - 1] == fms[k]);
        lemma_list_first_match(fms.skip(1), ctx, k - 1);
    }
}

/// First-match-wins at the matcher level: the action of the earliest field
/// matcher whose `on_match` resolves is returned; later matches are never
/// observed.
pub proof fn lemma_first_match_wins<I: DataInput, M: InputMatcher, A>(
    m: &Matcher<I, M, A>,
    ctx: &I::Ctx,
    k: int,
)
    requires
        0 <= k < m.matcher_list@.len(),
        m.matcher_list@[k].spec_resolution(ctx) is Some,
        forall|j: int| 0 <= j < k ==> #[trigger] m.matcher_list@[j].spec_resolution(ctx) is None,
    ensures
        m.spec_evaluate(ctx) == m.matcher_list@[k].spec_resolution(ctx),
{
    lemma_list_first_match(m.matcher_list@, ctx, k);
}

/// Dropping a field matcher that produces no action leaves the scan
/// unchanged.
pub proof fn lemma_list_remove_no_action<I: DataInput, M: InputMatcher, A>(
    fms: Seq<FieldMatcher<I, M, A>>,
    ctx: &I::Ctx,
    k: int,
)
    requires
        0 <= k < fms.len(),
        fms[k].spec_resolution(ctx) is None,
    ensures
        spec_eval_list(fms, ctx) == spec_eval_list(fms.remove(k), ctx),
    decreases k,
{
    if k == 0 {
        assert(fms.remove(0) =~= fms.skip(1));
    } else {
        assert(fms.remove(k)[0] == fms[0]);
        assert(fms.remove(k).skip(1) =~= fms.skip(1).remove(k - 1));
        assert(fms.skip(1)[k - 1] == fms[k]);
        lemma_list_remove_no_action(fms.skip(1), ctx, k - 1);
        if fms[0].spec_resolution(ctx) is Some {
        } else {
            assert(spec_eval_list(fms, ctx) == spec_eval_list(fms.skip(1), ctx));
        }
    }
}

/// Nested-matcher fallthrough: a field matcher whose predicate matches but
/// whose nested matcher yields nothing does not decide the outcome — the
/// matcher behaves as if that field matcher were absent.
pub proof fn lemma_nested_fallthrough<I: DataInput, M: InputMatcher, A>(
    m: &Matcher<I, M, A>,
    shorter: &Matcher<I, M, A>,
    ctx: &I::Ctx,
    k: int,
)
    requires
        0 <= k < m.matcher_list@.len(),
        m.matcher_list@[k].on_match matches OnMatch::Matcher(n) && n.spec_evaluate(ctx) is None,
        shorter.matcher_list@ == m.matcher_list@.remove(k),
        shorter.on_no_match == m.on_no_match,
    ensures
        m.spec_evaluate(ctx) == shorter.spec_evaluate(ctx),
{
    assert(m.matcher_list@[k].spec_resolution(ctx) is None);
    lemma_list_remove_no_action(m.matcher_list@, ctx, k);
}

} // verus!
