//! Predicates — boolean expressions over data inputs.
//!
//! A [`SinglePredicate`] pairs a data input with an input matcher; a
//! [`Predicate`] composes single predicates with `And`, `Or` and `Not`.
//! Evaluation short-circuits, which never changes the boolean result.

use vstd::prelude::*;

verus! {

use crate::data_input::DataInput;
use crate::input_matcher::InputMatcher;
use crate::matching_data::MatchingData;
use crate::trace::PredicateTrace;
use crate::trace::trace_list_mirrors;
use crate::trace::trace_mirrors;

/// A single predicate: one data input paired with one input matcher.
///
/// Evaluation extracts the datum; absent data makes the predicate false,
/// otherwise the matcher decides.
pub struct SinglePredicate<I: DataInput, M: InputMatcher> {
    /// The input that extracts the datum from the context.
    pub input: I,
    /// The matcher that tests the extracted datum.
    pub matcher: M,
}

impl<I: DataInput, M: InputMatcher> SinglePredicate<I, M> {
    /// What this predicate evaluates to: false on absent data, otherwise
    /// whatever the matcher decides.
    pub open spec fn spec_evaluate(&self, ctx: &I::Ctx) -> bool {
        !(self.input.spec_get(ctx) is Absent) && self.matcher.spec_matches(
            &self.input.spec_get(ctx),
        )
    }

    /// Create a new single predicate from a data input and an input matcher.
    pub fn new(input: I, matcher: M) -> (r: Self)
        ensures
            r.input == input,
            r.matcher == matcher,
    {
        SinglePredicate { input, matcher }
    }

    /// Get a reference to the input.
    pub fn input(&self) -> (r: &I)
        ensures
            r == &self.input,
    {
        &self.input
    }

    /// Get a reference to the matcher.
    pub fn matcher(&self) -> (r: &M)
        ensures
            r == &self.matcher,
    {
        &self.matcher
    }

    /// Evaluate this predicate against the given context.
    pub fn evaluate(&self, ctx: &I::Ctx) -> (r: bool)
        ensures
            r == self.spec_evaluate(ctx),
    {
        let data = self.input.get(ctx);
        match data {
            MatchingData::Absent => false,
            _ => self.matcher.matches(&data),
        }
    }

    /// Evaluate with a full trace: the recorded result, and renderings of
    /// the input, the extracted data and the matcher.
    pub fn evaluate_with_trace(&self, ctx: &I::Ctx) -> (r: PredicateTrace)
        ensures
            r matches PredicateTrace::Single { matched, input, data, matcher } && matched
                == self.spec_evaluate(ctx) && input@ == self.input.spec_describe() && data@
                == self.input.spec_get(ctx).spec_render() && matcher@
                == self.matcher.spec_describe(),
    {
        let data = self.input.get(ctx);
        let matched = match &data {
            MatchingData::Absent => false,
            _ => self.matcher.matches(&data),
        };
        PredicateTrace::Single {
            matched,
            input: self.input.describe(),
            data: data.render(),
            matcher: self.matcher.describe(),
        }
    }
}

/// Absent data makes a single predicate false, whatever its matcher says.
pub proof fn lemma_absent_is_false<I: DataInput, M: InputMatcher>(
    p: &SinglePredicate<I, M>,
    ctx: &I::Ctx,
)
    requires
        p.input.spec_get(ctx) is Absent,
    ensures
        !p.spec_evaluate(ctx),
{
}

/// Composite predicate with boolean logic.
pub enum Predicate<I: DataInput, M: InputMatcher> {
    /// A single predicate.
    Single(SinglePredicate<I, M>),
    /// All children must match; an empty `And` is true.
    And(Vec<Predicate<I, M>>),
    /// Some child must match; an empty `Or` is false.
    Or(Vec<Predicate<I, M>>),
    /// Inverts the inner predicate.
    Not(Box<Predicate<I, M>>),
}

/// Saturating increment, used by the depth measure.
pub open spec fn depth_inc(d: usize) -> usize {
    if d < usize::MAX {
        (d + 1) as usize
    } else {
        d
    }
}

/// The larger of two depths.
pub open spec fn depth_max(a: usize, b: usize) -> usize {
    if a < b {
        b
    } else {
        a
    }
}

impl<I: DataInput, M: InputMatcher> Predicate<I, M> {
    /// What this predicate evaluates to: the boolean fold of its children.
    pub open spec fn spec_evaluate(&self, ctx: &I::Ctx) -> bool
        decreases self,
    {
        match self {
            Predicate::Single(p) => p.spec_evaluate(ctx),
            Predicate::And(ps) => spec_eval_all(ps@, ctx),
            Predicate::Or(ps) => spec_eval_any(ps@, ctx),
            Predicate::Not(p) => !p.spec_evaluate(ctx),
        }
    }

    /// The depth of this predicate tree: 1 for a leaf, one more than the
    /// deepest child otherwise. Saturates at the integer bound, far beyond
    /// every admissible depth.
    pub open spec fn spec_depth(&self) -> usize
        decreases self,
    {
        match self {
            Predicate::Single(_) => 1,
            Predicate::And(ps) => depth_inc(spec_depth_list(ps@)),
            Predicate::Or(ps) => depth_inc(spec_depth_list(ps@)),
            Predicate::Not(p) => depth_inc(p.spec_depth()),
        }
    }

    /// Evaluate this predicate against the given context.
    ///
    /// `And` short-circuits on the first false child and `Or` on the first
    /// true child; the result is still the full boolean fold.
    pub fn evaluate(&self, ctx: &I::Ctx) -> (r: bool)
        ensures
            r == self.spec_evaluate(ctx),
        decreases self,
    {
        match self {
            Predicate::Single(p) => p.evaluate(ctx),
            Predicate::And(ps) => eval_all(ps, ctx),
            Predicate::Or(ps) => eval_any(ps, ctx),
            Predicate::Not(p) => !p.evaluate(ctx),
        }
    }

    /// Evaluate with a full trace for debugging.
    ///
    /// Unlike plain evaluation this does not short-circuit: every child of
    /// an `And` or `Or` is evaluated and traced. The recorded results still
    /// agree exactly with plain evaluation.
    pub fn evaluate_with_trace(&self, ctx: &I::Ctx) -> (r: PredicateTrace)
        ensures
            trace_mirrors(&r, self, ctx),
        decreases self,
    {
        match self {
            Predicate::Single(p) => {
                let t = p.evaluate_with_trace(ctx);
                proof {
                    assert(trace_mirrors(&t, self, ctx));
                }
                t
            },
            Predicate::And(ps) => {
                let (children, all_matched, _) = trace_children(ps, ctx);
                let t = PredicateTrace::And { matched: all_matched, children };
                proof {
                    lemma_eval_all_fold(ps@, ctx);
                    assert(trace_mirrors(&t, self, ctx));
                }
                t
            },
            Predicate::Or(ps) => {
                let (children, _, any_matched) = trace_children(ps, ctx);
                let t = PredicateTrace::Or { matched: any_matched, children };
                proof {
                    lemma_eval_any_fold(ps@, ctx);
                    assert(trace_mirrors(&t, self, ctx));
                }
                t
            },
            Predicate::Not(p) => {
                let inner = p.evaluate_with_trace(ctx);
                let matched = !inner.matched();
                let t = PredicateTrace::Not { matched, inner: Box::new(inner) };
                proof {
                    assert(trace_mirrors(&t, self, ctx));
                }
                t
            },
        }
    }

    /// Compose predicates with `And` semantics: an empty list collapses to
    /// the supplied catch-all and a single element is unwrapped.
    pub fn from_all(predicates: Vec<Predicate<I, M>>, catch_all: Predicate<I, M>) -> (r: Predicate<
        I,
        M,
    >)
        ensures
            predicates@.len() == 0 ==> r == catch_all,
            predicates@.len() == 1 ==> r == predicates@[0],
            predicates@.len() > 1 ==> (r matches Predicate::And(ps) && ps@ == predicates@),
    {
        let mut predicates = predicates;
        if predicates.len() == 0 {
            catch_all
        } else if predicates.len() == 1 {
            predicates.pop().unwrap()
        } else {
            Predicate::And(predicates)
        }
    }

    /// Compose predicates with `Or` semantics: an empty list collapses to
    /// the supplied catch-all and a single element is unwrapped.
    pub fn from_any(predicates: Vec<Predicate<I, M>>, catch_all: Predicate<I, M>) -> (r: Predicate<
        I,
        M,
    >)
        ensures
            predicates@.len() == 0 ==> r == catch_all,
            predicates@.len() == 1 ==> r == predicates@[0],
            predicates@.len() > 1 ==> (r matches Predicate::Or(ps) && ps@ == predicates@),
    {
        let mut predicates = predicates;
        if predicates.len() == 0 {
            catch_all
        } else if predicates.len() == 1 {
            predicates.pop().unwrap()
        } else {
            Predicate::Or(predicates)
        }
    }

    /// Returns `true` if this is a `Single` predicate.
    pub fn is_single(&self) -> (r: bool)
        ensures
            r == (self is Single),
    {
        matches!(self, Predicate::Single(_))
    }

    /// Returns `true` if this is an `And` predicate.
    pub fn is_and(&self) -> (r: bool)
        ensures
            r == (self is And),
    {
        matches!(self, Predicate::And(_))
    }

    /// Returns `true` if this is an `Or` predicate.
    pub fn is_or(&self) -> (r: bool)
        ensures
            r == (self is Or),
    {
        matches!(self, Predicate::Or(_))
    }

    /// Returns `true` if this is a `Not` predicate.
    pub fn is_not(&self) -> (r: bool)
        ensures
            r == (self is Not),
    {
        matches!(self, Predicate::Not(_))
    }

    /// Calculate the depth of this predicate tree.
    pub fn depth(&self) -> (r: usize)
        ensures
            r == self.spec_depth(),
        decreases self,
    {
        match self {
            Predicate::Single(_) => 1,
            Predicate::And(ps) => depth_inc_exec(depth_list(ps)),
            Predicate::Or(ps) => depth_inc_exec(depth_list(ps)),
            Predicate::Not(p) => depth_inc_exec(p.depth()),
        }
    }
}

/// The conjunction of the predicates in the list; an empty list is true.
pub open spec fn spec_eval_all<I: DataInput, M: InputMatcher>(
    ps: Seq<Predicate<I, M>>,
    ctx: &I::Ctx,
) -> bool
    decreases ps,
{
    if ps.len() == 0 {
        true
    } else {
        ps[0].spec_evaluate(ctx) && spec_eval_all(ps.skip(1), ctx)
    }
}

/// The disjunction of the predicates in the list; an empty list is false.
pub open spec fn spec_eval_any<I: DataInput, M: InputMatcher>(
    ps: Seq<Predicate<I, M>>,
    ctx: &I::Ctx,
) -> bool
    decreases ps,
{
    if ps.len() == 0 {
        false
    } else {
        ps[0].spec_evaluate(ctx) || spec_eval_any(ps.skip(1), ctx)
    }
}

/// Appending a predicate conjoins its result.
pub proof fn lemma_eval_all_push<I: DataInput, M: InputMatcher>(
    ps: Seq<Predicate<I, M>>,
    p: Predicate<I, M>,
    ctx: &I::Ctx,
)
    ensures
        spec_eval_all(ps.push(p), ctx) == (spec_eval_all(ps, ctx) && p.spec_evaluate(ctx)),
    decreases ps,
{
    reveal_with_fuel(spec_eval_all, 2);
    if ps.len() == 0 {
        assert(ps.push(p)[0] == p);
        assert(ps.push(p).skip(1) =~= Seq::<Predicate<I, M>>::empty());
    } else {
        assert(ps.push(p)[0] == ps[0]);
        assert(ps.push(p).skip(1) =~= ps.skip(1).push(p));
        lemma_eval_all_push(ps.skip(1), p, ctx);
    }
}

/// Appending a predicate disjoins its result.
pub proof fn lemma_eval_any_push<I: DataInput, M: InputMatcher>(
    ps: Seq<Predicate<I, M>>,
    p: Predicate<I, M>,
    ctx: &I::Ctx,
)
    ensures
        spec_eval_any(ps.push(p), ctx) == (spec_eval_any(ps, ctx) || p.spec_evaluate(ctx)),
    decreases ps,
{
    reveal_with_fuel(spec_eval_any, 2);
    if ps.len() == 0 {
        assert(ps.push(p)[0] == p);
        assert(ps.push(p).skip(1) =~= Seq::<Predicate<I, M>>::empty());
    } else {
        assert(ps.push(p)[0] == ps[0]);
        assert(ps.push(p).skip(1) =~= ps.skip(1).push(p));
        lemma_eval_any_push(ps.skip(1), p, ctx);
    }
}

/// The conjunction agrees with the boolean fold of the children: it holds
/// exactly when every child evaluates to true.
pub proof fn lemma_eval_all_fold<I: DataInput, M: InputMatcher>(
    ps: Seq<Predicate<I, M>>,
    ctx: &I::Ctx,
)
    ensures
        spec_eval_all(ps, ctx) == (forall|i: int|
            0 <= i < ps.len() ==> #[trigger] ps[i].spec_evaluate(ctx)),
    decreases ps,
{
    if ps.len() > 0 {
        lemma_eval_all_fold(ps.skip(1), ctx);
        assert(forall|i: int|
            1 <= i < ps.len() ==> ps[i].spec_evaluate(ctx) == #[trigger] (ps.skip(1)[i - 1]).spec_evaluate(ctx));
        if ps[0].spec_evaluate(ctx) && spec_eval_all(ps.skip(1), ctx) {
            assert forall|i: int| 0 <= i < ps.len() implies #[trigger] ps[i].spec_evaluate(ctx) by {
                if i > 0 {
                    assert(ps.skip(1)[i - 1].spec_evaluate(ctx));
                }
            }
        }
        if forall|i: int| 0 <= i < ps.len() ==> #[trigger] ps[i].spec_evaluate(ctx) {
            assert forall|j: int|
                0 <= j < ps.skip(1).len() implies #[trigger] (ps.skip(1)[j]).spec_evaluate(ctx) by {
                assert(ps[j + 1].spec_evaluate(ctx));
            }
        }
    }
}

/// The disjunction agrees with the boolean fold of the children: it holds
/// exactly when some child evaluates to true.
pub proof fn lemma_eval_any_fold<I: DataInput, M: InputMatcher>(
    ps: Seq<Predicate<I, M>>,
    ctx: &I::Ctx,
)
    ensures
        spec_eval_any(ps, ctx) == (exists|i: int|
            0 <= i < ps.len() && #[trigger] ps[i].spec_evaluate(ctx)),
    decreases ps,
{
    if ps.len() > 0 {
        lemma_eval_any_fold(ps.skip(1), ctx);
        if ps[0].spec_evaluate(ctx) {
            assert(0 <= 0 < ps.len() && ps[0].spec_evaluate(ctx));
        } else if spec_eval_any(ps.skip(1), ctx) {
            let j = choose|j: int| 0 <= j < ps.skip(1).len() && ps.skip(1)[j].spec_evaluate(ctx);
            assert(ps[j + 1].spec_evaluate(ctx));
        } else {
            if exists|i: int| 0 <= i < ps.len() && #[trigger] ps[i].spec_evaluate(ctx) {
                let i = choose|i: int| 0 <= i < ps.len() && #[trigger] ps[i].spec_evaluate(ctx);
                if i > 0 {
                    assert(ps.skip(1)[i - 1].spec_evaluate(ctx));
                }
            }
        }
    }
}

/// Evaluates the conjunction of the predicates, short-circuiting on the
/// first false child.
fn eval_all<I: DataInput, M: InputMatcher>(ps: &Vec<Predicate<I, M>>, ctx: &I::Ctx) -> (r: bool)
    ensures
        r == spec_eval_all(ps@, ctx),
    decreases ps@,
{
    let mut i: usize = 0;
    proof {
        assert(ps@.skip(0) =~= ps@);
    }
    while i < ps.len()
        invariant
            i <= ps@.len(),
            spec_eval_all(ps@, ctx) == spec_eval_all(ps@.skip(i as int), ctx),
        decreases ps@.len() - i,
    {
        let r = ps[i].evaluate(ctx);
        proof {
            assert(ps@.skip(i as int)[0] == ps@[i as int]);
            assert(ps@.skip(i as int).skip(1) =~= ps@.skip(i + 1));
        }
        if !r {
            return false;
        }
        i += 1;
    }
    proof {
        assert(ps@.skip(i as int) =~= Seq::<Predicate<I, M>>::empty());
    }
    true
}

/// Evaluates the disjunction of the predicates, short-circuiting on the
/// first true child.
fn eval_any<I: DataInput, M: InputMatcher>(ps: &Vec<Predicate<I, M>>, ctx: &I::Ctx) -> (r: bool)
    ensures
        r == spec_eval_any(ps@, ctx),
    decreases ps@,
{
    let mut i: usize = 0;
    proof {
        assert(ps@.skip(0) =~= ps@);
    }
    while i < ps.len()
        invariant
            i <= ps@.len(),
            spec_eval_any(ps@, ctx) == spec_eval_any(ps@.skip(i as int), ctx),
        decreases ps@.len() - i,
    {
        let r = ps[i].evaluate(ctx);
        proof {
            assert(ps@.skip(i as int)[0] == ps@[i as int]);
            assert(ps@.skip(i as int).skip(1) =~= ps@.skip(i + 1));
        }
        if r {
            return true;
        }
        i += 1;
    }
    proof {
        assert(ps@.skip(i as int) =~= Seq::<Predicate<I, M>>::empty());
    }
    false
}

/// Traces every child predicate and reports whether all of them and
/// whether any of them matched.
fn trace_children<I: DataInput, M: InputMatcher>(ps: &Vec<Predicate<I, M>>, ctx: &I::Ctx) -> (r: (
    Vec<PredicateTrace>,
    bool,
    bool,
))
    ensures
        trace_list_mirrors(r.0@, ps@, ctx),
        r.1 == spec_eval_all(ps@, ctx),
        r.2 == spec_eval_any(ps@, ctx),
    decreases ps@,
{
    let mut children: Vec<PredicateTrace> = Vec::new();
    let mut all_matched = true;
    let mut any_matched = false;
    let mut i: usize = 0;
    proof {
        assert(ps@.take(0) =~= Seq::<Predicate<I, M>>::empty());
        assert(trace_list_mirrors(children@, ps@.take(0), ctx));
    }
    while i < ps.len()
        invariant
            i <= ps@.len(),
            children@.len() == i,
            trace_list_mirrors(children@, ps@.take(i as int), ctx),
            all_matched == (forall|j: int| 0 <= j < i ==> #[trigger] ps@[j].spec_evaluate(ctx)),
            any_matched == (exists|j: int| 0 <= j < i && #[trigger] ps@[j].spec_evaluate(ctx)),
        decreases ps@.len() - i,
    {
        let t = ps[i].evaluate_with_trace(ctx);
        let m = t.matched();
        proof {
            assert(m == ps@[i as int].spec_evaluate(ctx));
        }
        let ghost old_children = children@;
        let ghost old_all = all_matched;
        let ghost old_any = any_matched;
        children.push(t);
        if !m {
            all_matched = false;
        }
        if m {
            any_matched = true;
        }
        i += 1;
        proof {
            assert(children@.drop_last() =~= old_children);
            assert(ps@.take(i as int).drop_last() =~= ps@.take(i - 1));
            assert(ps@.take(i as int).last() == ps@[i - 1]);
            assert(trace_list_mirrors(children@, ps@.take(i as int), ctx));
            assert(all_matched == (forall|j: int|
                0 <= j < i ==> #[trigger] ps@[j].spec_evaluate(ctx))) by {
                if all_matched {
                    assert(old_all && m);
                    assert forall|j: int| 0 <= j < i implies #[trigger] ps@[j].spec_evaluate(
                        ctx,
                    ) by {
                        if j < i - 1 {
                        } else {
                            assert(ps@[i - 1].spec_evaluate(ctx));
                        }
                    }
                } else {
                    if !old_all {
                        let w = choose|j: int| 0 <= j < i - 1 && !#[trigger] ps@[j].spec_evaluate(
                            ctx,
                        );
                        assert(!ps@[w].spec_evaluate(ctx));
                    } else {
                        assert(!ps@[i - 1].spec_evaluate(ctx));
                    }
                }
            }
            assert(any_matched == (exists|j: int|
                0 <= j < i && #[trigger] ps@[j].spec_evaluate(ctx))) by {
                if any_matched {
                    if old_any {
                        let w = choose|j: int| 0 <= j < i - 1 && #[trigger] ps@[j].spec_evaluate(
                            ctx,
                        );
                        assert(0 <= w < i && ps@[w].spec_evaluate(ctx));
                    } else {
                        assert(0 <= i - 1 < i && ps@[i - 1].spec_evaluate(ctx));
                    }
                } else {
                    if exists|j: int| 0 <= j < i && #[trigger] ps@[j].spec_evaluate(ctx) {
                        let w = choose|j: int| 0 <= j < i && #[trigger] ps@[j].spec_evaluate(ctx);
                        assert(w == i - 1 || w < i - 1);
                        assert(false);
                    }
                }
            }
        }
    }
    proof {
        assert(ps@.take(i as int) =~= ps@);
        lemma_eval_all_fold(ps@, ctx);
        lemma_eval_any_fold(ps@, ctx);
    }
    (children, all_matched, any_matched)
}

/// The deepest depth among the predicates, 0 when there are none.
pub open spec fn spec_depth_list<I: DataInput, M: InputMatcher>(
    ps: Seq<Predicate<I, M>>,
) -> usize
    decreases ps,
{
    if ps.len() == 0 {
        0
    } else {
        depth_max(spec_depth_list(ps.drop_last()), ps.last().spec_depth())
    }
}

/// Saturating increment.
fn depth_inc_exec(d: usize) -> (r: usize)
    ensures
        r == depth_inc(d),
{
    if d < usize::MAX {
        d + 1
    } else {
        d
    }
}

/// Computes the deepest depth among the predicates.
fn depth_list<I: DataInput, M: InputMatcher>(ps: &Vec<Predicate<I, M>>) -> (r: usize)
    ensures
        r == spec_depth_list(ps@),
    decreases ps@,
{
    let mut best: usize = 0;
    let mut i: usize = 0;
    proof {
        assert(ps@.take(0) =~= Seq::<Predicate<I, M>>::empty());
    }
    while i < ps.len()
        invariant
            i <= ps@.len(),
            best == spec_depth_list(ps@.take(i as int)),
        decreases ps@.len() - i,
    {
        let d = ps[i].depth();
        if d > best {
            best = d;
        }
        i += 1;
        proof {
            assert(ps@.take(i as int).drop_last() =~= ps@.take(i - 1));
            assert(ps@.take(i as int).last() == ps@[i - 1]);
        }
    }
    proof {
        assert(ps@.take(ps@.len() as int) =~= ps@);
    }
    best
}

/// An empty `And` is vacuously true and an empty `Or` is vacuously false.
pub proof fn lemma_empty_compound<I: DataInput, M: InputMatcher>(
    and_pred: &Predicate<I, M>,
    or_pred: &Predicate<I, M>,
    ctx: &I::Ctx,
)
    requires
        and_pred matches Predicate::And(ps) && ps@.len() == 0,
        or_pred matches Predicate::Or(qs) && qs@.len() == 0,
    ensures
        and_pred.spec_evaluate(ctx),
        !or_pred.spec_evaluate(ctx),
{
    reveal_with_fuel(Predicate::spec_evaluate, 2);
    reveal_with_fuel(spec_eval_all, 2);
    reveal_with_fuel(spec_eval_any, 2);
}

/// The boolean fold law: a compound predicate evaluates exactly to the
/// fold of its children, so short-circuiting never changes the result.
pub proof fn lemma_compound_fold<I: DataInput, M: InputMatcher>(
    pred: &Predicate<I, M>,
    ctx: &I::Ctx,
)
    ensures
        pred matches Predicate::And(ps) ==> (pred.spec_evaluate(ctx) <==> (forall|i: int|
            0 <= i < ps@.len() ==> #[trigger] ps@[i].spec_evaluate(ctx))),
        pred matches Predicate::Or(ps) ==> (pred.spec_evaluate(ctx) <==> (exists|i: int|
            0 <= i < ps@.len() && #[trigger] ps@[i].spec_evaluate(ctx))),
{
    reveal_with_fuel(Predicate::spec_evaluate, 2);
    match pred {
        Predicate::And(ps) => lemma_eval_all_fold(ps@, ctx),
        Predicate::Or(ps) => lemma_eval_any_fold(ps@, ctx),
        _ => (),
    }
}

} // verus!
