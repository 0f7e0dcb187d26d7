//! Evaluation traces for debugging matcher behaviour.
//!
//! Trace types mirror the runtime types but capture evaluation results.
//! Tracing does not short-circuit `And`/`Or` — every child is evaluated for
//! maximum visibility — yet the recorded `matched` values agree exactly with
//! plain evaluation.

use vstd::prelude::*;

verus! {

use crate::data_input::DataInput;
use crate::input_matcher::InputMatcher;
use crate::predicate::Predicate;

/// Trace of one predicate evaluation, mirroring the predicate's shape.
#[derive(Debug)]
pub enum PredicateTrace {
    /// A single predicate evaluation.
    Single {
        /// Whether this predicate matched.
        matched: bool,
        /// Rendering of the data input.
        input: String,
        /// Rendering of the data extracted from the context.
        data: String,
        /// Rendering of the input matcher.
        matcher: String,
    },
    /// All children must match.
    And {
        /// Whether all children matched.
        matched: bool,
        /// Trace of each child; all children are evaluated.
        children: Vec<PredicateTrace>,
    },
    /// Some child must match.
    Or {
        /// Whether any child matched.
        matched: bool,
        /// Trace of each child; all children are evaluated.
        children: Vec<PredicateTrace>,
    },
    /// Inverts the inner result.
    Not {
        /// Whether the negation matched.
        matched: bool,
        /// Trace of the inner predicate.
        inner: Box<PredicateTrace>,
    },
}

impl PredicateTrace {
    /// The recorded overall result of this trace.
    pub open spec fn spec_matched(&self) -> bool {
        match self {
            PredicateTrace::Single { matched, .. } => *matched,
            PredicateTrace::And { matched, .. } => *matched,
            PredicateTrace::Or { matched, .. } => *matched,
            PredicateTrace::Not { matched, .. } => *matched,
        }
    }

    /// Get the overall match result of this trace.
    pub fn matched(&self) -> (r: bool)
        ensures
            r == self.spec_matched(),
    {
        match self {
            PredicateTrace::Single { matched, .. } => *matched,
            PredicateTrace::And { matched, .. } => *matched,
            PredicateTrace::Or { matched, .. } => *matched,
            PredicateTrace::Not { matched, .. } => *matched,
        }
    }
}

/// The trace faithfully mirrors the predicate: same shape, one child trace
/// per child predicate, and every recorded `matched` equals the predicate's
/// evaluation.
pub open spec fn trace_mirrors<I: DataInput, M: InputMatcher>(
    t: &PredicateTrace,
    p: &Predicate<I, M>,
    ctx: &I::Ctx,
) -> bool
    decreases p,
{
    t.spec_matched() == p.spec_evaluate(ctx) && match p {
        Predicate::Single(_) => t is Single,
        Predicate::And(ps) => match t {
            PredicateTrace::And { children, .. } => trace_list_mirrors(children@, ps@, ctx),
            _ => false,
        },
        Predicate::Or(ps) => match t {
            PredicateTrace::Or { children, .. } => trace_list_mirrors(children@, ps@, ctx),
            _ => false,
        },
        Predicate::Not(q) => match t {
            PredicateTrace::Not { inner, .. } => trace_mirrors(&**inner, &**q, ctx),
            _ => false,
        },
    }
}

/// Pairwise mirroring of child traces and child predicates; in particular
/// there are exactly as many child traces as child predicates.
pub open spec fn trace_list_mirrors<I: DataInput, M: InputMatcher>(
    ts: Seq<PredicateTrace>,
    ps: Seq<Predicate<I, M>>,
    ctx: &I::Ctx,
) -> bool
    decreases ps,
{
    if ps.len() == 0 {
        ts.len() == 0
    } else {
        ts.len() == ps.len() && trace_mirrors(&ts.last(), &ps.last(), ctx) && trace_list_mirrors(
            ts.drop_last(),
            ps.drop_last(),
            ctx,
        )
    }
}

/// A mirroring trace has exactly one child trace per child predicate.
pub proof fn lemma_trace_children_count<I: DataInput, M: InputMatcher>(
    ts: Seq<PredicateTrace>,
    ps: Seq<Predicate<I, M>>,
    ctx: &I::Ctx,
)
    requires
        trace_list_mirrors(ts, ps, ctx),
    ensures
        ts.len() == ps.len(),
{
}

/// Trace of a full matcher evaluation. `result` always equals what plain
/// evaluation returns for the same context.
#[derive(Debug)]
pub struct EvalTrace<'m, A> {
    /// The final result, identical to plain evaluation.
    pub result: Option<&'m A>,
    /// Trace of each field matcher that was scanned, in order; the scan
    /// stops after the first winning field matcher.
    pub steps: Vec<EvalStep<'m, A>>,
    /// Whether the fallback was consulted.
    pub used_fallback: bool,
}

/// One field matcher's evaluation in a trace.
#[derive(Debug)]
pub struct EvalStep<'m, A> {
    /// Position in the matcher list.
    pub index: usize,
    /// Whether the predicate matched.
    pub matched: bool,
    /// Full predicate evaluation trace.
    pub predicate_trace: PredicateTrace,
    /// What happened with the `on_match`, when the predicate matched.
    pub on_match: Option<OnMatchTrace<'m, A>>,
}

/// What happened when a matched predicate resolved its `OnMatch`.
#[derive(Debug)]
pub enum OnMatchTrace<'m, A> {
    /// An action was returned directly.
    Action(&'m A),
    /// A nested matcher was consulted.
    Nested(Box<EvalTrace<'m, A>>),
}

} // verus!
