//! `FieldMatcher` — a predicate paired with what happens when it matches.

use vstd::prelude::*;

verus! {

use crate::data_input::DataInput;
use crate::input_matcher::InputMatcher;
use crate::on_match::OnMatch;
use crate::predicate::Predicate;
use crate::predicate::depth_max;

/// A field matcher: when the predicate matches, the `on_match` decides the
/// outcome.
pub struct FieldMatcher<I: DataInput, M: InputMatcher, A> {
    /// The predicate to evaluate.
    pub predicate: Predicate<I, M>,
    /// What to do when the predicate matches.
    pub on_match: OnMatch<I, M, A>,
}

impl<I: DataInput, M: InputMatcher, A> FieldMatcher<I, M, A> {
    /// The decision this field matcher produces: nothing when the predicate
    /// does not match, otherwise whatever its `on_match` resolves to. A
    /// nested matcher that yields nothing makes the whole field matcher
    /// yield nothing.
    pub open spec fn spec_resolution(&self, ctx: &I::Ctx) -> Option<A>
        decreases self,
    {
        if self.predicate.spec_evaluate(ctx) {
            self.on_match.spec_resolve(ctx)
        } else {
            None
        }
    }

    /// The depth contributed by this field matcher: its predicate's depth
    /// or its nested matcher's depth, whichever is larger.
    pub open spec fn spec_depth(&self) -> usize
        decreases self,
    {
        depth_max(self.predicate.spec_depth(), self.on_match.spec_nested_depth())
    }

    /// Create a new field matcher.
    pub fn new(predicate: Predicate<I, M>, on_match: OnMatch<I, M, A>) -> (r: Self)
        ensures
            r.predicate == predicate,
            r.on_match == on_match,
    {
        FieldMatcher { predicate, on_match }
    }

    /// Evaluate the predicate against the context.
    pub fn matches(&self, ctx: &I::Ctx) -> (r: bool)
        ensures
            r == self.predicate.spec_evaluate(ctx),
    {
        self.predicate.evaluate(ctx)
    }
}

} // verus!
