//! `OnMatch` — what to do when a predicate matches.
//!
//! An `OnMatch` is exactly one of an action value or a nested matcher,
//! never both; the enum enforces the exclusivity at the type level.

use vstd::prelude::*;

verus! {

use crate::data_input::DataInput;
use crate::input_matcher::InputMatcher;
use crate::matcher::Matcher;

/// Defines what happens when a predicate matches: either an action is
/// returned, or a nested matcher is consulted.
pub enum OnMatch<I: DataInput, M: InputMatcher, A> {
    /// Return this action when matched.
    Action(A),
    /// Continue evaluation in the nested matcher; if it yields no action,
    /// this `OnMatch` yields no action either.
    Matcher(Box<Matcher<I, M, A>>),
}

impl<I: DataInput, M: InputMatcher, A> OnMatch<I, M, A> {
    /// What this `OnMatch` resolves to: the action itself, or whatever the
    /// nested matcher yields.
    pub open spec fn spec_resolve(&self, ctx: &I::Ctx) -> Option<A>
        decreases self,
    {
        match self {
            OnMatch::Action(a) => Some(*a),
            OnMatch::Matcher(m) => m.spec_evaluate(ctx),
        }
    }

    /// The depth of the nested matcher; an action has no nesting.
    pub open spec fn spec_nested_depth(&self) -> usize
        decreases self,
    {
        match self {
            OnMatch::Action(_) => 0,
            OnMatch::Matcher(m) => m.spec_depth(),
        }
    }

    /// Create an `OnMatch` holding an action.
    pub fn action(action: A) -> (r: Self)
        ensures
            r == OnMatch::<I, M, A>::Action(action),
    {
        OnMatch::Action(action)
    }

    /// Create an `OnMatch` holding a nested matcher.
    pub fn matcher(nested: Matcher<I, M, A>) -> (r: Self)
        ensures
            r matches OnMatch::Matcher(m) && *m == nested,
    {
        OnMatch::Matcher(Box::new(nested))
    }

    /// Returns `true` if this is an action.
    pub fn is_action(&self) -> (r: bool)
        ensures
            r == (self is Action),
    {
        matches!(self, OnMatch::Action(_))
    }

    /// Returns `true` if this is a nested matcher.
    pub fn is_matcher(&self) -> (r: bool)
        ensures
            r == (self is Matcher),
    {
        matches!(self, OnMatch::Matcher(_))
    }

    /// Get the action if this is an `Action` variant.
    pub fn as_action(&self) -> (r: Option<&A>)
        ensures
            match r {
                Some(a) => self matches OnMatch::Action(b) && a == b,
                None => self is Matcher,
            },
    {
        match self {
            OnMatch::Action(a) => Some(a),
            OnMatch::Matcher(_) => None,
        }
    }

    /// Get the nested matcher if this is a `Matcher` variant.
    pub fn as_matcher(&self) -> (r: Option<&Matcher<I, M, A>>)
        ensures
            match r {
                Some(m) => self matches OnMatch::Matcher(n) && m == &**n,
                None => self is Action,
            },
    {
        match self {
            OnMatch::Action(_) => None,
            OnMatch::Matcher(m) => Some(m),
        }
    }

    /// Resolve this `OnMatch`: return the action, or evaluate the nested
    /// matcher.
    pub fn evaluate(&self, ctx: &I::Ctx) -> (r: Option<&A>)
        ensures
            match r {
                Some(a) => self.spec_resolve(ctx) == Some(*a),
                None => self.spec_resolve(ctx) is None,
            },
        decreases self,
    {
        match self {
            OnMatch::Action(a) => Some(a),
            OnMatch::Matcher(m) => m.evaluate(ctx),
        }
    }
}

} // verus!
