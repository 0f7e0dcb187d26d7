//! `DataInput` — domain-specific data extraction.
//!
//! A data input extracts one datum from a domain-specific context and
//! returns it as type-erased [`MatchingData`]. Extraction is pure: the
//! result is a function of the input and the context alone.

use vstd::prelude::*;

verus! {

use crate::matching_data::MatchingData;

/// Extracts data from a domain-specific context.
///
/// Implementations must return [`MatchingData::Absent`] when the requested
/// datum is not present; a predicate over absent data evaluates to false.
pub trait DataInput: Sized {
    /// The context type this input extracts from.
    type Ctx;

    /// What this input extracts, as a function of the context.
    spec fn spec_get(&self, ctx: &Self::Ctx) -> MatchingData;

    /// The name of the data type this input produces, used for load-time
    /// compatibility checks.
    spec fn spec_data_type(&self) -> Seq<char>;

    /// A short textual rendering of this input, used in traces.
    spec fn spec_describe(&self) -> Seq<char>;

    /// Extract data from the given context.
    fn get(&self, ctx: &Self::Ctx) -> (r: MatchingData)
        ensures
            r == self.spec_get(ctx),
    ;

    /// The name of the data type this input produces.
    fn data_type(&self) -> (r: &'static str)
        ensures
            r@ == self.spec_data_type(),
    ;

    /// Renders this input for traces.
    fn describe(&self) -> (r: String)
        ensures
            r@ == self.spec_describe(),
    ;
}

} // verus!
