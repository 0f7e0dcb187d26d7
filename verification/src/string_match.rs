//! `StringMatchSpec` — config-level string match specification.
//!
//! This type records a user's intent for string matching and compiles to a
//! runtime input matcher.

use vstd::prelude::*;

verus! {

use crate::compiled_regex::valid_pattern;
use crate::data_input::DataInput;
use crate::errors::MatcherError;
use crate::input_matcher::CoreMatcher;
use crate::input_matcher::InputMatcher;
use crate::input_matcher::StringMatcher;
use crate::input_matcher::spec_quoted;
use crate::input_matcher::render_quoted;
use crate::matching_data::MatchingData;
use crate::predicate::Predicate;
use crate::predicate::SinglePredicate;
use crate::strings::contains_seq;

/// A string match specification from user configuration: one of five
/// matching strategies, compiled to a runtime matcher.
#[derive(Debug, Clone)]
pub enum StringMatchSpec {
    /// Exact string equality.
    Exact(String),
    /// String starts with prefix.
    Prefix(String),
    /// String ends with suffix.
    Suffix(String),
    /// String contains substring.
    Contains(String),
    /// Regular expression match (linear time).
    Regex(String),
}

impl StringMatchSpec {
    /// The pattern carried by this specification.
    pub open spec fn spec_pattern(&self) -> Seq<char> {
        match self {
            StringMatchSpec::Exact(v) => v@,
            StringMatchSpec::Prefix(v) => v@,
            StringMatchSpec::Suffix(v) => v@,
            StringMatchSpec::Contains(v) => v@,
            StringMatchSpec::Regex(v) => v@,
        }
    }

    /// What a matcher compiled from this specification accepts.
    pub open spec fn spec_accepts(&self, d: &MatchingData) -> bool {
        match d {
            MatchingData::String(s) => match self {
                StringMatchSpec::Exact(v) => s@ == v@,
                StringMatchSpec::Prefix(v) => v@.is_prefix_of(s@),
                StringMatchSpec::Suffix(v) => v@.is_suffix_of(s@),
                StringMatchSpec::Contains(v) => contains_seq(s@, v@),
                StringMatchSpec::Regex(v) => crate::compiled_regex::pattern_accepts(v@, s@),
            },
            _ => false,
        }
    }

    /// Compile this specification into a runtime input matcher.
    ///
    /// Compilation fails exactly when the specification is a regex the
    /// engine rejects.
    pub fn to_input_matcher(&self) -> (r: Result<CoreMatcher, MatcherError>)
        ensures
            r is Ok <==> (self is Regex ==> valid_pattern(self.spec_pattern())),
            r matches Ok(m) ==> forall|d: MatchingData|
                #[trigger] m.spec_matches(&d) == self.spec_accepts(&d),
            r matches Err(e) ==> e matches MatcherError::InvalidPattern { pattern, .. }
                && pattern@ == self.spec_pattern(),
    {
        match self {
            StringMatchSpec::Exact(v) => Ok(
                CoreMatcher::Str(StringMatcher::exact(v.as_str(), false)),
            ),
            StringMatchSpec::Prefix(v) => Ok(
                CoreMatcher::Str(StringMatcher::prefix(v.as_str(), false)),
            ),
            StringMatchSpec::Suffix(v) => Ok(
                CoreMatcher::Str(StringMatcher::suffix(v.as_str(), false)),
            ),
            StringMatchSpec::Contains(v) => Ok(
                CoreMatcher::Str(StringMatcher::contains(v.as_str(), false)),
            ),
            StringMatchSpec::Regex(v) => match StringMatcher::regex(v.as_str()) {
                Ok(m) => Ok(CoreMatcher::Str(m)),
                Err(e) => Err(e),
            },
        }
    }

    /// Compile this specification into a single predicate over the given
    /// data input.
    pub fn to_predicate<I: DataInput>(&self, input: I) -> (r: Result<
        Predicate<I, CoreMatcher>,
        MatcherError,
    >)
        ensures
            r is Ok <==> (self is Regex ==> valid_pattern(self.spec_pattern())),
            r matches Ok(p) ==> p matches Predicate::Single(sp) && sp.input == input && (forall|
                d: MatchingData,
            | #[trigger] sp.matcher.spec_matches(&d) == self.spec_accepts(&d)),
            r matches Err(e) ==> e matches MatcherError::InvalidPattern { pattern, .. }
                && pattern@ == self.spec_pattern(),
    {
        match self.to_input_matcher() {
            Ok(matcher) => Ok(Predicate::Single(SinglePredicate::new(input, matcher))),
            Err(e) => Err(e),
        }
    }

    /// The pattern carried by this specification.
    pub fn pattern(&self) -> (r: &str)
        ensures
            r@ == self.spec_pattern(),
    {
        match self {
            StringMatchSpec::Exact(v) => v.as_str(),
            StringMatchSpec::Prefix(v) => v.as_str(),
            StringMatchSpec::Suffix(v) => v.as_str(),
            StringMatchSpec::Contains(v) => v.as_str(),
            StringMatchSpec::Regex(v) => v.as_str(),
        }
    }

    /// Returns `true` if this is a regex specification.
    pub fn is_regex(&self) -> (r: bool)
        ensures
            r == (self is Regex),
    {
        matches!(self, StringMatchSpec::Regex(_))
    }

    /// The rendering of this specification, naming the strategy and the
    /// pattern.
    pub open spec fn spec_display(&self) -> Seq<char> {
        match self {
            StringMatchSpec::Exact(v) => spec_quoted("Exact"@, v@),
            StringMatchSpec::Prefix(v) => spec_quoted("Prefix"@, v@),
            StringMatchSpec::Suffix(v) => spec_quoted("Suffix"@, v@),
            StringMatchSpec::Contains(v) => spec_quoted("Contains"@, v@),
            StringMatchSpec::Regex(v) => spec_quoted("Regex"@, v@),
        }
    }

    /// Renders this specification, e.g. for diagnostics.
    pub fn display_string(&self) -> (r: String)
        ensures
            r@ == self.spec_display(),
    {
        match self {
            StringMatchSpec::Exact(v) => render_quoted("Exact", v.as_str()),
            StringMatchSpec::Prefix(v) => render_quoted("Prefix", v.as_str()),
            StringMatchSpec::Suffix(v) => render_quoted("Suffix", v.as_str()),
            StringMatchSpec::Contains(v) => render_quoted("Contains", v.as_str()),
            StringMatchSpec::Regex(v) => render_quoted("Regex", v.as_str()),
        }
    }
}

} // verus!
