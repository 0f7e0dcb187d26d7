//! The closed error taxonomy of the matcher engine.
//!
//! Every failure is detected at construction or load time, never at
//! evaluation time. Each error renders to a message that names the offending
//! field, pattern or URL and, when the shape of the error permits, lists the
//! legal alternatives.

use vstd::prelude::*;

verus! {

use vstd::string::StringExecFns;
use crate::strings::dec_str;
use crate::strings::usize_to_string;

/// The specification-level shape of a [`MatcherError`]: the same variants
/// over mathematical values. The regex engine's diagnostic text in
/// `InvalidPattern` is not modeled.
pub enum ErrorView {
    /// Matcher nesting exceeds the depth bound.
    DepthExceeded { depth: usize, max: usize },
    /// A regex pattern failed to compile.
    InvalidPattern { pattern: Seq<char> },
    /// Configuration deserialization or construction failed.
    InvalidConfig { source: Seq<char> },
    /// A type URL was not found in the registry.
    UnknownTypeUrl { type_url: Seq<char>, registry: Seq<char>, available: Seq<Seq<char>> },
    /// Input data type is incompatible with the matcher's supported types.
    IncompatibleTypes { input_type: Seq<char>, matcher_types: Seq<Seq<char>> },
    /// Too many field matchers in a single matcher.
    TooManyFieldMatchers { count: usize, max: usize },
    /// Too many children in a compound predicate.
    TooManyPredicates { count: usize, max: usize },
    /// A pattern exceeds the maximum allowed length.
    PatternTooLong { len: usize, max: usize },
}

impl View for MatcherError {
    type V = ErrorView;

    open spec fn view(&self) -> ErrorView {
        match self {
            MatcherError::DepthExceeded { depth, max } => ErrorView::DepthExceeded {
                depth: *depth,
                max: *max,
            },
            MatcherError::InvalidPattern { pattern, .. } => ErrorView::InvalidPattern {
                pattern: pattern@,
            },
            MatcherError::InvalidConfig { source } => ErrorView::InvalidConfig { source: source@ },
            MatcherError::UnknownTypeUrl { type_url, registry, available } => ErrorView::UnknownTypeUrl {
                type_url: type_url@,
                registry: registry@,
                available: available.deep_view(),
            },
            MatcherError::IncompatibleTypes { input_type, matcher_types } => ErrorView::IncompatibleTypes {
                input_type: input_type@,
                matcher_types: matcher_types.deep_view(),
            },
            MatcherError::TooManyFieldMatchers { count, max } => ErrorView::TooManyFieldMatchers {
                count: *count,
                max: *max,
            },
            MatcherError::TooManyPredicates { count, max } => ErrorView::TooManyPredicates {
                count: *count,
                max: *max,
            },
            MatcherError::PatternTooLong { len, max } => ErrorView::PatternTooLong {
                len: *len,
                max: *max,
            },
        }
    }
}

/// Errors from matcher construction, validation and config loading.
#[derive(Debug, Clone, PartialEq, Eq)]
pub enum MatcherError {
    /// Matcher nesting exceeds the depth bound.
    DepthExceeded { depth: usize, max: usize },
    /// A regex pattern failed to compile.
    InvalidPattern { pattern: String, source: String },
    /// Configuration deserialization or construction failed.
    InvalidConfig { source: String },
    /// A type URL was not found in the registry. `available` lists the
    /// registered URLs, sorted, so the message is self-correcting.
    UnknownTypeUrl { type_url: String, registry: &'static str, available: Vec<String> },
    /// Input data type is incompatible with the matcher's supported types.
    IncompatibleTypes { input_type: String, matcher_types: Vec<String> },
    /// Too many field matchers in a single matcher.
    TooManyFieldMatchers { count: usize, max: usize },
    /// Too many children in a compound `And` or `Or` predicate.
    TooManyPredicates { count: usize, max: usize },
    /// A string match pattern exceeds the maximum allowed length.
    PatternTooLong { len: usize, max: usize },
}

/// The items joined with `", "` between them.
pub open spec fn spec_join_comma(items: Seq<Seq<char>>) -> Seq<char>
    decreases items.len(),
{
    if items.len() == 0 {
        Seq::empty()
    } else if items.len() == 1 {
        items[0]
    } else {
        spec_join_comma(items.drop_last()) + ", "@ + items.last()
    }
}

/// Joins strings with `", "` between them.
fn join_comma(items: &Vec<String>) -> (r: String)
    ensures
        r@ == spec_join_comma(items.deep_view()),
{
    let mut out = String::new();
    let mut i: usize = 0;
    proof {
        assert(items.deep_view().take(0) =~= Seq::<Seq<char>>::empty());
    }
    while i < items.len()
        invariant
            i <= items@.len(),
            items.deep_view().len() == items@.len(),
            out@ == spec_join_comma(items.deep_view().take(i as int)),
        decreases items@.len() - i,
    {
        if i > 0 {
            out.append(", ");
        }
        out.append(items[i].as_str());
        i += 1;
        proof {
            let dv = items.deep_view();
            assert(dv.take(i as int).drop_last() =~= dv.take(i - 1));
            assert(dv.take(i as int).last() == dv[i - 1]);
            assert(dv[i - 1] == items@[i - 1]@);
        }
    }
    proof {
        assert(items.deep_view().take(items@.len() as int) =~= items.deep_view());
    }
    out
}

impl MatcherError {
    /// The rendered message of this error.
    pub open spec fn spec_message(&self) -> Seq<char> {
        match self {
            MatcherError::DepthExceeded { depth, max } => "matcher nesting depth is "@ + dec_str(
                *depth as nat,
            ) + ", but maximum allowed is "@ + dec_str(*max as nat)
                + " - reduce nesting or flatten your matcher tree"@,
            MatcherError::InvalidPattern { pattern, source } => "invalid pattern \""@ + pattern@
                + "\": "@ + source@,
            MatcherError::InvalidConfig { source } => "invalid config: "@ + source@,
            MatcherError::UnknownTypeUrl { type_url, registry, available } => {
                let head = "unknown "@ + registry@ + " type URL \""@ + type_url@ + "\""@;
                if available@.len() == 0 {
                    head + " - no "@ + registry@ + " types are registered"@
                } else {
                    head + " - registered: "@ + spec_join_comma(available.deep_view())
                }
            },
            MatcherError::IncompatibleTypes { input_type, matcher_types } => "input produces \""@
                + input_type@ + "\" data but matcher supports "@ + spec_join_comma(
                matcher_types.deep_view(),
            ),
            MatcherError::TooManyFieldMatchers { count, max } => "matcher has "@ + dec_str(
                *count as nat,
            ) + " field matchers, but maximum allowed is "@ + dec_str(*max as nat),
            MatcherError::TooManyPredicates { count, max } => "compound predicate has "@ + dec_str(
                *count as nat,
            ) + " children, but maximum allowed is "@ + dec_str(*max as nat),
            MatcherError::PatternTooLong { len, max } => "pattern length is "@ + dec_str(
                *len as nat,
            ) + ", but maximum allowed is "@ + dec_str(*max as nat),
        }
    }

    /// Renders this error as a message.
    pub fn message(&self) -> (r: String)
        ensures
            r@ == self.spec_message(),
    {
        match self {
            MatcherError::DepthExceeded { depth, max } => {
                let mut out = "matcher nesting depth is ".to_owned();
                out.append(usize_to_string(*depth).as_str());
                out.append(", but maximum allowed is ");
                out.append(usize_to_string(*max).as_str());
                out.append(" - reduce nesting or flatten your matcher tree");
                out
            },
            MatcherError::InvalidPattern { pattern, source } => {
                let mut out = "invalid pattern \"".to_owned();
                out.append(pattern.as_str());
                out.append("\": ");
                out.append(source.as_str());
                out
            },
            MatcherError::InvalidConfig { source } => {
                let mut out = "invalid config: ".to_owned();
                out.append(source.as_str());
                out
            },
            MatcherError::UnknownTypeUrl { type_url, registry, available } => {
                let mut out = "unknown ".to_owned();
                out.append(*registry);
                out.append(" type URL \"");
                out.append(type_url.as_str());
                out.append("\"");
                if available.len() == 0 {
                    out.append(" - no ");
                    out.append(*registry);
                    out.append(" types are registered");
                } else {
                    out.append(" - registered: ");
                    out.append(join_comma(available).as_str());
                }
                out
            },
            MatcherError::IncompatibleTypes { input_type, matcher_types } => {
                let mut out = "input produces \"".to_owned();
                out.append(input_type.as_str());
                out.append("\" data but matcher supports ");
                out.append(join_comma(matcher_types).as_str());
                out
            },
            MatcherError::TooManyFieldMatchers { count, max } => {
                let mut out = "matcher has ".to_owned();
                out.append(usize_to_string(*count).as_str());
                out.append(" field matchers, but maximum allowed is ");
                out.append(usize_to_string(*max).as_str());
                out
            },
            MatcherError::TooManyPredicates { count, max } => {
                let mut out = "compound predicate has ".to_owned();
                out.append(usize_to_string(*count).as_str());
                out.append(" children, but maximum allowed is ");
                out.append(usize_to_string(*max).as_str());
                out
            },
            MatcherError::PatternTooLong { len, max } => {
                let mut out = "pattern length is ".to_owned();
                out.append(usize_to_string(*len).as_str());
                out.append(", but maximum allowed is ");
                out.append(usize_to_string(*max).as_str());
                out
            },
        }
    }
}

} // verus!
