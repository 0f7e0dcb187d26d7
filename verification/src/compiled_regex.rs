//! Regular-expression matching, backed by the `regex` crate.
//!
//! The engine guarantees linear-time matching (no backtracking), so
//! pathological patterns cannot blow up evaluation; patterns it does not
//! support are rejected at construction.

use vstd::prelude::*;

verus! {

#[verifier::external_type_specification]
#[verifier::external_body]
pub struct ExRegex(regex::Regex);

/// Whether the regex engine accepts `pattern` as a valid pattern.
pub uninterp spec fn valid_pattern(pattern: Seq<char>) -> bool;

/// Whether the regex compiled from `pattern` matches anywhere in `input`.
pub uninterp spec fn pattern_accepts(pattern: Seq<char>, input: Seq<char>) -> bool;

/// A compiled regular expression, paired with the pattern it was compiled
/// from. Values of this type only arise from [`CompiledRegex::compile`], so
/// the compiled machine always corresponds to the stored pattern.
#[derive(Debug)]
pub struct CompiledRegex {
    pattern: String,
    inner: regex::Regex,
}

impl Clone for CompiledRegex {
    /// Relies on `regex::Regex::clone`: the clone matches exactly as the
    /// original does, so it stands for the same pattern.
    #[verifier::external_body]
    fn clone(&self) -> (r: Self)
        ensures
            r.pattern_view() == self.pattern_view(),
    {
        CompiledRegex { pattern: self.pattern.clone(), inner: self.inner.clone() }
    }
}

impl CompiledRegex {
    /// The pattern this regex was compiled from.
    pub closed spec fn pattern_view(&self) -> Seq<char> {
        self.pattern@
    }

    /// Compiles a pattern.
    ///
    /// Relies on `regex::Regex::new`: it returns `Ok` exactly for the
    /// patterns the engine accepts, and the error's rendering describes the
    /// failure.
    #[verifier::external_body]
    pub fn compile(pattern: &str) -> (r: Result<CompiledRegex, String>)
        ensures
            r is Ok <==> valid_pattern(pattern@),
            r matches Ok(c) ==> c.pattern_view() == pattern@,
    {
        match regex::Regex::new(pattern) {
            Ok(inner) => Ok(CompiledRegex { pattern: pattern.to_owned(), inner }),
            Err(e) => Err(e.to_string()),
        }
    }

    /// Tests the input against the regex, anywhere in the input.
    ///
    /// Relies on `regex::Regex::is_match`: the result is a function of the
    /// pattern and the haystack alone.
    #[verifier::external_body]
    pub fn is_match(&self, input: &str) -> (r: bool)
        ensures
            r == pattern_accepts(self.pattern_view(), input@),
    {
        self.inner.is_match(input)
    }

    /// The pattern this regex was compiled from.
    pub fn pattern(&self) -> (r: &str)
        ensures
            r@ == self.pattern_view(),
    {
        self.pattern.as_str()
    }
}

} // verus!
