//! `InputMatcher` — domain-agnostic value matching.
//!
//! Input matchers test a type-erased [`MatchingData`] value. They are
//! intentionally non-generic: the same matcher works for every context type.
//! Every matcher returns false for an incompatible variant and for absent
//! data.

use vstd::prelude::*;

verus! {

use crate::matching_data::MatchingData;
use crate::compiled_regex::CompiledRegex;
use crate::compiled_regex::pattern_accepts;
use crate::strings::contains_seq;
use crate::strings::lower_seq;
use crate::strings::str_contains;
use crate::strings::str_ends_with;
use crate::strings::str_eq;
use crate::strings::str_eq_ignore_case;
use crate::strings::str_starts_with;
use vstd::string::StringExecFns;
use crate::MatcherError;

/// Matches against type-erased [`MatchingData`].
pub trait InputMatcher: Sized {
    /// What this matcher accepts, as a function of the tested value.
    spec fn spec_matches(&self, value: &MatchingData) -> bool;

    /// The names of the data-type variants this matcher can evaluate, used
    /// for load-time compatibility checks.
    spec fn spec_supported(&self) -> Seq<Seq<char>>;

    /// Check whether the given value matches.
    fn matches(&self, value: &MatchingData) -> (r: bool)
        ensures
            r == self.spec_matches(value),
    ;

    /// The data types this matcher supports.
    fn supported_types(&self) -> (r: Vec<String>)
        ensures
            r.deep_view() == self.spec_supported(),
    ;

    /// A short textual rendering of this matcher, used in traces.
    spec fn spec_describe(&self) -> Seq<char>;

    /// Renders this matcher for traces.
    fn describe(&self) -> (r: String)
        ensures
            r@ == self.spec_describe(),
    ;
}

/// The rendering `kind("value")`.
pub open spec fn spec_quoted(kind: Seq<char>, v: Seq<char>) -> Seq<char> {
    kind + "(\""@ + v + "\")"@
}

/// Builds the rendering `kind("value")`.
pub(crate) fn render_quoted(kind: &str, v: &str) -> (r: String)
    ensures
        r@ == spec_quoted(kind@, v@),
{
    let mut out = kind.to_owned();
    out.append("(\"");
    out.append(v);
    out.append("\")");
    out
}

/// The supported-type list holding exactly `"string"`.
pub open spec fn string_only() -> Seq<Seq<char>> {
    seq!["string"@]
}

/// Builds the supported-type list holding exactly `"string"`.
pub(crate) fn string_only_vec() -> (r: Vec<String>)
    ensures
        r.deep_view() == string_only(),
{
    let mut v: Vec<String> = Vec::new();
    v.push("string".to_owned());
    proof {
        assert(v.deep_view() =~= string_only());
    }
    v
}

/// Exact string equality matcher (case-sensitive).
#[derive(Debug, Clone)]
pub struct ExactMatcher {
    /// The expected value.
    pub expected: String,
}

impl ExactMatcher {
    /// Create a new exact matcher with the given expected value.
    pub fn new(expected: &str) -> (r: Self)
        ensures
            r.expected@ == expected@,
    {
        ExactMatcher { expected: expected.to_owned() }
    }

    /// Returns the expected value.
    pub fn expected(&self) -> (r: &str)
        ensures
            r@ == self.expected@,
    {
        self.expected.as_str()
    }
}

impl InputMatcher for ExactMatcher {
    open spec fn spec_matches(&self, value: &MatchingData) -> bool {
        value matches MatchingData::String(s) && s@ == self.expected@
    }

    open spec fn spec_supported(&self) -> Seq<Seq<char>> {
        string_only()
    }

    fn matches(&self, value: &MatchingData) -> (r: bool) {
        match value {
            MatchingData::String(s) => str_eq(s.as_str(), self.expected.as_str()),
            _ => false,
        }
    }

    fn supported_types(&self) -> (r: Vec<String>) {
        string_only_vec()
    }

    open spec fn spec_describe(&self) -> Seq<char> {
        spec_quoted("Exact"@, self.expected@)
    }

    fn describe(&self) -> (r: String) {
        render_quoted("Exact", self.expected.as_str())
    }
}

/// Prefix string matcher (case-sensitive).
#[derive(Debug, Clone)]
pub struct PrefixMatcher {
    /// The prefix being matched.
    pub prefix: String,
}

impl PrefixMatcher {
    /// Create a new prefix matcher.
    pub fn new(prefix: &str) -> (r: Self)
        ensures
            r.prefix@ == prefix@,
    {
        PrefixMatcher { prefix: prefix.to_owned() }
    }

    /// Returns the prefix being matched.
    pub fn prefix(&self) -> (r: &str)
        ensures
            r@ == self.prefix@,
    {
        self.prefix.as_str()
    }
}

impl InputMatcher for PrefixMatcher {
    open spec fn spec_matches(&self, value: &MatchingData) -> bool {
        value matches MatchingData::String(s) && self.prefix@.is_prefix_of(s@)
    }

    open spec fn spec_supported(&self) -> Seq<Seq<char>> {
        string_only()
    }

    fn matches(&self, value: &MatchingData) -> (r: bool) {
        match value {
            MatchingData::String(s) => str_starts_with(s.as_str(), self.prefix.as_str(), false),
            _ => false,
        }
    }

    fn supported_types(&self) -> (r: Vec<String>) {
        string_only_vec()
    }

    open spec fn spec_describe(&self) -> Seq<char> {
        spec_quoted("Prefix"@, self.prefix@)
    }

    fn describe(&self) -> (r: String) {
        render_quoted("Prefix", self.prefix.as_str())
    }
}

/// Suffix string matcher (case-sensitive).
#[derive(Debug, Clone)]
pub struct SuffixMatcher {
    /// The suffix being matched.
    pub suffix: String,
}

impl SuffixMatcher {
    /// Create a new suffix matcher.
    pub fn new(suffix: &str) -> (r: Self)
        ensures
            r.suffix@ == suffix@,
    {
        SuffixMatcher { suffix: suffix.to_owned() }
    }

    /// Returns the suffix being matched.
    pub fn suffix(&self) -> (r: &str)
        ensures
            r@ == self.suffix@,
    {
        self.suffix.as_str()
    }
}

impl InputMatcher for SuffixMatcher {
    open spec fn spec_matches(&self, value: &MatchingData) -> bool {
        value matches MatchingData::String(s) && self.suffix@.is_suffix_of(s@)
    }

    open spec fn spec_supported(&self) -> Seq<Seq<char>> {
        string_only()
    }

    fn matches(&self, value: &MatchingData) -> (r: bool) {
        match value {
            MatchingData::String(s) => str_ends_with(s.as_str(), self.suffix.as_str(), false),
            _ => false,
        }
    }

    fn supported_types(&self) -> (r: Vec<String>) {
        string_only_vec()
    }

    open spec fn spec_describe(&self) -> Seq<char> {
        spec_quoted("Suffix"@, self.suffix@)
    }

    fn describe(&self) -> (r: String) {
        render_quoted("Suffix", self.suffix.as_str())
    }
}

/// Substring matcher (case-sensitive).
#[derive(Debug, Clone)]
pub struct ContainsMatcher {
    /// The substring being searched for.
    pub substring: String,
}

impl ContainsMatcher {
    /// Create a new contains matcher.
    pub fn new(substring: &str) -> (r: Self)
        ensures
            r.substring@ == substring@,
    {
        ContainsMatcher { substring: substring.to_owned() }
    }

    /// Returns the substring being searched for.
    pub fn substring(&self) -> (r: &str)
        ensures
            r@ == self.substring@,
    {
        self.substring.as_str()
    }
}

impl InputMatcher for ContainsMatcher {
    open spec fn spec_matches(&self, value: &MatchingData) -> bool {
        value matches MatchingData::String(s) && contains_seq(s@, self.substring@)
    }

    open spec fn spec_supported(&self) -> Seq<Seq<char>> {
        string_only()
    }

    fn matches(&self, value: &MatchingData) -> (r: bool) {
        match value {
            MatchingData::String(s) => str_contains(s.as_str(), self.substring.as_str(), false),
            _ => false,
        }
    }

    fn supported_types(&self) -> (r: Vec<String>) {
        string_only_vec()
    }

    open spec fn spec_describe(&self) -> Seq<char> {
        spec_quoted("Contains"@, self.substring@)
    }

    fn describe(&self) -> (r: String) {
        render_quoted("Contains", self.substring.as_str())
    }
}

/// Boolean equality matcher.
#[derive(Debug, Clone)]
pub struct BoolMatcher {
    /// The expected boolean value.
    pub expected: bool,
}

impl BoolMatcher {
    /// Create a new boolean matcher.
    pub fn new(expected: bool) -> (r: Self)
        ensures
            r.expected == expected,
    {
        BoolMatcher { expected }
    }
}

impl InputMatcher for BoolMatcher {
    open spec fn spec_matches(&self, value: &MatchingData) -> bool {
        value matches MatchingData::Bool(b) && b == self.expected
    }

    open spec fn spec_supported(&self) -> Seq<Seq<char>> {
        seq!["bool"@]
    }

    fn matches(&self, value: &MatchingData) -> (r: bool) {
        match value {
            MatchingData::Bool(b) => *b == self.expected,
            _ => false,
        }
    }

    fn supported_types(&self) -> (r: Vec<String>) {
        let mut v: Vec<String> = Vec::new();
        v.push("bool".to_owned());
        proof {
            assert(v.deep_view() =~= self.spec_supported());
        }
        v
    }

    open spec fn spec_describe(&self) -> Seq<char> {
        if self.expected {
            "Bool(true)"@
        } else {
            "Bool(false)"@
        }
    }

    fn describe(&self) -> (r: String) {
        if self.expected {
            "Bool(true)".to_owned()
        } else {
            "Bool(false)".to_owned()
        }
    }
}

/// Unified string matcher: every string strategy with optional ASCII
/// case-insensitivity, plus linear-time regex matching.
#[derive(Debug, Clone)]
pub enum StringMatcher {
    /// Exact string equality.
    Exact { value: String, ignore_case: bool },
    /// String prefix match.
    Prefix { value: String, ignore_case: bool },
    /// String suffix match.
    Suffix { value: String, ignore_case: bool },
    /// Substring contains match.
    Contains { value: String, ignore_case: bool },
    /// Regular expression match (linear time, no backtracking).
    Regex(CompiledRegex),
}

impl StringMatcher {
    /// Create an exact match.
    pub fn exact(value: &str, ignore_case: bool) -> (r: Self)
        ensures
            r matches StringMatcher::Exact { value: v, ignore_case: ic } && v@ == value@ && ic
                == ignore_case,
    {
        StringMatcher::Exact { value: value.to_owned(), ignore_case }
    }

    /// Create a prefix match.
    pub fn prefix(value: &str, ignore_case: bool) -> (r: Self)
        ensures
            r matches StringMatcher::Prefix { value: v, ignore_case: ic } && v@ == value@ && ic
                == ignore_case,
    {
        StringMatcher::Prefix { value: value.to_owned(), ignore_case }
    }

    /// Create a suffix match.
    pub fn suffix(value: &str, ignore_case: bool) -> (r: Self)
        ensures
            r matches StringMatcher::Suffix { value: v, ignore_case: ic } && v@ == value@ && ic
                == ignore_case,
    {
        StringMatcher::Suffix { value: value.to_owned(), ignore_case }
    }

    /// Create a contains match.
    pub fn contains(value: &str, ignore_case: bool) -> (r: Self)
        ensures
            r matches StringMatcher::Contains { value: v, ignore_case: ic } && v@ == value@ && ic
                == ignore_case,
    {
        StringMatcher::Contains { value: value.to_owned(), ignore_case }
    }

    /// Create a regex match.
    ///
    /// The engine guarantees linear-time matching; patterns it rejects
    /// produce an [`MatcherError::InvalidPattern`] error.
    pub fn regex(pattern: &str) -> (r: Result<Self, MatcherError>)
        ensures
            r matches Ok(m) ==> m matches StringMatcher::Regex(c) && c.pattern_view()
                == pattern@ && crate::compiled_regex::valid_pattern(pattern@),
            r matches Err(e) ==> e matches MatcherError::InvalidPattern { pattern: p, .. }
                && p@ == pattern@ && !crate::compiled_regex::valid_pattern(pattern@),
    {
        match CompiledRegex::compile(pattern) {
            Ok(c) => Ok(StringMatcher::Regex(c)),
            Err(source) => Err(
                MatcherError::InvalidPattern { pattern: pattern.to_owned(), source },
            ),
        }
    }

    /// Create a case-insensitive regex match, by prepending the
    /// case-insensitivity flag group to the pattern.
    pub fn regex_ignore_case(pattern: &str) -> (r: Result<Self, MatcherError>)
        ensures
            r is Ok <==> crate::compiled_regex::valid_pattern("(?i)"@ + pattern@),
            r matches Ok(m) ==> m matches StringMatcher::Regex(c) && c.pattern_view() == "(?i)"@
                + pattern@,
            r matches Err(e) ==> e matches MatcherError::InvalidPattern { pattern: p, .. } && p@
                == "(?i)"@ + pattern@,
    {
        let full = "(?i)".to_owned().concat(pattern);
        match CompiledRegex::compile(full.as_str()) {
            Ok(c) => Ok(StringMatcher::Regex(c)),
            Err(source) => Err(MatcherError::InvalidPattern { pattern: full, source }),
        }
    }
}

impl InputMatcher for StringMatcher {
    open spec fn spec_matches(&self, value: &MatchingData) -> bool {
        match value {
            MatchingData::String(s) => match self {
                StringMatcher::Exact { value: v, ignore_case } => if *ignore_case {
                    lower_seq(s@) == lower_seq(v@)
                } else {
                    s@ == v@
                },
                StringMatcher::Prefix { value: v, ignore_case } => if *ignore_case {
                    lower_seq(v@).is_prefix_of(lower_seq(s@))
                } else {
                    v@.is_prefix_of(s@)
                },
                StringMatcher::Suffix { value: v, ignore_case } => if *ignore_case {
                    lower_seq(v@).is_suffix_of(lower_seq(s@))
                } else {
                    v@.is_suffix_of(s@)
                },
                StringMatcher::Contains { value: v, ignore_case } => if *ignore_case {
                    contains_seq(lower_seq(s@), lower_seq(v@))
                } else {
                    contains_seq(s@, v@)
                },
                StringMatcher::Regex(c) => pattern_accepts(c.pattern_view(), s@),
            },
            _ => false,
        }
    }

    open spec fn spec_supported(&self) -> Seq<Seq<char>> {
        string_only()
    }

    fn matches(&self, value: &MatchingData) -> (r: bool) {
        let s = match value {
            MatchingData::String(s) => s.as_str(),
            _ => { return false; },
        };
        match self {
            StringMatcher::Exact { value: v, ignore_case } => if *ignore_case {
                str_eq_ignore_case(s, v.as_str())
            } else {
                str_eq(s, v.as_str())
            },
            StringMatcher::Prefix { value: v, ignore_case } => str_starts_with(
                s,
                v.as_str(),
                *ignore_case,
            ),
            StringMatcher::Suffix { value: v, ignore_case } => str_ends_with(
                s,
                v.as_str(),
                *ignore_case,
            ),
            StringMatcher::Contains { value: v, ignore_case } => str_contains(
                s,
                v.as_str(),
                *ignore_case,
            ),
            StringMatcher::Regex(c) => c.is_match(s),
        }
    }

    fn supported_types(&self) -> (r: Vec<String>) {
        string_only_vec()
    }

    open spec fn spec_describe(&self) -> Seq<char> {
        match self {
            StringMatcher::Exact { value, .. } => spec_quoted("Exact"@, value@),
            StringMatcher::Prefix { value, .. } => spec_quoted("Prefix"@, value@),
            StringMatcher::Suffix { value, .. } => spec_quoted("Suffix"@, value@),
            StringMatcher::Contains { value, .. } => spec_quoted("Contains"@, value@),
            StringMatcher::Regex(c) => spec_quoted("Regex"@, c.pattern_view()),
        }
    }

    fn describe(&self) -> (r: String) {
        match self {
            StringMatcher::Exact { value, .. } => render_quoted("Exact", value.as_str()),
            StringMatcher::Prefix { value, .. } => render_quoted("Prefix", value.as_str()),
            StringMatcher::Suffix { value, .. } => render_quoted("Suffix", value.as_str()),
            StringMatcher::Contains { value, .. } => render_quoted("Contains", value.as_str()),
            StringMatcher::Regex(c) => render_quoted("Regex", c.pattern()),
        }
    }
}

/// The closed sum of the built-in matchers. Where the reference semantics
/// store a boxed, dynamically dispatched matcher, this library stores one of
/// these.
#[derive(Debug, Clone)]
pub enum CoreMatcher {
    /// An [`ExactMatcher`].
    Exact(ExactMatcher),
    /// A [`PrefixMatcher`].
    Prefix(PrefixMatcher),
    /// A [`SuffixMatcher`].
    Suffix(SuffixMatcher),
    /// A [`ContainsMatcher`].
    Contains(ContainsMatcher),
    /// A [`BoolMatcher`].
    Bool(BoolMatcher),
    /// A [`StringMatcher`].
    Str(StringMatcher),
}

impl InputMatcher for CoreMatcher {
    open spec fn spec_matches(&self, value: &MatchingData) -> bool {
        match self {
            CoreMatcher::Exact(m) => m.spec_matches(value),
            CoreMatcher::Prefix(m) => m.spec_matches(value),
            CoreMatcher::Suffix(m) => m.spec_matches(value),
            CoreMatcher::Contains(m) => m.spec_matches(value),
            CoreMatcher::Bool(m) => m.spec_matches(value),
            CoreMatcher::Str(m) => m.spec_matches(value),
        }
    }

    open spec fn spec_supported(&self) -> Seq<Seq<char>> {
        match self {
            CoreMatcher::Exact(m) => m.spec_supported(),
            CoreMatcher::Prefix(m) => m.spec_supported(),
            CoreMatcher::Suffix(m) => m.spec_supported(),
            CoreMatcher::Contains(m) => m.spec_supported(),
            CoreMatcher::Bool(m) => m.spec_supported(),
            CoreMatcher::Str(m) => m.spec_supported(),
        }
    }

    fn matches(&self, value: &MatchingData) -> (r: bool) {
        match self {
            CoreMatcher::Exact(m) => m.matches(value),
            CoreMatcher::Prefix(m) => m.matches(value),
            CoreMatcher::Suffix(m) => m.matches(value),
            CoreMatcher::Contains(m) => m.matches(value),
            CoreMatcher::Bool(m) => m.matches(value),
            CoreMatcher::Str(m) => m.matches(value),
        }
    }

    fn supported_types(&self) -> (r: Vec<String>) {
        match self {
            CoreMatcher::Exact(m) => m.supported_types(),
            CoreMatcher::Prefix(m) => m.supported_types(),
            CoreMatcher::Suffix(m) => m.supported_types(),
            CoreMatcher::Contains(m) => m.supported_types(),
            CoreMatcher::Bool(m) => m.supported_types(),
            CoreMatcher::Str(m) => m.supported_types(),
        }
    }

    open spec fn spec_describe(&self) -> Seq<char> {
        match self {
            CoreMatcher::Exact(m) => m.spec_describe(),
            CoreMatcher::Prefix(m) => m.spec_describe(),
            CoreMatcher::Suffix(m) => m.spec_describe(),
            CoreMatcher::Contains(m) => m.spec_describe(),
            CoreMatcher::Bool(m) => m.spec_describe(),
            CoreMatcher::Str(m) => m.spec_describe(),
        }
    }

    fn describe(&self) -> (r: String) {
        match self {
            CoreMatcher::Exact(m) => m.describe(),
            CoreMatcher::Prefix(m) => m.describe(),
            CoreMatcher::Suffix(m) => m.describe(),
            CoreMatcher::Contains(m) => m.describe(),
            CoreMatcher::Bool(m) => m.describe(),
            CoreMatcher::Str(m) => m.describe(),
        }
    }
}

} // verus!
