//! Type registry for config-driven matcher construction.
//!
//! The registry turns type-URL-tagged configuration into compiled matchers:
//! input factories build data inputs, matcher factories build input
//! matchers, and action factories build action values. Registries are
//! assembled through a builder and frozen; no runtime registration.

use vstd::prelude::*;

verus! {

use crate::MAX_DEPTH;
use crate::MAX_FIELD_MATCHERS;
use crate::MAX_PATTERN_LENGTH;
use crate::MAX_PREDICATES_PER_COMPOUND;
use crate::MAX_REGEX_PATTERN_LENGTH;
use crate::config::ConfigValue;
use crate::config::FieldMatcherConfig;
use crate::config::MatcherConfig;
use crate::config::OnMatchConfig;
use crate::config::PredicateConfig;
use crate::config::SinglePredicateConfig;
use crate::config::TypedConfig;
use crate::config::ValueMatchConfig;
use crate::field_matcher::FieldMatcher;
use crate::matcher::Matcher;
use crate::matcher::spec_depth_fm_list;
use crate::on_match::OnMatch;
use crate::predicate::Predicate;
use crate::predicate::SinglePredicate;
use crate::predicate::depth_inc;
use crate::predicate::depth_max;
use crate::predicate::spec_depth_list;
use crate::string_match::StringMatchSpec;
use crate::url_table::UrlTable;
use crate::data_input::DataInput;
use crate::errors::ErrorView;
use crate::errors::MatcherError;
use crate::input_matcher::BoolMatcher;
use crate::input_matcher::CoreMatcher;
use crate::input_matcher::InputMatcher;
use crate::input_matcher::StringMatcher;
use crate::input_matcher::string_only;
use crate::matching_data::MatchingData;
use crate::compiled_regex::pattern_accepts;
use crate::compiled_regex::valid_pattern;
use crate::strings::contains_seq;
use crate::strings::lower_seq;
use crate::strings::str_eq;

/// A factory that builds a data input from configuration. Factories are
/// registered under type URLs; domains define one factory type covering
/// their inputs.
pub trait IntoDataInput: Sized {
    /// The data input type this factory builds.
    type Input: DataInput;

    /// What this factory builds from the given payload, or the error it
    /// rejects the payload with.
    spec fn spec_from_config(&self, config: &ConfigValue) -> Result<Self::Input, ErrorView>;

    /// Build a data input from a configuration payload.
    fn from_config(&self, config: &ConfigValue) -> (r: Result<Self::Input, MatcherError>)
        ensures
            match r {
                Ok(inp) => self.spec_from_config(config) == Ok::<Self::Input, ErrorView>(inp),
                Err(e) => self.spec_from_config(config) == Err::<Self::Input, ErrorView>(e@),
            },
    ;
}

/// A factory that builds an input matcher from configuration.
pub trait IntoInputMatcher: Sized {
    /// Whether the payload is accepted, or the error it is rejected with.
    spec fn spec_config_check(&self, config: &ConfigValue) -> Result<(), ErrorView>;

    /// What a matcher built from the payload accepts.
    spec fn spec_accepts(&self, config: &ConfigValue, d: &MatchingData) -> bool;

    /// The data types a matcher built from the payload supports.
    spec fn spec_supported(&self, config: &ConfigValue) -> Seq<Seq<char>>;

    /// Build an input matcher from a configuration payload.
    fn from_config(&self, config: &ConfigValue) -> (r: Result<CoreMatcher, MatcherError>)
        ensures
            match r {
                Ok(m) => self.spec_config_check(config) == Ok::<(), ErrorView>(()) && (forall|
                    d: MatchingData,
                |
                    #[trigger] m.spec_matches(&d) == self.spec_accepts(config, &d))
                    && m.spec_supported() == self.spec_supported(config),
                Err(e) => self.spec_config_check(config) == Err::<(), ErrorView>(e@),
            },
    ;
}

/// A factory that builds an action value from configuration.
pub trait IntoAction: Sized {
    /// The action type this factory builds.
    type Action;

    /// What this factory builds from the given payload, or the error it
    /// rejects the payload with.
    spec fn spec_from_config(&self, config: &ConfigValue) -> Result<Self::Action, ErrorView>;

    /// Build an action value from a configuration payload.
    fn from_config(&self, config: &ConfigValue) -> (r: Result<Self::Action, MatcherError>)
        ensures
            match r {
                Ok(a) => self.spec_from_config(config) == Ok::<Self::Action, ErrorView>(a),
                Err(e) => self.spec_from_config(config) == Err::<Self::Action, ErrorView>(e@),
            },
    ;
}

/// How a configured string matcher matches its pattern.
#[derive(Debug, Clone, Copy, PartialEq, Eq, Structural)]
pub enum StringMatchType {
    /// Exact string equality.
    Exact,
    /// String prefix match.
    Prefix,
    /// String suffix match.
    Suffix,
    /// Substring contains match.
    Contains,
    /// Regular expression match.
    Regex,
}

/// Configuration shape for the built-in boolean matcher.
#[derive(Debug, Clone)]
pub struct BoolMatcherConfig {
    /// The boolean value to match against.
    pub expected: bool,
}

/// Configuration shape for the built-in string matcher.
#[derive(Debug, Clone)]
pub struct StringMatcherConfig {
    /// The pattern to match against.
    pub value: String,
    /// How to match the pattern.
    pub match_type: StringMatchType,
    /// Case-insensitive matching; absent means case-sensitive.
    pub ignore_case: bool,
}

/// The error rejecting a boolean matcher payload without a boolean
/// `expected` field.
pub open spec fn bool_config_error() -> Seq<char> {
    "bool matcher config needs a boolean field \"expected\""@
}

/// The parse of a boolean matcher payload.
pub open spec fn spec_parse_bool_config(cfg: &ConfigValue) -> Result<bool, ErrorView> {
    match cfg.spec_get("expected"@) {
        Some(v) => match v {
            ConfigValue::Bool(b) => Ok(b),
            _ => Err(ErrorView::InvalidConfig { source: bool_config_error() }),
        },
        None => Err(ErrorView::InvalidConfig { source: bool_config_error() }),
    }
}

/// Parses a boolean matcher payload.
pub fn parse_bool_config(cfg: &ConfigValue) -> (r: Result<BoolMatcherConfig, MatcherError>)
    ensures
        match r {
            Ok(c) => spec_parse_bool_config(cfg) == Ok::<bool, ErrorView>(c.expected),
            Err(e) => spec_parse_bool_config(cfg) == Err::<bool, ErrorView>(e@),
        },
{
    match cfg.get("expected") {
        Some(v) => match v.as_bool() {
            Some(b) => Ok(BoolMatcherConfig { expected: b }),
            None => Err(
                MatcherError::InvalidConfig {
                    source: "bool matcher config needs a boolean field \"expected\"".to_owned(),
                },
            ),
        },
        None => Err(
            MatcherError::InvalidConfig {
                source: "bool matcher config needs a boolean field \"expected\"".to_owned(),
            },
        ),
    }
}

/// The error rejecting a string matcher payload without a string `value`
/// field.
pub open spec fn string_value_error() -> Seq<char> {
    "string matcher config needs a string field \"value\""@
}

/// The error rejecting a string matcher payload whose `match_type` is not
/// one of the five strategies.
pub open spec fn string_match_type_error() -> Seq<char> {
    "string matcher config needs a field \"match_type\" of exact, prefix, suffix, contains or regex"@
}

/// The error rejecting a string matcher payload whose `ignore_case` is not
/// a boolean.
pub open spec fn string_ignore_case_error() -> Seq<char> {
    "string matcher config field \"ignore_case\" must be a boolean"@
}

/// The parse of the `match_type` name.
pub open spec fn spec_parse_match_type(name: Seq<char>) -> Option<StringMatchType> {
    if name == "exact"@ {
        Some(StringMatchType::Exact)
    } else if name == "prefix"@ {
        Some(StringMatchType::Prefix)
    } else if name == "suffix"@ {
        Some(StringMatchType::Suffix)
    } else if name == "contains"@ {
        Some(StringMatchType::Contains)
    } else if name == "regex"@ {
        Some(StringMatchType::Regex)
    } else {
        None
    }
}

/// The parse of a string matcher payload: the pattern, the strategy and
/// the case flag.
pub open spec fn spec_parse_string_config(cfg: &ConfigValue) -> Result<
    (Seq<char>, StringMatchType, bool),
    ErrorView,
> {
    match cfg.spec_get("value"@) {
        Some(v) => match v {
            ConfigValue::Str(value) => match cfg.spec_get("match_type"@) {
                Some(t) => match t {
                    ConfigValue::Str(name) => match spec_parse_match_type(name@) {
                        Some(mt) => match cfg.spec_get("ignore_case"@) {
                            Some(icv) => match icv {
                                ConfigValue::Bool(ic) => Ok((value@, mt, ic)),
                                _ => Err(
                                    ErrorView::InvalidConfig { source: string_ignore_case_error() },
                                ),
                            },
                            None => Ok((value@, mt, false)),
                        },
                        None => Err(
                            ErrorView::InvalidConfig { source: string_match_type_error() },
                        ),
                    },
                    _ => Err(ErrorView::InvalidConfig { source: string_match_type_error() }),
                },
                None => Err(ErrorView::InvalidConfig { source: string_match_type_error() }),
            },
            _ => Err(ErrorView::InvalidConfig { source: string_value_error() }),
        },
        None => Err(ErrorView::InvalidConfig { source: string_value_error() }),
    }
}

/// Parses the `match_type` name.
fn parse_match_type(name: &str) -> (r: Option<StringMatchType>)
    ensures
        r == spec_parse_match_type(name@),
{
    if str_eq(name, "exact") {
        Some(StringMatchType::Exact)
    } else if str_eq(name, "prefix") {
        Some(StringMatchType::Prefix)
    } else if str_eq(name, "suffix") {
        Some(StringMatchType::Suffix)
    } else if str_eq(name, "contains") {
        Some(StringMatchType::Contains)
    } else if str_eq(name, "regex") {
        Some(StringMatchType::Regex)
    } else {
        None
    }
}

/// Parses a string matcher payload.
pub fn parse_string_config(cfg: &ConfigValue) -> (r: Result<StringMatcherConfig, MatcherError>)
    ensures
        match r {
            Ok(c) => spec_parse_string_config(cfg) == Ok::<(Seq<char>, StringMatchType, bool), ErrorView>(
                (c.value@, c.match_type, c.ignore_case),
            ),
            Err(e) => spec_parse_string_config(cfg) == Err::<
                (Seq<char>, StringMatchType, bool),
                ErrorView,
            >(e@),
        },
{
    let value = match cfg.get("value") {
        Some(v) => match v.as_str() {
            Some(s) => s,
            None => {
                return Err(
                    MatcherError::InvalidConfig {
                        source: "string matcher config needs a string field \"value\"".to_owned(),
                    },
                );
            },
        },
        None => {
            return Err(
                MatcherError::InvalidConfig {
                    source: "string matcher config needs a string field \"value\"".to_owned(),
                },
            );
        },
    };
    let match_type = match cfg.get("match_type") {
        Some(t) => match t.as_str() {
            Some(name) => match parse_match_type(name) {
                Some(mt) => mt,
                None => {
                    return Err(
                        MatcherError::InvalidConfig {
                            source:
                                "string matcher config needs a field \"match_type\" of exact, prefix, suffix, contains or regex".to_owned(),
                        },
                    );
                },
            },
            None => {
                return Err(
                    MatcherError::InvalidConfig {
                        source:
                            "string matcher config needs a field \"match_type\" of exact, prefix, suffix, contains or regex".to_owned(),
                    },
                );
            },
        },
        None => {
            return Err(
                MatcherError::InvalidConfig {
                    source:
                        "string matcher config needs a field \"match_type\" of exact, prefix, suffix, contains or regex".to_owned(),
                },
            );
        },
    };
    let ignore_case = match cfg.get("ignore_case") {
        Some(icv) => match icv.as_bool() {
            Some(ic) => ic,
            None => {
                return Err(
                    MatcherError::InvalidConfig {
                        source: "string matcher config field \"ignore_case\" must be a boolean"
                            .to_owned(),
                    },
                );
            },
        },
        None => false,
    };
    Ok(StringMatcherConfig { value: value.to_owned(), match_type, ignore_case })
}

/// The full regex pattern a string matcher config compiles: the pattern,
/// with the case-insensitivity group prepended when requested.
pub open spec fn spec_full_pattern(value: Seq<char>, ignore_case: bool) -> Seq<char> {
    if ignore_case {
        "(?i)"@ + value
    } else {
        value
    }
}

/// A factory for the built-in matchers, registered under stable type URLs.
#[derive(Debug, Clone, Copy)]
pub enum CoreMatcherFactory {
    /// Builds the boolean matcher.
    Bool,
    /// Builds the unified string matcher.
    Str,
}

impl IntoInputMatcher for CoreMatcherFactory {
    open spec fn spec_config_check(&self, config: &ConfigValue) -> Result<(), ErrorView> {
        match self {
            CoreMatcherFactory::Bool => match spec_parse_bool_config(config) {
                Ok(_) => Ok(()),
                Err(e) => Err(e),
            },
            CoreMatcherFactory::Str => match spec_parse_string_config(config) {
                Ok((value, mt, ic)) => if mt is Regex && !valid_pattern(
                    spec_full_pattern(value, ic),
                ) {
                    Err(ErrorView::InvalidPattern { pattern: spec_full_pattern(value, ic) })
                } else {
                    Ok(())
                },
                Err(e) => Err(e),
            },
        }
    }

    open spec fn spec_accepts(&self, config: &ConfigValue, d: &MatchingData) -> bool {
        match self {
            CoreMatcherFactory::Bool => match spec_parse_bool_config(config) {
                Ok(b) => d matches MatchingData::Bool(x) && x == b,
                Err(_) => false,
            },
            CoreMatcherFactory::Str => match spec_parse_string_config(config) {
                Ok((value, mt, ic)) => match d {
                    MatchingData::String(s) => match mt {
                        StringMatchType::Exact => if ic {
                            lower_seq(s@) == lower_seq(value)
                        } else {
                            s@ == value
                        },
                        StringMatchType::Prefix => if ic {
                            lower_seq(value).is_prefix_of(lower_seq(s@))
                        } else {
                            value.is_prefix_of(s@)
                        },
                        StringMatchType::Suffix => if ic {
                            lower_seq(value).is_suffix_of(lower_seq(s@))
                        } else {
                            value.is_suffix_of(s@)
                        },
                        StringMatchType::Contains => if ic {
                            contains_seq(lower_seq(s@), lower_seq(value))
                        } else {
                            contains_seq(s@, value)
                        },
                        StringMatchType::Regex => pattern_accepts(
                            spec_full_pattern(value, ic),
                            s@,
                        ),
                    },
                    _ => false,
                },
                Err(_) => false,
            },
        }
    }

    open spec fn spec_supported(&self, config: &ConfigValue) -> Seq<Seq<char>> {
        match self {
            CoreMatcherFactory::Bool => seq!["bool"@],
            CoreMatcherFactory::Str => string_only(),
        }
    }

    fn from_config(&self, config: &ConfigValue) -> (r: Result<CoreMatcher, MatcherError>) {
        match self {
            CoreMatcherFactory::Bool => match parse_bool_config(config) {
                Ok(c) => Ok(CoreMatcher::Bool(BoolMatcher::new(c.expected))),
                Err(e) => Err(e),
            },
            CoreMatcherFactory::Str => {
                let c = match parse_string_config(config) {
                    Ok(c) => c,
                    Err(e) => {
                        return Err(e);
                    },
                };
                let m = match c.match_type {
                    StringMatchType::Exact => StringMatcher::exact(
                        c.value.as_str(),
                        c.ignore_case,
                    ),
                    StringMatchType::Prefix => StringMatcher::prefix(
                        c.value.as_str(),
                        c.ignore_case,
                    ),
                    StringMatchType::Suffix => StringMatcher::suffix(
                        c.value.as_str(),
                        c.ignore_case,
                    ),
                    StringMatchType::Contains => StringMatcher::contains(
                        c.value.as_str(),
                        c.ignore_case,
                    ),
                    StringMatchType::Regex => {
                        let compiled = if c.ignore_case {
                            StringMatcher::regex_ignore_case(c.value.as_str())
                        } else {
                            StringMatcher::regex(c.value.as_str())
                        };
                        match compiled {
                            Ok(m) => m,
                            Err(e) => {
                                return Err(e);
                            },
                        }
                    },
                };
                Ok(CoreMatcher::Str(m))
            },
        }
    }
}


// ═══════════════════════════════════════════════════════════════════════
// Registries
// ═══════════════════════════════════════════════════════════════════════

/// Builder for a [`Registry`]: register input and matcher factories under
/// type URLs, then freeze.
pub struct RegistryBuilder<F: IntoDataInput> {
    /// Input factories keyed by type URL.
    pub inputs: UrlTable<F>,
    /// Matcher factories keyed by type URL.
    pub matchers: UrlTable<CoreMatcherFactory>,
}

/// Immutable registry of input and matcher factories, keyed by type URL.
pub struct Registry<F: IntoDataInput> {
    /// Input factories keyed by type URL.
    pub inputs: UrlTable<F>,
    /// Matcher factories keyed by type URL.
    pub matchers: UrlTable<CoreMatcherFactory>,
}

impl<F: IntoDataInput> RegistryBuilder<F> {
    /// The builder's tables are well formed.
    pub open spec fn wf(&self) -> bool {
        self.inputs.wf() && self.matchers.wf()
    }

    /// What the builder binds an input type URL to.
    pub open spec fn spec_input(&self, url: Seq<char>) -> Option<F> {
        self.inputs.spec_get(url)
    }

    /// What the builder binds a matcher type URL to.
    pub open spec fn spec_matcher(&self, url: Seq<char>) -> Option<CoreMatcherFactory> {
        self.matchers.spec_get(url)
    }

    /// Create a new empty registry builder.
    pub fn new() -> (r: Self)
        ensures
            r.wf(),
            forall|k: Seq<char>| #[trigger] r.spec_input(k) is None,
            forall|k: Seq<char>| #[trigger] r.spec_matcher(k) is None,
    {
        RegistryBuilder { inputs: UrlTable::new(), matchers: UrlTable::new() }
    }

    /// Register a data-input factory under a type URL. Registering the same
    /// URL again replaces the factory.
    pub fn input(self, type_url: &str, factory: F) -> (r: Self)
        requires
            self.wf(),
        ensures
            r.wf(),
            forall|k: Seq<char>|
                #[trigger] r.spec_input(k) == if k == type_url@ {
                    Some(factory)
                } else {
                    self.spec_input(k)
                },
            forall|k: Seq<char>| #[trigger] r.spec_matcher(k) == self.spec_matcher(k),
    {
        let mut this = self;
        this.inputs.insert(type_url.to_owned(), factory);
        this
    }

    /// Register a matcher factory under a type URL.
    pub fn matcher(self, type_url: &str, factory: CoreMatcherFactory) -> (r: Self)
        requires
            self.wf(),
        ensures
            r.wf(),
            forall|k: Seq<char>|
                #[trigger] r.spec_matcher(k) == if k == type_url@ {
                    Some(factory)
                } else {
                    self.spec_matcher(k)
                },
            forall|k: Seq<char>| #[trigger] r.spec_input(k) == self.spec_input(k),
    {
        let mut this = self;
        this.matchers.insert(type_url.to_owned(), factory);
        this
    }

    /// Freeze the registry. No further registration is possible.
    pub fn build(self) -> (r: Registry<F>)
        requires
            self.wf(),
        ensures
            r.wf(),
            forall|k: Seq<char>| #[trigger] r.spec_input(k) == self.spec_input(k),
            forall|k: Seq<char>| #[trigger] r.spec_matcher(k) == self.spec_matcher(k),
    {
        Registry { inputs: self.inputs, matchers: self.matchers }
    }
}

/// Register the built-in matchers (`BoolMatcher`, `StringMatcher`) under
/// their stable type URLs.
pub fn register_core_matchers<F: IntoDataInput>(builder: RegistryBuilder<F>) -> (r: RegistryBuilder<
    F,
>)
    requires
        builder.wf(),
    ensures
        r.wf(),
        r.spec_matcher("xuma.core.v1.BoolMatcher"@) == Some(CoreMatcherFactory::Bool),
        r.spec_matcher("xuma.core.v1.StringMatcher"@) == Some(CoreMatcherFactory::Str),
        forall|k: Seq<char>|
            k != "xuma.core.v1.BoolMatcher"@ && k != "xuma.core.v1.StringMatcher"@
                ==> #[trigger] r.spec_matcher(k) == builder.spec_matcher(k),
        forall|k: Seq<char>| #[trigger] r.spec_input(k) == builder.spec_input(k),
{
    proof {
        reveal_strlit("xuma.core.v1.BoolMatcher");
        reveal_strlit("xuma.core.v1.StringMatcher");
        assert("xuma.core.v1.BoolMatcher"@.len() != "xuma.core.v1.StringMatcher"@.len());
    }
    builder.matcher("xuma.core.v1.BoolMatcher", CoreMatcherFactory::Bool).matcher(
        "xuma.core.v1.StringMatcher",
        CoreMatcherFactory::Str,
    )
}

/// Copies a list of strings.
fn clone_string_vec(v: &Vec<String>) -> (r: Vec<String>)
    ensures
        r.deep_view() == v.deep_view(),
{
    let mut out: Vec<String> = Vec::new();
    let mut i: usize = 0;
    while i < v.len()
        invariant
            i <= v@.len(),
            out@.len() == i,
            forall|j: int| 0 <= j < i ==> (#[trigger] out@[j])@ == v@[j]@,
        decreases v@.len() - i,
    {
        out.push(v[i].clone());
        i += 1;
    }
    proof {
        assert(out.deep_view() =~= v.deep_view());
    }
    out
}

impl<F: IntoDataInput> Registry<F> {
    /// The registry's tables are well formed.
    pub open spec fn wf(&self) -> bool {
        self.inputs.wf() && self.matchers.wf()
    }

    /// What the registry binds an input type URL to.
    pub open spec fn spec_input(&self, url: Seq<char>) -> Option<F> {
        self.inputs.spec_get(url)
    }

    /// What the registry binds a matcher type URL to.
    pub open spec fn spec_matcher(&self, url: Seq<char>) -> Option<CoreMatcherFactory> {
        self.matchers.spec_get(url)
    }

    /// The registered input type URLs, sorted.
    pub open spec fn spec_input_urls(&self) -> Seq<Seq<char>> {
        self.inputs.urls.deep_view()
    }

    /// The registered matcher type URLs, sorted.
    pub open spec fn spec_matcher_urls(&self) -> Seq<Seq<char>> {
        self.matchers.urls.deep_view()
    }

    /// Returns the number of registered input types.
    pub fn input_count(&self) -> (r: usize)
        ensures
            r == self.spec_input_urls().len(),
    {
        proof {
            assert(self.inputs.urls.deep_view().len() == self.inputs.urls@.len());
        }
        self.inputs.urls.len()
    }

    /// Returns the number of registered matcher types.
    pub fn matcher_count(&self) -> (r: usize)
        ensures
            r == self.spec_matcher_urls().len(),
    {
        proof {
            assert(self.matchers.urls.deep_view().len() == self.matchers.urls@.len());
        }
        self.matchers.urls.len()
    }

    /// Returns `true` if no types are registered.
    pub fn is_empty(&self) -> (r: bool)
        ensures
            r == (self.spec_input_urls().len() == 0 && self.spec_matcher_urls().len() == 0),
    {
        proof {
            assert(self.inputs.urls.deep_view().len() == self.inputs.urls@.len());
            assert(self.matchers.urls.deep_view().len() == self.matchers.urls@.len());
        }
        self.inputs.urls.len() == 0 && self.matchers.urls.len() == 0
    }

    /// Returns `true` if the given input type URL is registered.
    pub fn contains_input(&self, type_url: &str) -> (r: bool)
        ensures
            r == (self.spec_input(type_url@) is Some),
    {
        self.inputs.get(type_url).is_some()
    }

    /// Returns `true` if the given matcher type URL is registered.
    pub fn contains_matcher(&self, type_url: &str) -> (r: bool)
        ensures
            r == (self.spec_matcher(type_url@) is Some),
    {
        self.matchers.get(type_url).is_some()
    }

    /// Returns all registered input type URLs, sorted.
    pub fn input_type_urls(&self) -> (r: Vec<String>)
        ensures
            r.deep_view() == self.spec_input_urls(),
    {
        clone_string_vec(&self.inputs.urls)
    }

    /// Returns all registered matcher type URLs, sorted.
    pub fn matcher_type_urls(&self) -> (r: Vec<String>)
        ensures
            r.deep_view() == self.spec_matcher_urls(),
    {
        clone_string_vec(&self.matchers.urls)
    }
}


// ═══════════════════════════════════════════════════════════════════════
// The load path: spec-level description
// ═══════════════════════════════════════════════════════════════════════

/// The check of a single-predicate config: the input must resolve and
/// build, the matcher must be well formed and within the pattern caps, and
/// the input's data type must be among the matcher's supported types.
pub open spec fn spec_check_single<F: IntoDataInput>(
    reg: &Registry<F>,
    spc: &SinglePredicateConfig,
) -> Result<(), ErrorView> {
    match reg.spec_input(spc.input.type_url@) {
        None => Err(
            ErrorView::UnknownTypeUrl {
                type_url: spc.input.type_url@,
                registry: "input"@,
                available: reg.spec_input_urls(),
            },
        ),
        Some(f) => match f.spec_from_config(&spc.input.config) {
            Err(e) => Err(e),
            Ok(inp) => match &spc.matcher {
                ValueMatchConfig::BuiltIn(sm) => {
                    let plen = sm.spec_pattern().len();
                    if sm is Regex && plen > MAX_REGEX_PATTERN_LENGTH {
                        Err(
                            ErrorView::PatternTooLong {
                                len: plen as usize,
                                max: MAX_REGEX_PATTERN_LENGTH,
                            },
                        )
                    } else if !(sm is Regex) && plen > MAX_PATTERN_LENGTH {
                        Err(ErrorView::PatternTooLong { len: plen as usize, max: MAX_PATTERN_LENGTH })
                    } else if sm is Regex && !valid_pattern(sm.spec_pattern()) {
                        Err(ErrorView::InvalidPattern { pattern: sm.spec_pattern() })
                    } else if !string_only().contains(inp.spec_data_type()) {
                        Err(
                            ErrorView::IncompatibleTypes {
                                input_type: inp.spec_data_type(),
                                matcher_types: string_only(),
                            },
                        )
                    } else {
                        Ok(())
                    }
                },
                ValueMatchConfig::Custom(tc) => match reg.spec_matcher(tc.type_url@) {
                    None => Err(
                        ErrorView::UnknownTypeUrl {
                            type_url: tc.type_url@,
                            registry: "matcher"@,
                            available: reg.spec_matcher_urls(),
                        },
                    ),
                    Some(g) => match g.spec_config_check(&tc.config) {
                        Err(e) => Err(e),
                        Ok(_) => if !g.spec_supported(&tc.config).contains(inp.spec_data_type()) {
                            Err(
                                ErrorView::IncompatibleTypes {
                                    input_type: inp.spec_data_type(),
                                    matcher_types: g.spec_supported(&tc.config),
                                },
                            )
                        } else {
                            Ok(())
                        },
                    },
                },
            },
        },
    }
}

/// The check of a predicate config: width caps on compounds, and every
/// single predicate must resolve.
pub open spec fn spec_check_pred<F: IntoDataInput>(
    reg: &Registry<F>,
    pc: &PredicateConfig,
) -> Result<(), ErrorView>
    decreases pc,
{
    match pc {
        PredicateConfig::Single(spc) => spec_check_single(reg, spc),
        PredicateConfig::And { predicates } => if predicates@.len() > MAX_PREDICATES_PER_COMPOUND {
            Err(
                ErrorView::TooManyPredicates {
                    count: predicates@.len() as usize,
                    max: MAX_PREDICATES_PER_COMPOUND,
                },
            )
        } else {
            spec_check_pred_list(reg, predicates@)
        },
        PredicateConfig::Or { predicates } => if predicates@.len() > MAX_PREDICATES_PER_COMPOUND {
            Err(
                ErrorView::TooManyPredicates {
                    count: predicates@.len() as usize,
                    max: MAX_PREDICATES_PER_COMPOUND,
                },
            )
        } else {
            spec_check_pred_list(reg, predicates@)
        },
        PredicateConfig::Not { predicate } => spec_check_pred(reg, &**predicate),
    }
}

/// The check of a list of predicate configs: the first failure wins.
pub open spec fn spec_check_pred_list<F: IntoDataInput>(
    reg: &Registry<F>,
    pcs: Seq<PredicateConfig>,
) -> Result<(), ErrorView>
    decreases pcs,
{
    if pcs.len() == 0 {
        Ok(())
    } else {
        match spec_check_pred(reg, &pcs[0]) {
            Err(e) => Err(e),
            Ok(_) => spec_check_pred_list(reg, pcs.skip(1)),
        }
    }
}

/// The check of an on-match config.
pub open spec fn spec_check_on_match<F: IntoDataInput, A>(
    reg: &Registry<F>,
    omc: &OnMatchConfig<A>,
) -> Result<(), ErrorView>
    decreases omc,
{
    match omc {
        OnMatchConfig::Action { .. } => Ok(()),
        OnMatchConfig::Matcher { matcher } => spec_check_matcher(reg, &**matcher),
    }
}

/// The check of a field matcher config.
pub open spec fn spec_check_fm<F: IntoDataInput, A>(
    reg: &Registry<F>,
    fmc: &FieldMatcherConfig<A>,
) -> Result<(), ErrorView>
    decreases fmc,
{
    match spec_check_pred(reg, &fmc.predicate) {
        Err(e) => Err(e),
        Ok(_) => spec_check_on_match(reg, &fmc.on_match),
    }
}

/// The check of a list of field matcher configs.
pub open spec fn spec_check_fm_list<F: IntoDataInput, A>(
    reg: &Registry<F>,
    fmcs: Seq<FieldMatcherConfig<A>>,
) -> Result<(), ErrorView>
    decreases fmcs,
{
    if fmcs.len() == 0 {
        Ok(())
    } else {
        match spec_check_fm(reg, &fmcs[0]) {
            Err(e) => Err(e),
            Ok(_) => spec_check_fm_list(reg, fmcs.skip(1)),
        }
    }
}

/// The check of a matcher config: the width cap, then every field matcher,
/// then the fallback. The depth cap is checked separately on the assembled
/// matcher.
pub open spec fn spec_check_matcher<F: IntoDataInput, A>(
    reg: &Registry<F>,
    cfg: &MatcherConfig<A>,
) -> Result<(), ErrorView>
    decreases cfg,
{
    if cfg.matchers@.len() > MAX_FIELD_MATCHERS {
        Err(
            ErrorView::TooManyFieldMatchers {
                count: cfg.matchers@.len() as usize,
                max: MAX_FIELD_MATCHERS,
            },
        )
    } else {
        match spec_check_fm_list(reg, cfg.matchers@) {
            Err(e) => Err(e),
            Ok(_) => match &cfg.on_no_match {
                Some(omc) => spec_check_on_match(reg, omc),
                None => Ok(()),
            },
        }
    }
}

// ═══════════════════════════════════════════════════════════════════════
// The load path: what a compiled matcher is
// ═══════════════════════════════════════════════════════════════════════

/// The compiled single predicate corresponds to its config: its input is
/// what the registered factory builds, and its matcher accepts exactly what
/// the configured matcher accepts.
pub open spec fn single_loaded<F: IntoDataInput>(
    sp: &SinglePredicate<F::Input, CoreMatcher>,
    spc: &SinglePredicateConfig,
    reg: &Registry<F>,
) -> bool {
    (match reg.spec_input(spc.input.type_url@) {
        Some(f) => f.spec_from_config(&spc.input.config) == Ok::<F::Input, ErrorView>(sp.input),
        None => false,
    }) && (match &spc.matcher {
        ValueMatchConfig::BuiltIn(sm) => forall|d: MatchingData|
            #[trigger] sp.matcher.spec_matches(&d) == sm.spec_accepts(&d),
        ValueMatchConfig::Custom(tc) => match reg.spec_matcher(tc.type_url@) {
            Some(g) => forall|d: MatchingData|
                #[trigger] sp.matcher.spec_matches(&d) == g.spec_accepts(&tc.config, &d),
            None => false,
        },
    })
}

/// The compiled predicate corresponds to its config, shape for shape.
pub open spec fn pred_loaded<F: IntoDataInput>(
    p: &Predicate<F::Input, CoreMatcher>,
    pc: &PredicateConfig,
    reg: &Registry<F>,
) -> bool
    decreases pc,
{
    match pc {
        PredicateConfig::Single(spc) => match p {
            Predicate::Single(sp) => single_loaded(sp, spc, reg),
            _ => false,
        },
        PredicateConfig::And { predicates } => match p {
            Predicate::And(ps) => pred_list_loaded(ps@, predicates@, reg),
            _ => false,
        },
        PredicateConfig::Or { predicates } => match p {
            Predicate::Or(ps) => pred_list_loaded(ps@, predicates@, reg),
            _ => false,
        },
        PredicateConfig::Not { predicate } => match p {
            Predicate::Not(q) => pred_loaded(&**q, &**predicate, reg),
            _ => false,
        },
    }
}

/// Pairwise correspondence of compiled predicates and their configs.
pub open spec fn pred_list_loaded<F: IntoDataInput>(
    ps: Seq<Predicate<F::Input, CoreMatcher>>,
    pcs: Seq<PredicateConfig>,
    reg: &Registry<F>,
) -> bool
    decreases pcs,
{
    if pcs.len() == 0 {
        ps.len() == 0
    } else {
        ps.len() == pcs.len() && pred_loaded(&ps.last(), &pcs.last(), reg) && pred_list_loaded(
            ps.drop_last(),
            pcs.drop_last(),
            reg,
        )
    }
}

/// The compiled on-match corresponds to its config.
pub open spec fn om_loaded<F: IntoDataInput, A>(
    om: &OnMatch<F::Input, CoreMatcher, A>,
    omc: &OnMatchConfig<A>,
    reg: &Registry<F>,
) -> bool
    decreases omc,
{
    match omc {
        OnMatchConfig::Action { action } => match om {
            OnMatch::Action(a) => a == action,
            _ => false,
        },
        OnMatchConfig::Matcher { matcher } => match om {
            OnMatch::Matcher(n) => matcher_loaded(&**n, &**matcher, reg),
            _ => false,
        },
    }
}

/// The compiled field matcher corresponds to its config.
pub open spec fn fm_loaded<F: IntoDataInput, A>(
    fm: &FieldMatcher<F::Input, CoreMatcher, A>,
    fmc: &FieldMatcherConfig<A>,
    reg: &Registry<F>,
) -> bool
    decreases fmc,
{
    pred_loaded(&fm.predicate, &fmc.predicate, reg) && om_loaded(&fm.on_match, &fmc.on_match, reg)
}

/// Pairwise correspondence of compiled field matchers and their configs.
pub open spec fn fm_list_loaded<F: IntoDataInput, A>(
    fms: Seq<FieldMatcher<F::Input, CoreMatcher, A>>,
    fmcs: Seq<FieldMatcherConfig<A>>,
    reg: &Registry<F>,
) -> bool
    decreases fmcs,
{
    if fmcs.len() == 0 {
        fms.len() == 0
    } else {
        fms.len() == fmcs.len() && fm_loaded(&fms.last(), &fmcs.last(), reg) && fm_list_loaded(
            fms.drop_last(),
            fmcs.drop_last(),
            reg,
        )
    }
}

/// The compiled matcher corresponds to its config.
pub open spec fn matcher_loaded<F: IntoDataInput, A>(
    m: &Matcher<F::Input, CoreMatcher, A>,
    cfg: &MatcherConfig<A>,
    reg: &Registry<F>,
) -> bool
    decreases cfg,
{
    fm_list_loaded(m.matcher_list@, cfg.matchers@, reg) && (match (&m.on_no_match, &cfg.on_no_match) {
        (Some(om), Some(omc)) => om_loaded(om, omc, reg),
        (None, None) => true,
        _ => false,
    })
}

// ═══════════════════════════════════════════════════════════════════════
// The depth of a config
// ═══════════════════════════════════════════════════════════════════════

/// The depth of a configured predicate tree.
pub open spec fn pred_cfg_depth(pc: &PredicateConfig) -> usize
    decreases pc,
{
    match pc {
        PredicateConfig::Single(_) => 1,
        PredicateConfig::And { predicates } => depth_inc(pred_list_cfg_depth(predicates@)),
        PredicateConfig::Or { predicates } => depth_inc(pred_list_cfg_depth(predicates@)),
        PredicateConfig::Not { predicate } => depth_inc(pred_cfg_depth(&**predicate)),
    }
}

/// The deepest depth among configured predicates.
pub open spec fn pred_list_cfg_depth(pcs: Seq<PredicateConfig>) -> usize
    decreases pcs,
{
    if pcs.len() == 0 {
        0
    } else {
        depth_max(pred_list_cfg_depth(pcs.drop_last()), pred_cfg_depth(&pcs.last()))
    }
}

/// The nested depth of a configured on-match.
pub open spec fn om_cfg_depth<A>(omc: &OnMatchConfig<A>) -> usize
    decreases omc,
{
    match omc {
        OnMatchConfig::Action { .. } => 0,
        OnMatchConfig::Matcher { matcher } => matcher_cfg_depth(&**matcher),
    }
}

/// The depth contributed by a configured field matcher.
pub open spec fn fm_cfg_depth<A>(fmc: &FieldMatcherConfig<A>) -> usize
    decreases fmc,
{
    depth_max(pred_cfg_depth(&fmc.predicate), om_cfg_depth(&fmc.on_match))
}

/// The deepest depth among configured field matchers.
pub open spec fn fm_list_cfg_depth<A>(fmcs: Seq<FieldMatcherConfig<A>>) -> usize
    decreases fmcs,
{
    if fmcs.len() == 0 {
        0
    } else {
        depth_max(fm_list_cfg_depth(fmcs.drop_last()), fm_cfg_depth(&fmcs.last()))
    }
}

/// The depth of a configured matcher tree.
pub open spec fn matcher_cfg_depth<A>(cfg: &MatcherConfig<A>) -> usize
    decreases cfg,
{
    depth_inc(
        depth_max(
            fm_list_cfg_depth(cfg.matchers@),
            match &cfg.on_no_match {
                Some(omc) => om_cfg_depth(omc),
                None => 0,
            },
        ),
    )
}

/// The list depth bounds every element's depth.
pub proof fn lemma_fm_list_cfg_depth_ge<A>(fmcs: Seq<FieldMatcherConfig<A>>, i: int)
    requires
        0 <= i < fmcs.len(),
    ensures
        fm_cfg_depth(&fmcs[i]) <= fm_list_cfg_depth(fmcs),
    decreases fmcs,
{
    if i == fmcs.len() - 1 {
    } else {
        assert(fmcs.drop_last()[i] == fmcs[i]);
        lemma_fm_list_cfg_depth_ge(fmcs.drop_last(), i);
    }
}

/// A compiled predicate has exactly its config's depth.
pub proof fn lemma_pred_loaded_depth<F: IntoDataInput>(
    p: &Predicate<F::Input, CoreMatcher>,
    pc: &PredicateConfig,
    reg: &Registry<F>,
)
    requires
        pred_loaded(p, pc, reg),
    ensures
        p.spec_depth() == pred_cfg_depth(pc),
    decreases pc,
{
    match pc {
        PredicateConfig::Single(_) => (),
        PredicateConfig::And { predicates } => {
            if let Predicate::And(ps) = p {
                lemma_pred_list_loaded_depth(ps@, predicates@, reg);
            }
        },
        PredicateConfig::Or { predicates } => {
            if let Predicate::Or(ps) = p {
                lemma_pred_list_loaded_depth(ps@, predicates@, reg);
            }
        },
        PredicateConfig::Not { predicate } => {
            if let Predicate::Not(q) = p {
                lemma_pred_loaded_depth(&**q, &**predicate, reg);
            }
        },
    }
}

/// Pairwise compiled predicates have exactly their configs' depths.
pub proof fn lemma_pred_list_loaded_depth<F: IntoDataInput>(
    ps: Seq<Predicate<F::Input, CoreMatcher>>,
    pcs: Seq<PredicateConfig>,
    reg: &Registry<F>,
)
    requires
        pred_list_loaded(ps, pcs, reg),
    ensures
        spec_depth_list(ps) == pred_list_cfg_depth(pcs),
    decreases pcs,
{
    if pcs.len() > 0 {
        lemma_pred_loaded_depth(&ps.last(), &pcs.last(), reg);
        lemma_pred_list_loaded_depth(ps.drop_last(), pcs.drop_last(), reg);
    }
}

/// A compiled on-match has exactly its config's nested depth.
pub proof fn lemma_om_loaded_depth<F: IntoDataInput, A>(
    om: &OnMatch<F::Input, CoreMatcher, A>,
    omc: &OnMatchConfig<A>,
    reg: &Registry<F>,
)
    requires
        om_loaded(om, omc, reg),
    ensures
        om.spec_nested_depth() == om_cfg_depth(omc),
    decreases omc,
{
    match omc {
        OnMatchConfig::Action { .. } => (),
        OnMatchConfig::Matcher { matcher } => {
            if let OnMatch::Matcher(n) = om {
                lemma_matcher_loaded_depth(&**n, &**matcher, reg);
            }
        },
    }
}

/// A compiled field matcher has exactly its config's depth.
pub proof fn lemma_fm_loaded_depth<F: IntoDataInput, A>(
    fm: &FieldMatcher<F::Input, CoreMatcher, A>,
    fmc: &FieldMatcherConfig<A>,
    reg: &Registry<F>,
)
    requires
        fm_loaded(fm, fmc, reg),
    ensures
        fm.spec_depth() == fm_cfg_depth(fmc),
    decreases fmc,
{
    lemma_pred_loaded_depth(&fm.predicate, &fmc.predicate, reg);
    lemma_om_loaded_depth(&fm.on_match, &fmc.on_match, reg);
}

/// Pairwise compiled field matchers have exactly their configs' depths.
pub proof fn lemma_fm_list_loaded_depth<F: IntoDataInput, A>(
    fms: Seq<FieldMatcher<F::Input, CoreMatcher, A>>,
    fmcs: Seq<FieldMatcherConfig<A>>,
    reg: &Registry<F>,
)
    requires
        fm_list_loaded(fms, fmcs, reg),
    ensures
        spec_depth_fm_list(fms) == fm_list_cfg_depth(fmcs),
    decreases fmcs,
{
    if fmcs.len() > 0 {
        lemma_fm_loaded_depth(&fms.last(), &fmcs.last(), reg);
        lemma_fm_list_loaded_depth(fms.drop_last(), fmcs.drop_last(), reg);
    }
}

/// A compiled matcher has exactly its config's depth.
pub proof fn lemma_matcher_loaded_depth<F: IntoDataInput, A>(
    m: &Matcher<F::Input, CoreMatcher, A>,
    cfg: &MatcherConfig<A>,
    reg: &Registry<F>,
)
    requires
        matcher_loaded(m, cfg, reg),
    ensures
        m.spec_depth() == matcher_cfg_depth(cfg),
    decreases cfg,
{
    lemma_fm_list_loaded_depth(m.matcher_list@, cfg.matchers@, reg);
    match (&m.on_no_match, &cfg.on_no_match) {
        (Some(om), Some(omc)) => lemma_om_loaded_depth(om, omc, reg),
        _ => (),
    }
}


// ═══════════════════════════════════════════════════════════════════════
// The load path: executable loaders
// ═══════════════════════════════════════════════════════════════════════

/// Tests whether a list of type names holds the given name.
fn str_vec_contains(v: &Vec<String>, s: &str) -> (r: bool)
    ensures
        r == v.deep_view().contains(s@),
{
    let mut i: usize = 0;
    while i < v.len()
        invariant
            i <= v@.len(),
            forall|j: int| 0 <= j < i ==> v.deep_view()[j] != s@,
        decreases v@.len() - i,
    {
        if str_eq(v[i].as_str(), s) {
            proof {
                assert(v.deep_view()[i as int] == s@);
            }
            return true;
        }
        i += 1;
    }
    proof {
        if v.deep_view().contains(s@) {
            let k = choose|k: int| 0 <= k < v.deep_view().len() && v.deep_view()[k] == s@;
            assert(v.deep_view()[k] != s@);
        }
    }
    false
}

/// Loads one single-predicate config: resolves the input, builds the
/// matcher, and checks type compatibility.
fn load_single<F: IntoDataInput>(reg: &Registry<F>, spc: &SinglePredicateConfig) -> (r: Result<
    SinglePredicate<F::Input, CoreMatcher>,
    MatcherError,
>)
    ensures
        match r {
            Ok(sp) => spec_check_single(reg, spc) == Ok::<(), ErrorView>(()) && single_loaded(
                &sp,
                spc,
                reg,
            ),
            Err(e) => spec_check_single(reg, spc) == Err::<(), ErrorView>(e@),
        },
{
    let f = match reg.inputs.get(spc.input.type_url.as_str()) {
        Some(f) => f,
        None => {
            return Err(
                MatcherError::UnknownTypeUrl {
                    type_url: spc.input.type_url.clone(),
                    registry: "input",
                    available: clone_string_vec(&reg.inputs.urls),
                },
            );
        },
    };
    let input = match f.from_config(&spc.input.config) {
        Ok(i) => i,
        Err(e) => {
            return Err(e);
        },
    };
    match &spc.matcher {
        ValueMatchConfig::BuiltIn(sm) => {
            let plen = sm.pattern().unicode_len();
            if sm.is_regex() {
                if plen > MAX_REGEX_PATTERN_LENGTH {
                    return Err(
                        MatcherError::PatternTooLong { len: plen, max: MAX_REGEX_PATTERN_LENGTH },
                    );
                }
            } else {
                if plen > MAX_PATTERN_LENGTH {
                    return Err(MatcherError::PatternTooLong { len: plen, max: MAX_PATTERN_LENGTH });
                }
            }
            let matcher = match sm.to_input_matcher() {
                Ok(m) => m,
                Err(e) => {
                    return Err(e);
                },
            };
            let dt = input.data_type();
            if !str_eq(dt, "string") {
                proof {
                    assert(!string_only().contains(input.spec_data_type())) by {
                        if string_only().contains(input.spec_data_type()) {
                            let k = choose|k: int|
                                0 <= k < string_only().len() && string_only()[k]
                                    == input.spec_data_type();
                        }
                    }
                }
                return Err(
                    MatcherError::IncompatibleTypes {
                        input_type: dt.to_owned(),
                        matcher_types: crate::input_matcher::string_only_vec(),
                    },
                );
            }
            proof {
                assert(string_only().contains(input.spec_data_type())) by {
                    assert(string_only()[0] == input.spec_data_type());
                }
            }
            Ok(SinglePredicate::new(input, matcher))
        },
        ValueMatchConfig::Custom(tc) => {
            let g = match reg.matchers.get(tc.type_url.as_str()) {
                Some(g) => g,
                None => {
                    return Err(
                        MatcherError::UnknownTypeUrl {
                            type_url: tc.type_url.clone(),
                            registry: "matcher",
                            available: clone_string_vec(&reg.matchers.urls),
                        },
                    );
                },
            };
            let matcher = match g.from_config(&tc.config) {
                Ok(m) => m,
                Err(e) => {
                    return Err(e);
                },
            };
            let dt = input.data_type();
            let supported = matcher.supported_types();
            if !str_vec_contains(&supported, dt) {
                return Err(
                    MatcherError::IncompatibleTypes {
                        input_type: dt.to_owned(),
                        matcher_types: supported,
                    },
                );
            }
            Ok(SinglePredicate::new(input, matcher))
        },
    }
}

/// Loads a predicate config, enforcing the compound width cap.
fn load_predicate<F: IntoDataInput>(reg: &Registry<F>, pc: &PredicateConfig) -> (r: Result<
    Predicate<F::Input, CoreMatcher>,
    MatcherError,
>)
    ensures
        match r {
            Ok(p) => spec_check_pred(reg, pc) == Ok::<(), ErrorView>(()) && pred_loaded(
                &p,
                pc,
                reg,
            ),
            Err(e) => spec_check_pred(reg, pc) == Err::<(), ErrorView>(e@),
        },
    decreases pc,
{
    match pc {
        PredicateConfig::Single(spc) => match load_single(reg, spc) {
            Ok(sp) => Ok(Predicate::Single(sp)),
            Err(e) => Err(e),
        },
        PredicateConfig::And { predicates } => {
            if predicates.len() > MAX_PREDICATES_PER_COMPOUND {
                return Err(
                    MatcherError::TooManyPredicates {
                        count: predicates.len(),
                        max: MAX_PREDICATES_PER_COMPOUND,
                    },
                );
            }
            match load_pred_list(reg, predicates) {
                Ok(children) => Ok(Predicate::And(children)),
                Err(e) => Err(e),
            }
        },
        PredicateConfig::Or { predicates } => {
            if predicates.len() > MAX_PREDICATES_PER_COMPOUND {
                return Err(
                    MatcherError::TooManyPredicates {
                        count: predicates.len(),
                        max: MAX_PREDICATES_PER_COMPOUND,
                    },
                );
            }
            match load_pred_list(reg, predicates) {
                Ok(children) => Ok(Predicate::Or(children)),
                Err(e) => Err(e),
            }
        },
        PredicateConfig::Not { predicate } => match load_predicate(reg, &**predicate) {
            Ok(inner) => Ok(Predicate::Not(Box::new(inner))),
            Err(e) => Err(e),
        },
    }
}

/// Loads a list of predicate configs; the first failure wins.
fn load_pred_list<F: IntoDataInput>(reg: &Registry<F>, pcs: &Vec<PredicateConfig>) -> (r: Result<
    Vec<Predicate<F::Input, CoreMatcher>>,
    MatcherError,
>)
    ensures
        match r {
            Ok(ps) => spec_check_pred_list(reg, pcs@) == Ok::<(), ErrorView>(())
                && pred_list_loaded(ps@, pcs@, reg),
            Err(e) => spec_check_pred_list(reg, pcs@) == Err::<(), ErrorView>(e@),
        },
    decreases pcs@,
{
    let mut out: Vec<Predicate<F::Input, CoreMatcher>> = Vec::new();
    let mut i: usize = 0;
    proof {
        assert(pcs@.skip(0) =~= pcs@);
        assert(pcs@.take(0) =~= Seq::<PredicateConfig>::empty());
    }
    while i < pcs.len()
        invariant
            i <= pcs@.len(),
            out@.len() == i,
            spec_check_pred_list(reg, pcs@) == spec_check_pred_list(reg, pcs@.skip(i as int)),
            pred_list_loaded(out@, pcs@.take(i as int), reg),
        decreases pcs@.len() - i,
    {
        proof {
            assert(pcs@.skip(i as int)[0] == pcs@[i as int]);
            assert(pcs@.skip(i as int).skip(1) =~= pcs@.skip(i + 1));
        }
        match load_predicate(reg, &pcs[i]) {
            Ok(p) => {
                let ghost old_out = out@;
                out.push(p);
                i += 1;
                proof {
                    assert(out@.drop_last() =~= old_out);
                    assert(pcs@.take(i as int).drop_last() =~= pcs@.take(i - 1));
                    assert(pcs@.take(i as int).last() == pcs@[i - 1]);
                }
            },
            Err(e) => {
                return Err(e);
            },
        }
    }
    proof {
        assert(pcs@.skip(i as int) =~= Seq::<PredicateConfig>::empty());
        assert(pcs@.take(i as int) =~= pcs@);
    }
    Ok(out)
}

/// Loads an on-match config: the action is taken as is, a nested matcher
/// is loaded and validated recursively.
fn load_on_match<F: IntoDataInput, A>(reg: &Registry<F>, omc: OnMatchConfig<A>) -> (r: Result<
    OnMatch<F::Input, CoreMatcher, A>,
    MatcherError,
>)
    ensures
        match r {
            Ok(om) => spec_check_on_match(reg, &omc) == Ok::<(), ErrorView>(()) && om_loaded(
                &om,
                &omc,
                reg,
            ) && om_cfg_depth(&omc) <= MAX_DEPTH,
            Err(e) => spec_check_on_match(reg, &omc) == Err::<(), ErrorView>(e@) || (
            e@ matches ErrorView::DepthExceeded { depth, max } && max == MAX_DEPTH && om_cfg_depth(
                &omc,
            ) > MAX_DEPTH),
        },
    decreases omc, 0int,
{
    let ghost omc0 = omc;
    match omc {
        OnMatchConfig::Action { action } => Ok(OnMatch::Action(action)),
        OnMatchConfig::Matcher { matcher } => match load_matcher_boxed(reg, matcher) {
            Ok(m) => Ok(OnMatch::Matcher(m)),
            Err(e) => Err(e),
        },
    }
}

/// Loads a boxed nested matcher config.
fn load_matcher_boxed<F: IntoDataInput, A>(
    reg: &Registry<F>,
    cfg: Box<MatcherConfig<A>>,
) -> (r: Result<Box<Matcher<F::Input, CoreMatcher, A>>, MatcherError>)
    ensures
        match r {
            Ok(m) => spec_check_matcher(reg, &*cfg) == Ok::<(), ErrorView>(()) && matcher_loaded(
                &*m,
                &*cfg,
                reg,
            ) && matcher_cfg_depth(&*cfg) <= MAX_DEPTH,
            Err(e) => spec_check_matcher(reg, &*cfg) == Err::<(), ErrorView>(e@) || (
            e@ matches ErrorView::DepthExceeded { depth, max } && max == MAX_DEPTH
                && matcher_cfg_depth(&*cfg) > MAX_DEPTH),
        },
    decreases *cfg, 1int,
{
    match load_matcher_impl(reg, *cfg) {
        Ok(m) => Ok(Box::new(m)),
        Err(e) => Err(e),
    }
}

/// Loads one field matcher config.
fn load_fm<F: IntoDataInput, A>(reg: &Registry<F>, fmc: FieldMatcherConfig<A>) -> (r: Result<
    FieldMatcher<F::Input, CoreMatcher, A>,
    MatcherError,
>)
    ensures
        match r {
            Ok(fm) => spec_check_fm(reg, &fmc) == Ok::<(), ErrorView>(()) && fm_loaded(
                &fm,
                &fmc,
                reg,
            ) && om_cfg_depth(&fmc.on_match) <= MAX_DEPTH,
            Err(e) => spec_check_fm(reg, &fmc) == Err::<(), ErrorView>(e@) || (
            e@ matches ErrorView::DepthExceeded { depth, max } && max == MAX_DEPTH && fm_cfg_depth(
                &fmc,
            ) > MAX_DEPTH),
        },
    decreases fmc, 0int,
{
    let ghost fmc0 = fmc;
    let FieldMatcherConfig { predicate, on_match } = fmc;
    let p = match load_predicate(reg, &predicate) {
        Ok(p) => p,
        Err(e) => {
            return Err(e);
        },
    };
    let om = match load_on_match(reg, on_match) {
        Ok(om) => om,
        Err(e) => {
            proof {
                assert(fm_cfg_depth(&fmc0) >= om_cfg_depth(&fmc0.on_match));
            }
            return Err(e);
        },
    };
    Ok(FieldMatcher::new(p, om))
}

/// Loads a list of field matcher configs; the first failure wins.
fn load_fm_list<F: IntoDataInput, A>(
    reg: &Registry<F>,
    fmcs: Vec<FieldMatcherConfig<A>>,
) -> (r: Result<Vec<FieldMatcher<F::Input, CoreMatcher, A>>, MatcherError>)
    ensures
        match r {
            Ok(fms) => spec_check_fm_list(reg, fmcs@) == Ok::<(), ErrorView>(())
                && fm_list_loaded(fms@, fmcs@, reg),
            Err(e) => spec_check_fm_list(reg, fmcs@) == Err::<(), ErrorView>(e@) || (
            e@ matches ErrorView::DepthExceeded { depth, max } && max == MAX_DEPTH
                && fm_list_cfg_depth(fmcs@) > MAX_DEPTH),
        },
    decreases fmcs@, 0int,
{
    let ghost orig = fmcs@;
    let mut rest = fmcs;
    let mut out: Vec<FieldMatcher<F::Input, CoreMatcher, A>> = Vec::new();
    proof {
        assert(orig.skip(0) =~= orig);
        assert(orig.take(0) =~= Seq::<FieldMatcherConfig<A>>::empty());
    }
    while rest.len() > 0
        invariant
            orig == fmcs@,
            out@.len() + rest@.len() == orig.len(),
            rest@ == orig.skip(out@.len() as int),
            spec_check_fm_list(reg, orig) == spec_check_fm_list(reg, rest@),
            fm_list_loaded(out@, orig.take(out@.len() as int), reg),
        decreases rest@.len(),
    {
        let ghost i = out@.len() as int;
        proof {
            assert(rest@[0] == orig[i]);
            assert(rest@.skip(1) =~= orig.skip(i + 1));
        }
        let fmc = rest.remove(0);
        proof {
            assert(rest@ =~= orig.skip(i + 1));
            assert(decreases_to!(fmcs@ => fmcs@[i]));
        }
        match load_fm(reg, fmc) {
            Ok(fm) => {
                let ghost old_out = out@;
                out.push(fm);
                proof {
                    assert(out@.drop_last() =~= old_out);
                    assert(orig.take(i + 1).drop_last() =~= orig.take(i));
                    assert(orig.take(i + 1).last() == orig[i]);
                }
            },
            Err(e) => {
                proof {
                    if e@ matches ErrorView::DepthExceeded { depth, max } {
                        lemma_fm_list_cfg_depth_ge(orig, i);
                    }
                }
                return Err(e);
            },
        }
    }
    proof {
        assert(rest@ =~= Seq::<FieldMatcherConfig<A>>::empty());
        assert(orig.take(out@.len() as int) =~= orig);
    }
    Ok(out)
}

/// Loads a matcher config: the width cap, every field matcher, the
/// fallback, then the depth bound on the assembled matcher.
fn load_matcher_impl<F: IntoDataInput, A>(reg: &Registry<F>, config: MatcherConfig<A>) -> (r:
    Result<Matcher<F::Input, CoreMatcher, A>, MatcherError>)
    ensures
        match r {
            Ok(m) => spec_check_matcher(reg, &config) == Ok::<(), ErrorView>(()) && matcher_loaded(
                &m,
                &config,
                reg,
            ) && m.spec_depth() <= MAX_DEPTH && matcher_cfg_depth(&config) <= MAX_DEPTH,
            Err(e) => spec_check_matcher(reg, &config) == Err::<(), ErrorView>(e@) || (
            e@ matches ErrorView::DepthExceeded { depth, max } && max == MAX_DEPTH
                && matcher_cfg_depth(&config) > MAX_DEPTH),
        },
    decreases config, 0int,
{
    let ghost cfg0 = config;
    let MatcherConfig { matchers, on_no_match } = config;
    if matchers.len() > MAX_FIELD_MATCHERS {
        return Err(
            MatcherError::TooManyFieldMatchers { count: matchers.len(), max: MAX_FIELD_MATCHERS },
        );
    }
    let fms = match load_fm_list(reg, matchers) {
        Ok(fms) => fms,
        Err(e) => {
            return Err(e);
        },
    };
    let onm = match on_no_match {
        None => None,
        Some(omc) => match load_on_match(reg, omc) {
            Ok(om) => Some(om),
            Err(e) => {
                return Err(e);
            },
        },
    };
    let m = Matcher::new(fms, onm);
    proof {
        assert(matcher_loaded(&m, &cfg0, reg));
    }
    match m.validate() {
        Ok(_) => {
            proof {
                lemma_matcher_loaded_depth(&m, &cfg0, reg);
            }
            Ok(m)
        },
        Err(e) => {
            proof {
                lemma_matcher_loaded_depth(&m, &cfg0, reg);
            }
            Err(e)
        },
    }
}

impl<F: IntoDataInput> Registry<F> {
    /// Load a matcher from configuration.
    ///
    /// Walks the config tree, resolves inputs and matchers through the
    /// registered factories, validates widths, pattern lengths and type
    /// compatibility, assembles the matcher and enforces the depth bound.
    /// Loading succeeds exactly when every check passes and the configured
    /// tree is within the depth bound.
    pub fn load_matcher<A>(&self, config: MatcherConfig<A>) -> (r: Result<
        Matcher<F::Input, CoreMatcher, A>,
        MatcherError,
    >)
        ensures
            match r {
                Ok(m) => spec_check_matcher(self, &config) == Ok::<(), ErrorView>(())
                    && matcher_loaded(&m, &config, self) && m.spec_depth() <= MAX_DEPTH
                    && matcher_cfg_depth(&config) <= MAX_DEPTH,
                Err(e) => spec_check_matcher(self, &config) == Err::<(), ErrorView>(e@) || (
                e@ matches ErrorView::DepthExceeded { depth, max } && max == MAX_DEPTH
                    && matcher_cfg_depth(&config) > MAX_DEPTH),
            },
    {
        load_matcher_impl(self, config)
    }
}


// ═══════════════════════════════════════════════════════════════════════
// Action registry and typed loading
// ═══════════════════════════════════════════════════════════════════════

/// Builder for an [`ActionRegistry`].
pub struct ActionRegistryBuilder<AF: IntoAction> {
    /// Action factories keyed by type URL.
    pub table: UrlTable<AF>,
}

/// Immutable registry of action factories, keyed by type URL. Used with
/// typed loading, where configured actions are themselves typed configs.
pub struct ActionRegistry<AF: IntoAction> {
    /// Action factories keyed by type URL.
    pub table: UrlTable<AF>,
}

impl<AF: IntoAction> ActionRegistryBuilder<AF> {
    /// The builder's table is well formed.
    pub open spec fn wf(&self) -> bool {
        self.table.wf()
    }

    /// What the builder binds an action type URL to.
    pub open spec fn spec_action(&self, url: Seq<char>) -> Option<AF> {
        self.table.spec_get(url)
    }

    /// Create a new empty action registry builder.
    pub fn new() -> (r: Self)
        ensures
            r.wf(),
            forall|k: Seq<char>| #[trigger] r.spec_action(k) is None,
    {
        ActionRegistryBuilder { table: UrlTable::new() }
    }

    /// Register an action factory under a type URL.
    pub fn action(self, type_url: &str, factory: AF) -> (r: Self)
        requires
            self.wf(),
        ensures
            r.wf(),
            forall|k: Seq<char>|
                #[trigger] r.spec_action(k) == if k == type_url@ {
                    Some(factory)
                } else {
                    self.spec_action(k)
                },
    {
        let mut this = self;
        this.table.insert(type_url.to_owned(), factory);
        this
    }

    /// Freeze the action registry.
    pub fn build(self) -> (r: ActionRegistry<AF>)
        requires
            self.wf(),
        ensures
            r.wf(),
            forall|k: Seq<char>| #[trigger] r.spec_action(k) == self.spec_action(k),
    {
        ActionRegistry { table: self.table }
    }
}

impl<AF: IntoAction> ActionRegistry<AF> {
    /// The registry's table is well formed.
    pub open spec fn wf(&self) -> bool {
        self.table.wf()
    }

    /// What the registry binds an action type URL to.
    pub open spec fn spec_action(&self, url: Seq<char>) -> Option<AF> {
        self.table.spec_get(url)
    }

    /// The registered action type URLs, sorted.
    pub open spec fn spec_action_urls(&self) -> Seq<Seq<char>> {
        self.table.urls.deep_view()
    }

    /// Returns the number of registered action types.
    pub fn len(&self) -> (r: usize)
        ensures
            r == self.spec_action_urls().len(),
    {
        proof {
            assert(self.table.urls.deep_view().len() == self.table.urls@.len());
        }
        self.table.urls.len()
    }

    /// Returns `true` if no action types are registered.
    pub fn is_empty(&self) -> (r: bool)
        ensures
            r == (self.spec_action_urls().len() == 0),
    {
        proof {
            assert(self.table.urls.deep_view().len() == self.table.urls@.len());
        }
        self.table.urls.len() == 0
    }

    /// Returns `true` if the given action type URL is registered.
    pub fn contains(&self, type_url: &str) -> (r: bool)
        ensures
            r == (self.spec_action(type_url@) is Some),
    {
        self.table.get(type_url).is_some()
    }

    /// Returns the registered action type URLs, sorted.
    pub fn type_urls(&self) -> (r: Vec<String>)
        ensures
            r.deep_view() == self.spec_action_urls(),
    {
        clone_string_vec(&self.table.urls)
    }

    /// Resolve a typed action config into an action value.
    pub fn resolve(&self, config: &TypedConfig) -> (r: Result<AF::Action, MatcherError>)
        ensures
            match r {
                Ok(a) => spec_resolve_action(self, config) == Ok::<AF::Action, ErrorView>(a),
                Err(e) => spec_resolve_action(self, config) == Err::<AF::Action, ErrorView>(e@),
            },
    {
        let af = match self.table.get(config.type_url.as_str()) {
            Some(af) => af,
            None => {
                return Err(
                    MatcherError::UnknownTypeUrl {
                        type_url: config.type_url.clone(),
                        registry: "action",
                        available: clone_string_vec(&self.table.urls),
                    },
                );
            },
        };
        af.from_config(&config.config)
    }
}

/// What a typed action config resolves to, or why it is rejected.
pub open spec fn spec_resolve_action<AF: IntoAction>(
    actions: &ActionRegistry<AF>,
    tc: &TypedConfig,
) -> Result<AF::Action, ErrorView> {
    match actions.spec_action(tc.type_url@) {
        None => Err(
            ErrorView::UnknownTypeUrl {
                type_url: tc.type_url@,
                registry: "action"@,
                available: actions.spec_action_urls(),
            },
        ),
        Some(af) => af.spec_from_config(&tc.config),
    }
}

/// The check of a typed on-match config: the action must resolve, a nested
/// matcher is checked recursively.
pub open spec fn spec_check_typed_om<F: IntoDataInput, AF: IntoAction>(
    reg: &Registry<F>,
    actions: &ActionRegistry<AF>,
    omc: &OnMatchConfig<TypedConfig>,
) -> Result<(), ErrorView>
    decreases omc,
{
    match omc {
        OnMatchConfig::Action { action } => match spec_resolve_action(actions, action) {
            Ok(_) => Ok(()),
            Err(e) => Err(e),
        },
        OnMatchConfig::Matcher { matcher } => spec_check_typed_matcher(reg, actions, &**matcher),
    }
}

/// The check of a typed field matcher config.
pub open spec fn spec_check_typed_fm<F: IntoDataInput, AF: IntoAction>(
    reg: &Registry<F>,
    actions: &ActionRegistry<AF>,
    fmc: &FieldMatcherConfig<TypedConfig>,
) -> Result<(), ErrorView>
    decreases fmc,
{
    match spec_check_pred(reg, &fmc.predicate) {
        Err(e) => Err(e),
        Ok(_) => spec_check_typed_om(reg, actions, &fmc.on_match),
    }
}

/// The check of a list of typed field matcher configs.
pub open spec fn spec_check_typed_fm_list<F: IntoDataInput, AF: IntoAction>(
    reg: &Registry<F>,
    actions: &ActionRegistry<AF>,
    fmcs: Seq<FieldMatcherConfig<TypedConfig>>,
) -> Result<(), ErrorView>
    decreases fmcs,
{
    if fmcs.len() == 0 {
        Ok(())
    } else {
        match spec_check_typed_fm(reg, actions, &fmcs[0]) {
            Err(e) => Err(e),
            Ok(_) => spec_check_typed_fm_list(reg, actions, fmcs.skip(1)),
        }
    }
}

/// The check of a typed matcher config.
pub open spec fn spec_check_typed_matcher<F: IntoDataInput, AF: IntoAction>(
    reg: &Registry<F>,
    actions: &ActionRegistry<AF>,
    cfg: &MatcherConfig<TypedConfig>,
) -> Result<(), ErrorView>
    decreases cfg,
{
    if cfg.matchers@.len() > MAX_FIELD_MATCHERS {
        Err(
            ErrorView::TooManyFieldMatchers {
                count: cfg.matchers@.len() as usize,
                max: MAX_FIELD_MATCHERS,
            },
        )
    } else {
        match spec_check_typed_fm_list(reg, actions, cfg.matchers@) {
            Err(e) => Err(e),
            Ok(_) => match &cfg.on_no_match {
                Some(omc) => spec_check_typed_om(reg, actions, omc),
                None => Ok(()),
            },
        }
    }
}

/// The compiled on-match corresponds to its typed config: the action is
/// what the action registry resolves.
pub open spec fn typed_om_loaded<F: IntoDataInput, AF: IntoAction>(
    om: &OnMatch<F::Input, CoreMatcher, AF::Action>,
    omc: &OnMatchConfig<TypedConfig>,
    reg: &Registry<F>,
    actions: &ActionRegistry<AF>,
) -> bool
    decreases omc,
{
    match omc {
        OnMatchConfig::Action { action } => match om {
            OnMatch::Action(a) => spec_resolve_action(actions, action) == Ok::<
                AF::Action,
                ErrorView,
            >(*a),
            _ => false,
        },
        OnMatchConfig::Matcher { matcher } => match om {
            OnMatch::Matcher(n) => typed_matcher_loaded(&**n, &**matcher, reg, actions),
            _ => false,
        },
    }
}

/// The compiled field matcher corresponds to its typed config.
pub open spec fn typed_fm_loaded<F: IntoDataInput, AF: IntoAction>(
    fm: &FieldMatcher<F::Input, CoreMatcher, AF::Action>,
    fmc: &FieldMatcherConfig<TypedConfig>,
    reg: &Registry<F>,
    actions: &ActionRegistry<AF>,
) -> bool
    decreases fmc,
{
    pred_loaded(&fm.predicate, &fmc.predicate, reg) && typed_om_loaded(
        &fm.on_match,
        &fmc.on_match,
        reg,
        actions,
    )
}

/// Pairwise correspondence of compiled field matchers and typed configs.
pub open spec fn typed_fm_list_loaded<F: IntoDataInput, AF: IntoAction>(
    fms: Seq<FieldMatcher<F::Input, CoreMatcher, AF::Action>>,
    fmcs: Seq<FieldMatcherConfig<TypedConfig>>,
    reg: &Registry<F>,
    actions: &ActionRegistry<AF>,
) -> bool
    decreases fmcs,
{
    if fmcs.len() == 0 {
        fms.len() == 0
    } else {
        fms.len() == fmcs.len() && typed_fm_loaded(&fms.last(), &fmcs.last(), reg, actions)
            && typed_fm_list_loaded(fms.drop_last(), fmcs.drop_last(), reg, actions)
    }
}

/// The compiled matcher corresponds to its typed config.
pub open spec fn typed_matcher_loaded<F: IntoDataInput, AF: IntoAction>(
    m: &Matcher<F::Input, CoreMatcher, AF::Action>,
    cfg: &MatcherConfig<TypedConfig>,
    reg: &Registry<F>,
    actions: &ActionRegistry<AF>,
) -> bool
    decreases cfg,
{
    typed_fm_list_loaded(m.matcher_list@, cfg.matchers@, reg, actions) && (match (
        &m.on_no_match,
        &cfg.on_no_match,
    ) {
        (Some(om), Some(omc)) => typed_om_loaded(om, omc, reg, actions),
        (None, None) => true,
        _ => false,
    })
}

/// A matcher compiled from a typed config has exactly the config's depth.
pub proof fn lemma_typed_om_loaded_depth<F: IntoDataInput, AF: IntoAction>(
    om: &OnMatch<F::Input, CoreMatcher, AF::Action>,
    omc: &OnMatchConfig<TypedConfig>,
    reg: &Registry<F>,
    actions: &ActionRegistry<AF>,
)
    requires
        typed_om_loaded(om, omc, reg, actions),
    ensures
        om.spec_nested_depth() == om_cfg_depth(omc),
    decreases omc,
{
    match omc {
        OnMatchConfig::Action { .. } => (),
        OnMatchConfig::Matcher { matcher } => {
            if let OnMatch::Matcher(n) = om {
                lemma_typed_matcher_loaded_depth(&**n, &**matcher, reg, actions);
            }
        },
    }
}

/// A field matcher compiled from a typed config has exactly the config's
/// depth.
pub proof fn lemma_typed_fm_loaded_depth<F: IntoDataInput, AF: IntoAction>(
    fm: &FieldMatcher<F::Input, CoreMatcher, AF::Action>,
    fmc: &FieldMatcherConfig<TypedConfig>,
    reg: &Registry<F>,
    actions: &ActionRegistry<AF>,
)
    requires
        typed_fm_loaded(fm, fmc, reg, actions),
    ensures
        fm.spec_depth() == fm_cfg_depth(fmc),
    decreases fmc,
{
    lemma_pred_loaded_depth(&fm.predicate, &fmc.predicate, reg);
    lemma_typed_om_loaded_depth(&fm.on_match, &fmc.on_match, reg, actions);
}

/// Pairwise compiled field matchers have exactly their typed configs'
/// depths.
pub proof fn lemma_typed_fm_list_loaded_depth<F: IntoDataInput, AF: IntoAction>(
    fms: Seq<FieldMatcher<F::Input, CoreMatcher, AF::Action>>,
    fmcs: Seq<FieldMatcherConfig<TypedConfig>>,
    reg: &Registry<F>,
    actions: &ActionRegistry<AF>,
)
    requires
        typed_fm_list_loaded(fms, fmcs, reg, actions),
    ensures
        spec_depth_fm_list(fms) == fm_list_cfg_depth(fmcs),
    decreases fmcs,
{
    if fmcs.len() > 0 {
        lemma_typed_fm_loaded_depth(&fms.last(), &fmcs.last(), reg, actions);
        lemma_typed_fm_list_loaded_depth(fms.drop_last(), fmcs.drop_last(), reg, actions);
    }
}

/// A matcher compiled from a typed config has exactly the config's depth.
pub proof fn lemma_typed_matcher_loaded_depth<F: IntoDataInput, AF: IntoAction>(
    m: &Matcher<F::Input, CoreMatcher, AF::Action>,
    cfg: &MatcherConfig<TypedConfig>,
    reg: &Registry<F>,
    actions: &ActionRegistry<AF>,
)
    requires
        typed_matcher_loaded(m, cfg, reg, actions),
    ensures
        m.spec_depth() == matcher_cfg_depth(cfg),
    decreases cfg,
{
    lemma_typed_fm_list_loaded_depth(m.matcher_list@, cfg.matchers@, reg, actions);
    match (&m.on_no_match, &cfg.on_no_match) {
        (Some(om), Some(omc)) => lemma_typed_om_loaded_depth(om, omc, reg, actions),
        _ => (),
    }
}

/// Loads a typed on-match config.
fn load_typed_om<F: IntoDataInput, AF: IntoAction>(
    reg: &Registry<F>,
    actions: &ActionRegistry<AF>,
    omc: OnMatchConfig<TypedConfig>,
) -> (r: Result<OnMatch<F::Input, CoreMatcher, AF::Action>, MatcherError>)
    ensures
        match r {
            Ok(om) => spec_check_typed_om(reg, actions, &omc) == Ok::<(), ErrorView>(())
                && typed_om_loaded(&om, &omc, reg, actions) && om_cfg_depth(&omc) <= MAX_DEPTH,
            Err(e) => spec_check_typed_om(reg, actions, &omc) == Err::<(), ErrorView>(e@) || (
            e@ matches ErrorView::DepthExceeded { depth, max } && max == MAX_DEPTH && om_cfg_depth(
                &omc,
            ) > MAX_DEPTH),
        },
    decreases omc, 0int,
{
    match omc {
        OnMatchConfig::Action { action } => match actions.resolve(&action) {
            Ok(a) => Ok(OnMatch::Action(a)),
            Err(e) => Err(e),
        },
        OnMatchConfig::Matcher { matcher } => match load_typed_matcher_boxed(
            reg,
            actions,
            matcher,
        ) {
            Ok(m) => Ok(OnMatch::Matcher(m)),
            Err(e) => Err(e),
        },
    }
}

/// Loads a boxed nested typed matcher config.
fn load_typed_matcher_boxed<F: IntoDataInput, AF: IntoAction>(
    reg: &Registry<F>,
    actions: &ActionRegistry<AF>,
    cfg: Box<MatcherConfig<TypedConfig>>,
) -> (r: Result<Box<Matcher<F::Input, CoreMatcher, AF::Action>>, MatcherError>)
    ensures
        match r {
            Ok(m) => spec_check_typed_matcher(reg, actions, &*cfg) == Ok::<(), ErrorView>(())
                && typed_matcher_loaded(&*m, &*cfg, reg, actions) && matcher_cfg_depth(&*cfg)
                <= MAX_DEPTH,
            Err(e) => spec_check_typed_matcher(reg, actions, &*cfg) == Err::<(), ErrorView>(e@)
                || (e@ matches ErrorView::DepthExceeded { depth, max } && max == MAX_DEPTH
                && matcher_cfg_depth(&*cfg) > MAX_DEPTH),
        },
    decreases *cfg, 1int,
{
    match load_typed_matcher_impl(reg, actions, *cfg) {
        Ok(m) => Ok(Box::new(m)),
        Err(e) => Err(e),
    }
}

/// Loads one typed field matcher config.
fn load_typed_fm<F: IntoDataInput, AF: IntoAction>(
    reg: &Registry<F>,
    actions: &ActionRegistry<AF>,
    fmc: FieldMatcherConfig<TypedConfig>,
) -> (r: Result<FieldMatcher<F::Input, CoreMatcher, AF::Action>, MatcherError>)
    ensures
        match r {
            Ok(fm) => spec_check_typed_fm(reg, actions, &fmc) == Ok::<(), ErrorView>(())
                && typed_fm_loaded(&fm, &fmc, reg, actions) && om_cfg_depth(&fmc.on_match)
                <= MAX_DEPTH,
            Err(e) => spec_check_typed_fm(reg, actions, &fmc) == Err::<(), ErrorView>(e@) || (
            e@ matches ErrorView::DepthExceeded { depth, max } && max == MAX_DEPTH && fm_cfg_depth(
                &fmc,
            ) > MAX_DEPTH),
        },
    decreases fmc, 0int,
{
    let ghost fmc0 = fmc;
    let FieldMatcherConfig { predicate, on_match } = fmc;
    let p = match load_predicate(reg, &predicate) {
        Ok(p) => p,
        Err(e) => {
            return Err(e);
        },
    };
    let om = match load_typed_om(reg, actions, on_match) {
        Ok(om) => om,
        Err(e) => {
            proof {
                assert(fm_cfg_depth(&fmc0) >= om_cfg_depth(&fmc0.on_match));
            }
            return Err(e);
        },
    };
    Ok(FieldMatcher::new(p, om))
}

/// Loads a list of typed field matcher configs; the first failure wins.
fn load_typed_fm_list<F: IntoDataInput, AF: IntoAction>(
    reg: &Registry<F>,
    actions: &ActionRegistry<AF>,
    fmcs: Vec<FieldMatcherConfig<TypedConfig>>,
) -> (r: Result<Vec<FieldMatcher<F::Input, CoreMatcher, AF::Action>>, MatcherError>)
    ensures
        match r {
            Ok(fms) => spec_check_typed_fm_list(reg, actions, fmcs@) == Ok::<(), ErrorView>(())
                && typed_fm_list_loaded(fms@, fmcs@, reg, actions),
            Err(e) => spec_check_typed_fm_list(reg, actions, fmcs@) == Err::<(), ErrorView>(e@)
                || (e@ matches ErrorView::DepthExceeded { depth, max } && max == MAX_DEPTH
                && fm_list_cfg_depth(fmcs@) > MAX_DEPTH),
        },
    decreases fmcs@, 0int,
{
    let ghost orig = fmcs@;
    let mut rest = fmcs;
    let mut out: Vec<FieldMatcher<F::Input, CoreMatcher, AF::Action>> = Vec::new();
    proof {
        assert(orig.skip(0) =~= orig);
        assert(orig.take(0) =~= Seq::<FieldMatcherConfig<TypedConfig>>::empty());
    }
    while rest.len() > 0
        invariant
            orig == fmcs@,
            out@.len() + rest@.len() == orig.len(),
            rest@ == orig.skip(out@.len() as int),
            spec_check_typed_fm_list(reg, actions, orig) == spec_check_typed_fm_list(
                reg,
                actions,
                rest@,
            ),
            typed_fm_list_loaded(out@, orig.take(out@.len() as int), reg, actions),
        decreases rest@.len(),
    {
        let ghost i = out@.len() as int;
        proof {
            assert(rest@[0] == orig[i]);
            assert(rest@.skip(1) =~= orig.skip(i + 1));
        }
        let fmc = rest.remove(0);
        proof {
            assert(rest@ =~= orig.skip(i + 1));
            assert(decreases_to!(fmcs@ => fmcs@[i]));
        }
        match load_typed_fm(reg, actions, fmc) {
            Ok(fm) => {
                let ghost old_out = out@;
                out.push(fm);
                proof {
                    assert(out@.drop_last() =~= old_out);
                    assert(orig.take(i + 1).drop_last() =~= orig.take(i));
                    assert(orig.take(i + 1).last() == orig[i]);
                }
            },
            Err(e) => {
                proof {
                    if e@ matches ErrorView::DepthExceeded { depth, max } {
                        lemma_fm_list_cfg_depth_ge(orig, i);
                    }
                }
                return Err(e);
            },
        }
    }
    proof {
        assert(rest@ =~= Seq::<FieldMatcherConfig<TypedConfig>>::empty());
        assert(orig.take(out@.len() as int) =~= orig);
    }
    Ok(out)
}

/// Loads a typed matcher config.
fn load_typed_matcher_impl<F: IntoDataInput, AF: IntoAction>(
    reg: &Registry<F>,
    actions: &ActionRegistry<AF>,
    config: MatcherConfig<TypedConfig>,
) -> (r: Result<Matcher<F::Input, CoreMatcher, AF::Action>, MatcherError>)
    ensures
        match r {
            Ok(m) => spec_check_typed_matcher(reg, actions, &config) == Ok::<(), ErrorView>(())
                && typed_matcher_loaded(&m, &config, reg, actions) && m.spec_depth() <= MAX_DEPTH
                && matcher_cfg_depth(&config) <= MAX_DEPTH,
            Err(e) => spec_check_typed_matcher(reg, actions, &config) == Err::<(), ErrorView>(e@)
                || (e@ matches ErrorView::DepthExceeded { depth, max } && max == MAX_DEPTH
                && matcher_cfg_depth(&config) > MAX_DEPTH),
        },
    decreases config, 0int,
{
    let ghost cfg0 = config;
    let MatcherConfig { matchers, on_no_match } = config;
    if matchers.len() > MAX_FIELD_MATCHERS {
        return Err(
            MatcherError::TooManyFieldMatchers { count: matchers.len(), max: MAX_FIELD_MATCHERS },
        );
    }
    let fms = match load_typed_fm_list(reg, actions, matchers) {
        Ok(fms) => fms,
        Err(e) => {
            return Err(e);
        },
    };
    let onm = match on_no_match {
        None => None,
        Some(omc) => match load_typed_om(reg, actions, omc) {
            Ok(om) => Some(om),
            Err(e) => {
                return Err(e);
            },
        },
    };
    let m = Matcher::new(fms, onm);
    proof {
        assert(typed_matcher_loaded(&m, &cfg0, reg, actions));
    }
    match m.validate() {
        Ok(_) => {
            proof {
                lemma_typed_matcher_loaded_depth(&m, &cfg0, reg, actions);
            }
            Ok(m)
        },
        Err(e) => {
            proof {
                lemma_typed_matcher_loaded_depth(&m, &cfg0, reg, actions);
            }
            Err(e)
        },
    }
}

impl<F: IntoDataInput> Registry<F> {
    /// Load a matcher from configuration whose actions are typed configs,
    /// resolved through the given action registry.
    pub fn load_typed_matcher<AF: IntoAction>(
        &self,
        config: MatcherConfig<TypedConfig>,
        actions: &ActionRegistry<AF>,
    ) -> (r: Result<Matcher<F::Input, CoreMatcher, AF::Action>, MatcherError>)
        ensures
            match r {
                Ok(m) => spec_check_typed_matcher(self, actions, &config) == Ok::<(), ErrorView>(
                    (),
                ) && typed_matcher_loaded(&m, &config, self, actions) && m.spec_depth()
                    <= MAX_DEPTH && matcher_cfg_depth(&config) <= MAX_DEPTH,
                Err(e) => spec_check_typed_matcher(self, actions, &config) == Err::<
                    (),
                    ErrorView,
                >(e@) || (e@ matches ErrorView::DepthExceeded { depth, max } && max == MAX_DEPTH
                    && matcher_cfg_depth(&config) > MAX_DEPTH),
            },
    {
        load_typed_matcher_impl(self, actions, config)
    }
}

/// Strips the well-known type-URL host prefix, leaving bare dotted type
/// names untouched.
pub fn strip_type_prefix(url: &str) -> (r: &str)
    ensures
        "type.googleapis.com/"@.is_prefix_of(url@) ==> r@ == url@.skip(
            "type.googleapis.com/"@.len() as int,
        ),
        !"type.googleapis.com/"@.is_prefix_of(url@) ==> r@ == url@,
{
    let prefix = "type.googleapis.com/";
    if crate::strings::str_starts_with(url, prefix, false) {
        let plen = prefix.unicode_len();
        let ulen = url.unicode_len();
        let r = url.substring_char(plen, ulen);
        proof {
            assert(url@.subrange(plen as int, ulen as int) =~= url@.skip(plen as int));
        }
        r
    } else {
        url
    }
}


// ═══════════════════════════════════════════════════════════════════════
// The registry round trip
// ═══════════════════════════════════════════════════════════════════════

/// Pairwise correspondence pins every element.
pub proof fn lemma_pred_list_loaded_index<F: IntoDataInput>(
    ps: Seq<Predicate<F::Input, CoreMatcher>>,
    pcs: Seq<PredicateConfig>,
    reg: &Registry<F>,
    i: int,
)
    requires
        pred_list_loaded(ps, pcs, reg),
        0 <= i < pcs.len(),
    ensures
        ps.len() == pcs.len(),
        pred_loaded(&ps[i], &pcs[i], reg),
    decreases pcs,
{
    if i == pcs.len() - 1 {
    } else {
        assert(ps.drop_last()[i] == ps[i]);
        assert(pcs.drop_last()[i] == pcs[i]);
        lemma_pred_list_loaded_index(ps.drop_last(), pcs.drop_last(), reg, i);
    }
}

/// Pairwise correspondence pins every field matcher.
pub proof fn lemma_fm_list_loaded_index<F: IntoDataInput, A>(
    fms: Seq<FieldMatcher<F::Input, CoreMatcher, A>>,
    fmcs: Seq<FieldMatcherConfig<A>>,
    reg: &Registry<F>,
    i: int,
)
    requires
        fm_list_loaded(fms, fmcs, reg),
        0 <= i < fmcs.len(),
    ensures
        fms.len() == fmcs.len(),
        fm_loaded(&fms[i], &fmcs[i], reg),
    decreases fmcs,
{
    if i == fmcs.len() - 1 {
    } else {
        assert(fms.drop_last()[i] == fms[i]);
        assert(fmcs.drop_last()[i] == fmcs[i]);
        lemma_fm_list_loaded_index(fms.drop_last(), fmcs.drop_last(), reg, i);
    }
}

/// Two predicates compiled from the same config under the same registry
/// evaluate identically.
pub proof fn lemma_loaded_unique_pred<F: IntoDataInput>(
    p1: &Predicate<F::Input, CoreMatcher>,
    p2: &Predicate<F::Input, CoreMatcher>,
    pc: &PredicateConfig,
    reg: &Registry<F>,
    ctx: &<F::Input as DataInput>::Ctx,
)
    requires
        pred_loaded(p1, pc, reg),
        pred_loaded(p2, pc, reg),
    ensures
        p1.spec_evaluate(ctx) == p2.spec_evaluate(ctx),
    decreases pc,
{
    reveal_with_fuel(Predicate::spec_evaluate, 2);
    reveal_with_fuel(pred_loaded, 2);
    reveal_with_fuel(pred_list_loaded, 2);
    match pc {
        PredicateConfig::Single(spc) => {
            if let (Predicate::Single(sp1), Predicate::Single(sp2)) = (p1, p2) {
                assert(sp1.input == sp2.input);
                let d = sp1.input.spec_get(ctx);
                assert(sp1.matcher.spec_matches(&d) == sp2.matcher.spec_matches(&d));
                assert(sp1.spec_evaluate(ctx) == sp2.spec_evaluate(ctx));
                assert(p1.spec_evaluate(ctx) == sp1.spec_evaluate(ctx));
                assert(p2.spec_evaluate(ctx) == sp2.spec_evaluate(ctx));
            } else {
                assert(false);
            }
        },
        PredicateConfig::And { predicates } => {
            if let (Predicate::And(ps1), Predicate::And(ps2)) = (p1, p2) {
                let pcs = predicates@;
                assert forall|i: int| 0 <= i < pcs.len() implies (#[trigger] ps1@[i]).spec_evaluate(
                    ctx,
                ) == ps2@[i].spec_evaluate(ctx) by {
                    lemma_pred_list_loaded_index(ps1@, pcs, reg, i);
                    lemma_pred_list_loaded_index(ps2@, pcs, reg, i);
                    lemma_loaded_unique_pred(&ps1@[i], &ps2@[i], &pcs[i], reg, ctx);
                }
                if pcs.len() > 0 {
                    lemma_pred_list_loaded_index(ps1@, pcs, reg, 0int);
                    lemma_pred_list_loaded_index(ps2@, pcs, reg, 0int);
                } else {
                    assert(ps1@.len() == 0 && ps2@.len() == 0);
                }
                crate::predicate::lemma_eval_all_fold(ps1@, ctx);
                crate::predicate::lemma_eval_all_fold(ps2@, ctx);
                assert(crate::predicate::spec_eval_all(ps1@, ctx)
                    == crate::predicate::spec_eval_all(ps2@, ctx)) by {
                    if crate::predicate::spec_eval_all(ps1@, ctx) {
                        assert forall|k: int|
                            0 <= k < ps2@.len() implies #[trigger] ps2@[k].spec_evaluate(ctx) by {
                            assert(ps1@[k].spec_evaluate(ctx));
                        }
                    }
                    if crate::predicate::spec_eval_all(ps2@, ctx) {
                        assert forall|k: int|
                            0 <= k < ps1@.len() implies #[trigger] ps1@[k].spec_evaluate(ctx) by {
                            assert(ps2@[k].spec_evaluate(ctx));
                            assert(ps1@[k].spec_evaluate(ctx) == ps2@[k].spec_evaluate(ctx));
                        }
                    }
                }
                assert(p1.spec_evaluate(ctx) == crate::predicate::spec_eval_all(ps1@, ctx));
                assert(p2.spec_evaluate(ctx) == crate::predicate::spec_eval_all(ps2@, ctx));
            } else {
                assert(false);
            }
        },
        PredicateConfig::Or { predicates } => {
            if let (Predicate::Or(ps1), Predicate::Or(ps2)) = (p1, p2) {
                let pcs = predicates@;
                assert forall|i: int| 0 <= i < pcs.len() implies (#[trigger] ps1@[i]).spec_evaluate(
                    ctx,
                ) == ps2@[i].spec_evaluate(ctx) by {
                    lemma_pred_list_loaded_index(ps1@, pcs, reg, i);
                    lemma_pred_list_loaded_index(ps2@, pcs, reg, i);
                    lemma_loaded_unique_pred(&ps1@[i], &ps2@[i], &pcs[i], reg, ctx);
                }
                if pcs.len() > 0 {
                    lemma_pred_list_loaded_index(ps1@, pcs, reg, 0int);
                    lemma_pred_list_loaded_index(ps2@, pcs, reg, 0int);
                } else {
                    assert(ps1@.len() == 0 && ps2@.len() == 0);
                }
                crate::predicate::lemma_eval_any_fold(ps1@, ctx);
                crate::predicate::lemma_eval_any_fold(ps2@, ctx);
                if pcs.len() > 0 {
                    if p1.spec_evaluate(ctx) {
                        let k = choose|k: int|
                            0 <= k < ps1@.len() && #[trigger] ps1@[k].spec_evaluate(ctx);
                        assert(ps2@[k].spec_evaluate(ctx));
                    }
                    if p2.spec_evaluate(ctx) {
                        let k = choose|k: int|
                            0 <= k < ps2@.len() && #[trigger] ps2@[k].spec_evaluate(ctx);
                        assert(ps1@[k].spec_evaluate(ctx));
                    }
                }
                assert(crate::predicate::spec_eval_any(ps1@, ctx) == crate::predicate::spec_eval_any(ps2@, ctx));
                assert(p1.spec_evaluate(ctx) == crate::predicate::spec_eval_any(ps1@, ctx));
                assert(p2.spec_evaluate(ctx) == crate::predicate::spec_eval_any(ps2@, ctx));
            } else {
                assert(false);
            }
        },
        PredicateConfig::Not { predicate } => {
            if let (Predicate::Not(q1), Predicate::Not(q2)) = (p1, p2) {
                lemma_loaded_unique_pred(&**q1, &**q2, &**predicate, reg, ctx);
                assert(p1.spec_evaluate(ctx) == !q1.spec_evaluate(ctx));
                assert(p2.spec_evaluate(ctx) == !q2.spec_evaluate(ctx));
            } else {
                assert(false);
            }
        },
    }
}

/// Two on-matches compiled from the same config resolve identically.
pub proof fn lemma_loaded_unique_om<F: IntoDataInput, A>(
    om1: &OnMatch<F::Input, CoreMatcher, A>,
    om2: &OnMatch<F::Input, CoreMatcher, A>,
    omc: &OnMatchConfig<A>,
    reg: &Registry<F>,
    ctx: &<F::Input as DataInput>::Ctx,
)
    requires
        om_loaded(om1, omc, reg),
        om_loaded(om2, omc, reg),
    ensures
        om1.spec_resolve(ctx) == om2.spec_resolve(ctx),
    decreases omc,
{
    match omc {
        OnMatchConfig::Action { .. } => (),
        OnMatchConfig::Matcher { matcher } => {
            if let (OnMatch::Matcher(n1), OnMatch::Matcher(n2)) = (om1, om2) {
                lemma_loaded_unique_matcher(&**n1, &**n2, &**matcher, reg, ctx);
            }
        },
    }
}

/// Scans over lists with pointwise equal resolutions are equal.
pub proof fn lemma_eval_list_pointwise<I: DataInput, M: InputMatcher, A>(
    fms1: Seq<FieldMatcher<I, M, A>>,
    fms2: Seq<FieldMatcher<I, M, A>>,
    ctx: &I::Ctx,
)
    requires
        fms1.len() == fms2.len(),
        forall|i: int|
            0 <= i < fms1.len() ==> (#[trigger] fms1[i]).spec_resolution(ctx) == fms2[
                i
            ].spec_resolution(ctx),
    ensures
        crate::matcher::spec_eval_list(fms1, ctx) == crate::matcher::spec_eval_list(fms2, ctx),
    decreases fms1,
{
    if fms1.len() > 0 {
        assert(fms1[0].spec_resolution(ctx) == fms2[0].spec_resolution(ctx));
        assert forall|i: int|
            0 <= i < fms1.skip(1).len() implies (#[trigger] fms1.skip(1)[i]).spec_resolution(ctx)
            == fms2.skip(1)[i].spec_resolution(ctx) by {
            assert(fms1.skip(1)[i] == fms1[i + 1]);
            assert(fms2.skip(1)[i] == fms2[i + 1]);
            assert(fms1[i + 1].spec_resolution(ctx) == fms2[i + 1].spec_resolution(ctx));
        }
        lemma_eval_list_pointwise(fms1.skip(1), fms2.skip(1), ctx);
    }
}

/// Two matchers compiled from the same config under the same registry
/// evaluate identically: the registry round trip preserves semantics.
pub proof fn lemma_loaded_unique_matcher<F: IntoDataInput, A>(
    m1: &Matcher<F::Input, CoreMatcher, A>,
    m2: &Matcher<F::Input, CoreMatcher, A>,
    cfg: &MatcherConfig<A>,
    reg: &Registry<F>,
    ctx: &<F::Input as DataInput>::Ctx,
)
    requires
        matcher_loaded(m1, cfg, reg),
        matcher_loaded(m2, cfg, reg),
    ensures
        m1.spec_evaluate(ctx) == m2.spec_evaluate(ctx),
    decreases cfg,
{
    let fmcs = cfg.matchers@;
    assert forall|i: int|
        0 <= i < m1.matcher_list@.len() implies (#[trigger] m1.matcher_list@[i]).spec_resolution(
        ctx,
    ) == m2.matcher_list@[i].spec_resolution(ctx) by {
        lemma_fm_list_loaded_index(m1.matcher_list@, fmcs, reg, i);
        lemma_fm_list_loaded_index(m2.matcher_list@, fmcs, reg, i);
        let fm1 = m1.matcher_list@[i];
        let fm2 = m2.matcher_list@[i];
        lemma_loaded_unique_pred(&fm1.predicate, &fm2.predicate, &fmcs[i].predicate, reg, ctx);
        lemma_loaded_unique_om(&fm1.on_match, &fm2.on_match, &fmcs[i].on_match, reg, ctx);
    }
    if fmcs.len() > 0 {
        lemma_fm_list_loaded_index(m1.matcher_list@, fmcs, reg, 0int);
        lemma_fm_list_loaded_index(m2.matcher_list@, fmcs, reg, 0int);
    }
    lemma_eval_list_pointwise(m1.matcher_list@, m2.matcher_list@, ctx);
    match (&m1.on_no_match, &m2.on_no_match, &cfg.on_no_match) {
        (Some(om1), Some(om2), Some(omc)) => lemma_loaded_unique_om(om1, om2, omc, reg, ctx),
        _ => (),
    }
}


/// Unknown-type-URL errors are self-correcting: when the input URL of a
/// single-predicate config is not registered, the check reports exactly
/// that URL, the registry discriminant, and the full list of registered
/// input URLs, in sorted order.
pub proof fn lemma_unknown_url_self_correcting<F: IntoDataInput>(
    reg: &Registry<F>,
    spc: &SinglePredicateConfig,
)
    requires
        reg.wf(),
        reg.spec_input(spc.input.type_url@) is None,
    ensures
        spec_check_single(reg, spc) == Err::<(), ErrorView>(
            ErrorView::UnknownTypeUrl {
                type_url: spc.input.type_url@,
                registry: "input"@,
                available: reg.spec_input_urls(),
            },
        ),
        forall|i: int|
            0 <= i < reg.spec_input_urls().len() - 1 ==> crate::strings::lex_le(
                #[trigger] reg.spec_input_urls()[i],
                reg.spec_input_urls()[i + 1],
            ),
{
    let urls = reg.spec_input_urls();
    assert forall|i: int|
        0 <= i < urls.len() - 1 implies crate::strings::lex_le(
        #[trigger] urls[i],
        urls[i + 1],
    ) by {
        assert(urls[i] == reg.inputs.urls@[i]@);
        assert(urls[i + 1] == reg.inputs.urls@[i + 1]@);
        assert(reg.inputs.urls@[i]@ == reg.inputs.entries@[i].0@);
        assert(reg.inputs.urls@[i + 1]@ == reg.inputs.entries@[i + 1].0@);
    }
}

} // verus!
