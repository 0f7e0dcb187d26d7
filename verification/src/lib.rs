//! A unified matcher engine: declarative match configurations compile into
//! immutable evaluation trees, which are evaluated against domain-specific
//! contexts to produce actions.
//!
//! The engine follows first-match-wins semantics with nested-matcher
//! fallthrough, and validates width and depth bounds at load time, never at
//! evaluation time.

use vstd::prelude::*;

pub mod args;
pub mod claude;
mod compiled_regex;
mod config;
mod data_input;
mod errors;
mod field_matcher;
pub mod http;
mod input_matcher;
mod kvmap;
mod matcher;
mod matcher_tree;
mod matching_data;
mod on_match;
mod predicate;
mod radix_tree;
mod registry;
mod string_match;
mod strings;
pub mod testing;
mod trace;
mod url_table;

pub use config::{
    ConfigValue, FieldMatcherConfig, MatcherConfig, OnMatchConfig, PredicateConfig,
    SinglePredicateConfig, TypedConfig, UnitConfig, ValueMatchConfig,
};
pub use data_input::DataInput;
pub use errors::{ErrorView, MatcherError};
pub use field_matcher::FieldMatcher;
pub use kvmap::KvMap;
pub use matcher::Matcher;
pub use matcher_tree::MatcherTree;
pub use on_match::OnMatch;
pub use compiled_regex::CompiledRegex;
pub use input_matcher::{
    BoolMatcher, ContainsMatcher, CoreMatcher, ExactMatcher, InputMatcher, PrefixMatcher,
    StringMatcher, SuffixMatcher,
};
pub use matching_data::MatchingData;
pub use predicate::{Predicate, SinglePredicate};
pub use radix_tree::RadixTree;
pub use registry::{
    ActionRegistry, ActionRegistryBuilder, BoolMatcherConfig, CoreMatcherFactory, IntoAction,
    IntoDataInput, IntoInputMatcher, Registry, RegistryBuilder, StringMatchType,
    StringMatcherConfig, register_core_matchers, strip_type_prefix,
};
pub use string_match::StringMatchSpec;
pub use trace::{EvalStep, EvalTrace, OnMatchTrace, PredicateTrace};
pub use url_table::UrlTable;

verus! {

/// Maximum allowed depth for nested matchers and predicates.
pub const MAX_DEPTH: usize = 32;

/// Maximum number of field matchers in a single matcher.
pub const MAX_FIELD_MATCHERS: usize = 256;

/// Maximum number of children in a single `And` or `Or` compound predicate.
pub const MAX_PREDICATES_PER_COMPOUND: usize = 256;

/// Maximum length, in characters, for non-regex string match patterns.
pub const MAX_PATTERN_LENGTH: usize = 8192;

/// Maximum length, in characters, for regex patterns.
pub const MAX_REGEX_PATTERN_LENGTH: usize = 4096;

} // verus!
