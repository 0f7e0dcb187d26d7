//! Config types for generic matcher construction.
//!
//! These types mirror the runtime matcher types but carry declarative data:
//! the registry walks them and builds a compiled matcher. Configuration
//! payloads for extension types are carried as [`ConfigValue`] trees, the
//! library's own JSON-shaped value type; the front end converts whatever
//! document format it parses into these values.

use vstd::prelude::*;

verus! {

use crate::string_match::StringMatchSpec;
use crate::strings::str_eq;

/// A JSON-shaped configuration value.
#[derive(Debug)]
pub enum ConfigValue {
    /// No value.
    Null,
    /// A boolean.
    Bool(bool),
    /// An integer.
    Int(i64),
    /// A string.
    Str(String),
    /// An ordered list of values.
    List(Vec<ConfigValue>),
    /// An object: ordered fields, each a named value.
    Object(Vec<(String, ConfigValue)>),
}

/// The value of the first field named `key`, if any.
pub open spec fn spec_field(fields: Seq<(String, ConfigValue)>, key: Seq<char>) -> Option<
    ConfigValue,
>
    decreases fields,
{
    if fields.len() == 0 {
        None
    } else if fields[0].0@ == key {
        Some(fields[0].1)
    } else {
        spec_field(fields.skip(1), key)
    }
}

impl ConfigValue {
    /// The value of the first field named `key`, when this is an object
    /// that has one.
    pub open spec fn spec_get(&self, key: Seq<char>) -> Option<ConfigValue> {
        match self {
            ConfigValue::Object(fields) => spec_field(fields@, key),
            _ => None,
        }
    }

    /// Look up a field by name in an object value.
    pub fn get(&self, key: &str) -> (r: Option<&ConfigValue>)
        ensures
            match r {
                Some(v) => self.spec_get(key@) == Some(*v),
                None => self.spec_get(key@) is None,
            },
    {
        let fields = match self {
            ConfigValue::Object(fields) => fields,
            _ => { return None; },
        };
        let mut i: usize = 0;
        proof {
            assert(fields@.skip(0) =~= fields@);
            assert(self.spec_get(key@) == spec_field(fields@, key@));
        }
        while i < fields.len()
            invariant
                i <= fields@.len(),
                self.spec_get(key@) == spec_field(fields@, key@),
                spec_field(fields@, key@) == spec_field(fields@.skip(i as int), key@),
            decreases fields@.len() - i,
        {
            proof {
                assert(fields@.skip(i as int)[0] == fields@[i as int]);
                assert(fields@.skip(i as int).skip(1) =~= fields@.skip(i + 1));
            }
            if str_eq(fields[i].0.as_str(), key) {
                proof {
                    assert(spec_field(fields@.skip(i as int), key@) == Some(fields@[i as int].1));
                }
                return Some(&fields[i].1);
            }
            i += 1;
        }
        proof {
            assert(fields@.skip(i as int) =~= Seq::<(String, ConfigValue)>::empty());
        }
        None
    }

    /// The string carried by this value, if it is a string.
    pub fn as_str(&self) -> (r: Option<&str>)
        ensures
            match r {
                Some(s) => self matches ConfigValue::Str(t) && s@ == t@,
                None => !(self is Str),
            },
    {
        match self {
            ConfigValue::Str(s) => Some(s.as_str()),
            _ => None,
        }
    }

    /// The string carried by this value, if it is a string.
    pub fn as_string(&self) -> (r: Option<&String>)
        ensures
            match r {
                Some(s) => self == ConfigValue::Str(*s),
                None => !(self is Str),
            },
    {
        match self {
            ConfigValue::Str(s) => Some(s),
            _ => None,
        }
    }

    /// The boolean carried by this value, if it is a boolean.
    pub fn as_bool(&self) -> (r: Option<bool>)
        ensures
            match r {
                Some(b) => self == ConfigValue::Bool(b),
                None => !(self is Bool),
            },
    {
        match self {
            ConfigValue::Bool(b) => Some(*b),
            _ => None,
        }
    }
}

/// Empty configuration for extension types that need no parameters; any
/// payload is accepted and ignored.
#[derive(Debug, Clone, Copy)]
pub struct UnitConfig;

/// Reference to a registered extension type: a type URL naming the factory
/// and the payload handed to it.
#[derive(Debug)]
pub struct TypedConfig {
    /// The type URL identifying the registered type.
    pub type_url: String,
    /// Type-specific configuration payload.
    pub config: ConfigValue,
}

/// How the extracted value of a single predicate is matched: with the
/// built-in string match specification, or with a matcher resolved through
/// the registry by type URL. Exactly one of the two.
#[derive(Debug)]
pub enum ValueMatchConfig {
    /// The built-in string match specification.
    BuiltIn(StringMatchSpec),
    /// A matcher resolved through the registry.
    Custom(TypedConfig),
}

/// Configuration for a single predicate: a typed input reference and a
/// value match.
#[derive(Debug)]
pub struct SinglePredicateConfig {
    /// The input that extracts data from the context, resolved by type URL.
    pub input: TypedConfig,
    /// How to match the extracted value.
    pub matcher: ValueMatchConfig,
}

/// Configuration for a predicate tree.
#[derive(Debug)]
pub enum PredicateConfig {
    /// A single predicate.
    Single(SinglePredicateConfig),
    /// All children must match.
    And {
        /// Child predicates.
        predicates: Vec<PredicateConfig>,
    },
    /// Some child must match.
    Or {
        /// Child predicates.
        predicates: Vec<PredicateConfig>,
    },
    /// Inverts the inner predicate.
    Not {
        /// The predicate to negate.
        predicate: Box<PredicateConfig>,
    },
}

/// Configuration for what happens on a match: an action value, or a nested
/// matcher. Exactly one of the two.
#[derive(Debug)]
pub enum OnMatchConfig<A> {
    /// Return this action.
    Action {
        /// The action value.
        action: A,
    },
    /// Evaluate this nested matcher.
    Matcher {
        /// The nested matcher configuration.
        matcher: Box<MatcherConfig<A>>,
    },
}

/// Configuration for a field matcher.
#[derive(Debug)]
pub struct FieldMatcherConfig<A> {
    /// The predicate that gates this field matcher.
    pub predicate: PredicateConfig,
    /// What to do when the predicate matches.
    pub on_match: OnMatchConfig<A>,
}

/// Configuration for a matcher.
#[derive(Debug)]
pub struct MatcherConfig<A> {
    /// Field matchers to evaluate in order, first match wins.
    pub matchers: Vec<FieldMatcherConfig<A>>,
    /// Fallback when no field matcher matches.
    pub on_no_match: Option<OnMatchConfig<A>>,
}

} // verus!
