//! The key-value test domain: a simple context for conformance testing and
//! the reference example of how a domain adapter plugs into the engine.

use vstd::prelude::*;

verus! {

use crate::config::ConfigValue;
use crate::data_input::DataInput;
use crate::errors::ErrorView;
use crate::errors::MatcherError;
use crate::kvmap::KvMap;
use crate::matching_data::MatchingData;
use crate::registry::IntoDataInput;
use crate::registry::RegistryBuilder;
use crate::registry::register_core_matchers;

/// Test context: a simple string-to-string map.
pub struct TestContext {
    /// The key-value pairs of this context.
    pub values: KvMap,
}

impl TestContext {
    /// The context is well formed.
    pub open spec fn wf(&self) -> bool {
        self.values.wf()
    }

    /// What the context binds the given key to.
    pub open spec fn spec_value(&self, key: Seq<char>) -> Option<String> {
        self.values.spec_get(key)
    }

    /// Create an empty test context.
    pub fn new() -> (r: Self)
        ensures
            r.wf(),
            forall|k: Seq<char>| #[trigger] r.spec_value(k) is None,
    {
        TestContext { values: KvMap::new() }
    }

    /// Add a key-value pair (builder pattern), replacing any existing
    /// binding of the key.
    pub fn with(self, key: &str, value: &str) -> (r: Self)
        requires
            self.wf(),
        ensures
            r.wf(),
            r.spec_value(key@) matches Some(v) && v@ == value@,
            forall|k: Seq<char>| k != key@ ==> #[trigger] r.spec_value(k) == self.spec_value(k),
    {
        let mut this = self;
        this.values.insert(key.to_owned(), value.to_owned());
        this
    }

    /// Get a value by key.
    pub fn get(&self, key: &str) -> (r: Option<&str>)
        ensures
            match r {
                Some(v) => self.spec_value(key@) matches Some(w) && v@ == w@,
                None => self.spec_value(key@) is None,
            },
    {
        match self.values.get(key) {
            Some(v) => Some(v.as_str()),
            None => None,
        }
    }
}

/// Extracts a string value from a [`TestContext`] by key; an unbound key
/// extracts absent data.
pub struct StringInput {
    /// The key to look up.
    pub key: String,
}

impl StringInput {
    /// Create a new string input extractor.
    pub fn new(key: &str) -> (r: Self)
        ensures
            r.key@ == key@,
    {
        StringInput { key: key.to_owned() }
    }
}

impl DataInput for StringInput {
    type Ctx = TestContext;

    open spec fn spec_get(&self, ctx: &TestContext) -> MatchingData {
        match ctx.spec_value(self.key@) {
            Some(v) => MatchingData::String(v),
            None => MatchingData::Absent,
        }
    }

    open spec fn spec_data_type(&self) -> Seq<char> {
        "string"@
    }

    open spec fn spec_describe(&self) -> Seq<char> {
        "StringInput"@
    }

    fn get(&self, ctx: &TestContext) -> (r: MatchingData) {
        match ctx.values.get(self.key.as_str()) {
            Some(v) => MatchingData::String(v.clone()),
            None => MatchingData::Absent,
        }
    }

    fn data_type(&self) -> (r: &'static str) {
        "string"
    }

    fn describe(&self) -> (r: String) {
        "StringInput".to_owned()
    }
}

/// Configuration shape for [`StringInput`].
#[derive(Debug, Clone)]
pub struct StringInputConfig {
    /// The key to extract from the test context.
    pub key: String,
}

/// The factory for the test domain's inputs.
#[derive(Debug, Clone, Copy)]
pub struct StringInputFactory;

/// The error rejecting a string-input payload without a string `key` field.
pub open spec fn string_input_config_error() -> Seq<char> {
    "string input config needs a string field \"key\""@
}

impl IntoDataInput for StringInputFactory {
    type Input = StringInput;

    open spec fn spec_from_config(&self, config: &ConfigValue) -> Result<StringInput, ErrorView> {
        match config.spec_get("key"@) {
            Some(v) => match v {
                ConfigValue::Str(key) => Ok(StringInput { key }),
                _ => Err(ErrorView::InvalidConfig { source: string_input_config_error() }),
            },
            None => Err(ErrorView::InvalidConfig { source: string_input_config_error() }),
        }
    }

    fn from_config(&self, config: &ConfigValue) -> (r: Result<StringInput, MatcherError>) {
        match config.get("key") {
            Some(v) => match v.as_string() {
                Some(key) => Ok(StringInput { key: key.clone() }),
                None => Err(
                    MatcherError::InvalidConfig {
                        source: "string input config needs a string field \"key\"".to_owned(),
                    },
                ),
            },
            None => Err(
                MatcherError::InvalidConfig {
                    source: "string input config needs a string field \"key\"".to_owned(),
                },
            ),
        }
    }
}

/// Register the test domain: the core matchers and the test-context string
/// input under its stable type URL.
pub fn register(builder: RegistryBuilder<StringInputFactory>) -> (r: RegistryBuilder<
    StringInputFactory,
>)
    requires
        builder.wf(),
    ensures
        r.wf(),
        r.spec_input("xuma.test.v1.StringInput"@) == Some(StringInputFactory),
        r.spec_matcher("xuma.core.v1.BoolMatcher"@) == Some(
            crate::registry::CoreMatcherFactory::Bool,
        ),
        r.spec_matcher("xuma.core.v1.StringMatcher"@) == Some(
            crate::registry::CoreMatcherFactory::Str,
        ),
{
    register_core_matchers(builder).input("xuma.test.v1.StringInput", StringInputFactory)
}

} // verus!
