//! Tests of config-driven construction: string match specs, the registry
//! load path with its validation bounds, map-based matchers, and the
//! end-to-end scenarios.

use rumi::testing::{register, StringInput, StringInputFactory, TestContext};
use rumi::StringMatcher;
use rumi::{
    strip_type_prefix, ConfigValue, CoreMatcher, ExactMatcher, FieldMatcher, FieldMatcherConfig,
    InputMatcher, Matcher, MatcherConfig, MatcherError, MatcherTree, MatchingData, OnMatch,
    OnMatchConfig, Predicate, PredicateConfig, RadixTree, Registry, RegistryBuilder,
    SinglePredicate, SinglePredicateConfig, StringMatchSpec, TypedConfig, ValueMatchConfig,
    MAX_FIELD_MATCHERS, MAX_PATTERN_LENGTH, MAX_PREDICATES_PER_COMPOUND, MAX_REGEX_PATTERN_LENGTH,
};

fn s(v: &str) -> MatchingData {
    MatchingData::String(v.to_string())
}

fn key_config(key: &str) -> ConfigValue {
    ConfigValue::Object(vec![("key".to_string(), ConfigValue::Str(key.to_string()))])
}

fn single_config(key: &str, spec: StringMatchSpec) -> PredicateConfig {
    PredicateConfig::Single(SinglePredicateConfig {
        input: TypedConfig {
            type_url: "xuma.test.v1.StringInput".to_string(),
            config: key_config(key),
        },
        matcher: ValueMatchConfig::BuiltIn(spec),
    })
}

fn action_fm(predicate: PredicateConfig, action: &str) -> FieldMatcherConfig<String> {
    FieldMatcherConfig { predicate, on_match: OnMatchConfig::Action { action: action.to_string() } }
}

fn test_registry() -> Registry<StringInputFactory> {
    register(RegistryBuilder::new()).build()
}

fn expect_err<T, E>(r: Result<T, E>) -> E {
    match r {
        Err(e) => e,
        Ok(_) => panic!("expected an error"),
    }
}

// ── StringMatchSpec ──────────────────────────────────────────────────────

#[test]
fn exact_compiles() {
    let spec = StringMatchSpec::Exact("hello".to_string());
    let m = spec.to_input_matcher().unwrap();
    assert!(m.matches(&s("hello")));
    assert!(!m.matches(&s("world")));
}

#[test]
fn prefix_compiles() {
    let spec = StringMatchSpec::Prefix("/api".to_string());
    let m = spec.to_input_matcher().unwrap();
    assert!(m.matches(&s("/api/users")));
    assert!(!m.matches(&s("/other")));
}

#[test]
fn suffix_compiles() {
    let spec = StringMatchSpec::Suffix(".rs".to_string());
    let m = spec.to_input_matcher().unwrap();
    assert!(m.matches(&s("main.rs")));
    assert!(!m.matches(&s("main.py")));
}

#[test]
fn contains_compiles() {
    let spec = StringMatchSpec::Contains("error".to_string());
    let m = spec.to_input_matcher().unwrap();
    assert!(m.matches(&s("an error occurred")));
    assert!(!m.matches(&s("success")));
}

#[test]
fn regex_compiles() {
    let spec = StringMatchSpec::Regex(r"^user-\d+$".to_string());
    let m = spec.to_input_matcher().unwrap();
    assert!(m.matches(&s("user-123")));
    assert!(!m.matches(&s("user-abc")));
}

#[test]
fn invalid_regex_returns_error() {
    let spec = StringMatchSpec::Regex("[bad".to_string());
    let err = spec.to_input_matcher().unwrap_err();
    assert!(matches!(err, MatcherError::InvalidPattern { .. }));
}

#[test]
fn to_predicate_compiles() {
    let spec = StringMatchSpec::Exact("hello".to_string());
    let pred = spec.to_predicate(StringInput::new("val")).unwrap();

    let ctx = TestContext::new().with("val", "hello");
    assert!(pred.evaluate(&ctx));

    let ctx = TestContext::new().with("val", "world");
    assert!(!pred.evaluate(&ctx));
}

#[test]
fn display() {
    assert_eq!(
        StringMatchSpec::Exact("Bash".to_string()).display_string(),
        r#"Exact("Bash")"#
    );
    assert_eq!(
        StringMatchSpec::Regex("^mcp".to_string()).display_string(),
        r#"Regex("^mcp")"#
    );
}

// ── RadixTree ────────────────────────────────────────────────────────────

#[test]
fn test_insert_and_get() {
    let mut tree = RadixTree::new();
    tree.insert("hello", 1);
    tree.insert("world", 2);
    tree.insert("help", 3);

    assert_eq!(tree.get("hello"), Some(&1));
    assert_eq!(tree.get("world"), Some(&2));
    assert_eq!(tree.get("help"), Some(&3));
    assert_eq!(tree.get("hell"), None);
    assert_eq!(tree.get("helper"), None);
}

#[test]
fn test_prefix_splitting() {
    let mut tree = RadixTree::new();
    tree.insert("test", 1);
    tree.insert("testing", 2);
    tree.insert("team", 3);

    assert_eq!(tree.get("test"), Some(&1));
    assert_eq!(tree.get("testing"), Some(&2));
    assert_eq!(tree.get("team"), Some(&3));
}

#[test]
fn test_find_longest_prefix() {
    let mut tree = RadixTree::new();
    tree.insert("/", "root");
    tree.insert("/api", "api");
    tree.insert("/api/v2", "api_v2");
    tree.insert("/api/v2/users", "users");

    assert_eq!(tree.find_longest_prefix("/api/v2/users/123"), Some(&"users"));
    assert_eq!(tree.find_longest_prefix("/api/v2/posts"), Some(&"api_v2"));
    assert_eq!(tree.find_longest_prefix("/api/v1"), Some(&"api"));
    assert_eq!(tree.find_longest_prefix("/other"), Some(&"root"));
    assert_eq!(tree.find_longest_prefix("/"), Some(&"root"));
    assert_eq!(tree.find_longest_prefix("nope"), None);
}

#[test]
fn test_find_all_prefixes() {
    let mut tree = RadixTree::new();
    tree.insert("/", 1);
    tree.insert("/api", 2);
    tree.insert("/api/v2", 3);

    let prefixes = tree.find_all_prefixes("/api/v2/users");
    assert_eq!(prefixes, vec![&1, &2, &3]);

    let prefixes = tree.find_all_prefixes("/api/v1");
    assert_eq!(prefixes, vec![&1, &2]);
}

#[test]
fn test_overwrite() {
    let mut tree = RadixTree::new();
    assert_eq!(tree.insert("key", 1), None);
    assert_eq!(tree.insert("key", 2), Some(1));
    assert_eq!(tree.get("key"), Some(&2));
}

#[test]
fn test_empty_key() {
    let mut tree = RadixTree::new();
    tree.insert("", "root");
    assert_eq!(tree.get(""), Some(&"root"));
    assert_eq!(tree.find_longest_prefix("anything"), Some(&"root"));
}

// ── MatcherTree ──────────────────────────────────────────────────────────

#[test]
fn test_exact_match() {
    let tree: MatcherTree<StringInput, CoreMatcher, String> = MatcherTree::exact(
        StringInput::new("path"),
        vec![
            ("/health".to_string(), OnMatch::Action("health".to_string())),
            ("/ready".to_string(), OnMatch::Action("ready".to_string())),
        ],
        Some(OnMatch::Action("default".to_string())),
    );

    let ctx = TestContext::new().with("path", "/health");
    assert_eq!(tree.evaluate(&ctx), Some(&"health".to_string()));

    let ctx = TestContext::new().with("path", "/ready");
    assert_eq!(tree.evaluate(&ctx), Some(&"ready".to_string()));

    let ctx = TestContext::new().with("path", "/other");
    assert_eq!(tree.evaluate(&ctx), Some(&"default".to_string()));
}

#[test]
fn test_prefix_match_longest_wins() {
    let tree: MatcherTree<StringInput, CoreMatcher, String> = MatcherTree::prefix(
        StringInput::new("path"),
        vec![
            ("/".to_string(), OnMatch::Action("root".to_string())),
            ("/api".to_string(), OnMatch::Action("api".to_string())),
            ("/api/v2".to_string(), OnMatch::Action("api_v2".to_string())),
        ],
        None,
    );

    let ctx = TestContext::new().with("path", "/api/v2/users");
    assert_eq!(tree.evaluate(&ctx), Some(&"api_v2".to_string()));

    let ctx = TestContext::new().with("path", "/api/v1/users");
    assert_eq!(tree.evaluate(&ctx), Some(&"api".to_string()));

    let ctx = TestContext::new().with("path", "/other");
    assert_eq!(tree.evaluate(&ctx), Some(&"root".to_string()));

    let ctx = TestContext::new().with("path", "nope");
    assert_eq!(tree.evaluate(&ctx), None);
}

#[test]
fn test_exact_no_match_fallback() {
    let tree: MatcherTree<StringInput, CoreMatcher, String> = MatcherTree::exact(
        StringInput::new("path"),
        vec![("/a".to_string(), OnMatch::Action("a".to_string()))],
        None,
    );

    let ctx = TestContext::new().with("path", "/b");
    assert_eq!(tree.evaluate(&ctx), None);
}

#[test]
fn test_non_string_input_returns_no_match() {
    // absent data cannot be looked up in the string map, so the fallback
    // decides
    let tree: MatcherTree<StringInput, CoreMatcher, String> = MatcherTree::exact(
        StringInput::new("path"),
        vec![("42".to_string(), OnMatch::Action("matched".to_string()))],
        Some(OnMatch::Action("fallback".to_string())),
    );

    let ctx = TestContext::new().with("unrelated", "ignored");
    assert_eq!(tree.evaluate(&ctx), Some(&"fallback".to_string()));
}

// ── Type URL helpers ─────────────────────────────────────────────────────

#[test]
fn strip_type_prefix_works() {
    assert_eq!(
        strip_type_prefix("type.googleapis.com/xuma.test.v1.StringInput"),
        "xuma.test.v1.StringInput"
    );
    assert_eq!(strip_type_prefix("xuma.test.v1.StringInput"), "xuma.test.v1.StringInput");
}

// ── Registry introspection ───────────────────────────────────────────────

#[test]
fn builder_registers_and_freezes() {
    let registry = test_registry();
    assert_eq!(registry.input_count(), 1);
    assert!(registry.contains_input("xuma.test.v1.StringInput"));
    assert!(!registry.contains_input("test.Unknown"));
    assert_eq!(registry.matcher_count(), 2);
    assert!(registry.contains_matcher("xuma.core.v1.BoolMatcher"));
    assert!(registry.contains_matcher("xuma.core.v1.StringMatcher"));
}

#[test]
fn introspection_lists_sorted_urls() {
    let registry = test_registry();
    assert_eq!(registry.input_type_urls(), vec!["xuma.test.v1.StringInput".to_string()]);
    assert_eq!(
        registry.matcher_type_urls(),
        vec!["xuma.core.v1.BoolMatcher".to_string(), "xuma.core.v1.StringMatcher".to_string()]
    );
}

// ── Loading ──────────────────────────────────────────────────────────────

#[test]
fn load_simple_matcher() {
    let registry = test_registry();
    let config = MatcherConfig {
        matchers: vec![action_fm(
            single_config("value", StringMatchSpec::Exact("hello".to_string())),
            "matched!",
        )],
        on_no_match: Some(OnMatchConfig::Action { action: "default".to_string() }),
    };
    let matcher = registry.load_matcher(config).unwrap();

    let ctx = TestContext::new().with("value", "hello");
    assert_eq!(matcher.evaluate(&ctx), Some(&"matched!".to_string()));

    let ctx = TestContext::new().with("value", "world");
    assert_eq!(matcher.evaluate(&ctx), Some(&"default".to_string()));
}

#[test]
fn unknown_input_type_url_lists_available() {
    let registry = test_registry();
    let config: MatcherConfig<String> = MatcherConfig {
        matchers: vec![action_fm(
            PredicateConfig::Single(SinglePredicateConfig {
                input: TypedConfig {
                    type_url: "unknown.Input".to_string(),
                    config: ConfigValue::Null,
                },
                matcher: ValueMatchConfig::BuiltIn(StringMatchSpec::Exact("x".to_string())),
            }),
            "x",
        )],
        on_no_match: None,
    };
    let err = expect_err(registry.load_matcher(config));
    match &err {
        MatcherError::UnknownTypeUrl { type_url, registry, available } => {
            assert_eq!(type_url, "unknown.Input");
            assert_eq!(*registry, "input");
            assert_eq!(available, &vec!["xuma.test.v1.StringInput".to_string()]);
        }
        other => panic!("expected UnknownTypeUrl, got {other:?}"),
    }
    let msg = err.message();
    assert!(msg.contains("unknown input type URL"));
    assert!(msg.contains("xuma.test.v1.StringInput"));
}

#[test]
fn unknown_matcher_type_url() {
    let registry = test_registry();
    let config: MatcherConfig<String> = MatcherConfig {
        matchers: vec![action_fm(
            PredicateConfig::Single(SinglePredicateConfig {
                input: TypedConfig {
                    type_url: "xuma.test.v1.StringInput".to_string(),
                    config: key_config("value"),
                },
                matcher: ValueMatchConfig::Custom(TypedConfig {
                    type_url: "unknown.Matcher".to_string(),
                    config: ConfigValue::Null,
                }),
            }),
            "x",
        )],
        on_no_match: None,
    };
    let err = expect_err(registry.load_matcher(config));
    match &err {
        MatcherError::UnknownTypeUrl { type_url, registry, available } => {
            assert_eq!(type_url, "unknown.Matcher");
            assert_eq!(*registry, "matcher");
            assert_eq!(available.len(), 2);
        }
        other => panic!("expected UnknownTypeUrl, got {other:?}"),
    }
}

#[test]
fn load_custom_match_bool_matcher_is_incompatible_with_string_input() {
    // the test-domain input produces strings, so pairing it with the
    // boolean matcher is rejected at load time
    let registry = test_registry();
    let config: MatcherConfig<String> = MatcherConfig {
        matchers: vec![action_fm(
            PredicateConfig::Single(SinglePredicateConfig {
                input: TypedConfig {
                    type_url: "xuma.test.v1.StringInput".to_string(),
                    config: key_config("value"),
                },
                matcher: ValueMatchConfig::Custom(TypedConfig {
                    type_url: "xuma.core.v1.BoolMatcher".to_string(),
                    config: ConfigValue::Object(vec![(
                        "expected".to_string(),
                        ConfigValue::Bool(true),
                    )]),
                }),
            }),
            "x",
        )],
        on_no_match: None,
    };
    let err = expect_err(registry.load_matcher(config));
    match &err {
        MatcherError::IncompatibleTypes { input_type, matcher_types } => {
            assert_eq!(input_type, "string");
            assert_eq!(matcher_types, &vec!["bool".to_string()]);
        }
        other => panic!("expected IncompatibleTypes, got {other:?}"),
    }
}

#[test]
fn load_custom_match_string_matcher() {
    let registry = test_registry();
    let config: MatcherConfig<String> = MatcherConfig {
        matchers: vec![action_fm(
            PredicateConfig::Single(SinglePredicateConfig {
                input: TypedConfig {
                    type_url: "xuma.test.v1.StringInput".to_string(),
                    config: key_config("value"),
                },
                matcher: ValueMatchConfig::Custom(TypedConfig {
                    type_url: "xuma.core.v1.StringMatcher".to_string(),
                    config: ConfigValue::Object(vec![
                        ("value".to_string(), ConfigValue::Str("/API/".to_string())),
                        ("match_type".to_string(), ConfigValue::Str("prefix".to_string())),
                        ("ignore_case".to_string(), ConfigValue::Bool(true)),
                    ]),
                }),
            }),
            "api_route",
        )],
        on_no_match: None,
    };
    let matcher = registry.load_matcher(config).unwrap();

    assert_eq!(
        matcher.evaluate(&TestContext::new().with("value", "/api/users")),
        Some(&"api_route".to_string())
    );
    assert_eq!(matcher.evaluate(&TestContext::new().with("value", "/other")), None);
}

#[test]
fn invalid_config_returns_error() {
    let registry = test_registry();
    let config: MatcherConfig<String> = MatcherConfig {
        matchers: vec![action_fm(
            PredicateConfig::Single(SinglePredicateConfig {
                input: TypedConfig {
                    type_url: "xuma.test.v1.StringInput".to_string(),
                    config: ConfigValue::Object(vec![(
                        "wrong_field".to_string(),
                        ConfigValue::Int(42),
                    )]),
                },
                matcher: ValueMatchConfig::BuiltIn(StringMatchSpec::Exact("x".to_string())),
            }),
            "x",
        )],
        on_no_match: None,
    };
    let err = expect_err(registry.load_matcher(config));
    assert!(matches!(err, MatcherError::InvalidConfig { .. }));
}

#[test]
fn load_and_predicate() {
    let registry = test_registry();
    let config = MatcherConfig {
        matchers: vec![action_fm(
            PredicateConfig::And {
                predicates: vec![
                    single_config("value", StringMatchSpec::Prefix("hel".to_string())),
                    single_config("value", StringMatchSpec::Suffix("llo".to_string())),
                ],
            },
            "both_matched",
        )],
        on_no_match: None,
    };
    let matcher = registry.load_matcher(config).unwrap();

    assert_eq!(
        matcher.evaluate(&TestContext::new().with("value", "hello")),
        Some(&"both_matched".to_string())
    );
    assert_eq!(matcher.evaluate(&TestContext::new().with("value", "help")), None);
}

#[test]
fn load_nested_matcher() {
    let registry = test_registry();
    let config = MatcherConfig {
        matchers: vec![FieldMatcherConfig {
            predicate: single_config("value", StringMatchSpec::Prefix(String::new())),
            on_match: OnMatchConfig::Matcher {
                matcher: Box::new(MatcherConfig {
                    matchers: vec![action_fm(
                        single_config("value", StringMatchSpec::Exact("deep".to_string())),
                        "nested_hit",
                    )],
                    on_no_match: None,
                }),
            },
        }],
        on_no_match: Some(OnMatchConfig::Action { action: "fallback".to_string() }),
    };
    let matcher = registry.load_matcher(config).unwrap();

    assert_eq!(
        matcher.evaluate(&TestContext::new().with("value", "deep")),
        Some(&"nested_hit".to_string())
    );
    assert_eq!(
        matcher.evaluate(&TestContext::new().with("value", "shallow")),
        Some(&"fallback".to_string())
    );
}

// ── Width, pattern and depth caps ────────────────────────────────────────

#[test]
fn too_many_field_matchers() {
    let registry = test_registry();
    let mut matchers = Vec::new();
    for _ in 0..(MAX_FIELD_MATCHERS + 1) {
        matchers.push(action_fm(
            single_config("value", StringMatchSpec::Exact("x".to_string())),
            "x",
        ));
    }
    let err = expect_err(registry.load_matcher(MatcherConfig::<String> { matchers, on_no_match: None }));
    match err {
        MatcherError::TooManyFieldMatchers { count, max } => {
            assert_eq!(count, MAX_FIELD_MATCHERS + 1);
            assert_eq!(max, MAX_FIELD_MATCHERS);
        }
        other => panic!("expected TooManyFieldMatchers, got {other:?}"),
    }
}

#[test]
fn field_matchers_at_limit_succeeds() {
    let registry = test_registry();
    let mut matchers = Vec::new();
    for _ in 0..MAX_FIELD_MATCHERS {
        matchers.push(action_fm(
            single_config("value", StringMatchSpec::Exact("x".to_string())),
            "x",
        ));
    }
    assert!(registry
        .load_matcher(MatcherConfig::<String> { matchers, on_no_match: None })
        .is_ok());
}

#[test]
fn too_many_predicates_and() {
    let registry = test_registry();
    let mut predicates = Vec::new();
    for _ in 0..(MAX_PREDICATES_PER_COMPOUND + 1) {
        predicates.push(single_config("value", StringMatchSpec::Exact("x".to_string())));
    }
    let config: MatcherConfig<String> = MatcherConfig {
        matchers: vec![action_fm(PredicateConfig::And { predicates }, "x")],
        on_no_match: None,
    };
    let err = expect_err(registry.load_matcher(config));
    assert!(matches!(err, MatcherError::TooManyPredicates { .. }));
}

#[test]
fn too_many_predicates_or() {
    let registry = test_registry();
    let mut predicates = Vec::new();
    for _ in 0..(MAX_PREDICATES_PER_COMPOUND + 1) {
        predicates.push(single_config("value", StringMatchSpec::Exact("x".to_string())));
    }
    let config: MatcherConfig<String> = MatcherConfig {
        matchers: vec![action_fm(PredicateConfig::Or { predicates }, "x")],
        on_no_match: None,
    };
    let err = expect_err(registry.load_matcher(config));
    assert!(matches!(err, MatcherError::TooManyPredicates { .. }));
}

#[test]
fn pattern_too_long_exact() {
    let registry = test_registry();
    let long_pattern = "x".repeat(MAX_PATTERN_LENGTH + 1);
    let config: MatcherConfig<String> = MatcherConfig {
        matchers: vec![action_fm(
            single_config("value", StringMatchSpec::Exact(long_pattern)),
            "x",
        )],
        on_no_match: None,
    };
    let err = expect_err(registry.load_matcher(config));
    match err {
        MatcherError::PatternTooLong { len, max } => {
            assert_eq!(len, MAX_PATTERN_LENGTH + 1);
            assert_eq!(max, MAX_PATTERN_LENGTH);
        }
        other => panic!("expected PatternTooLong, got {other:?}"),
    }
}

#[test]
fn regex_pattern_too_long() {
    let registry = test_registry();
    let long_regex = "a".repeat(MAX_REGEX_PATTERN_LENGTH + 1);
    let config: MatcherConfig<String> = MatcherConfig {
        matchers: vec![action_fm(
            single_config("value", StringMatchSpec::Regex(long_regex)),
            "x",
        )],
        on_no_match: None,
    };
    let err = expect_err(registry.load_matcher(config));
    match err {
        MatcherError::PatternTooLong { len, max } => {
            assert_eq!(len, MAX_REGEX_PATTERN_LENGTH + 1);
            assert_eq!(max, MAX_REGEX_PATTERN_LENGTH);
        }
        other => panic!("expected PatternTooLong, got {other:?}"),
    }
}

#[test]
fn pattern_at_limit_succeeds() {
    let registry = test_registry();
    let pattern = "x".repeat(MAX_PATTERN_LENGTH);
    let config: MatcherConfig<String> = MatcherConfig {
        matchers: vec![action_fm(single_config("value", StringMatchSpec::Exact(pattern)), "x")],
        on_no_match: None,
    };
    assert!(registry.load_matcher(config).is_ok());
}

#[test]
fn loaded_depth_cap_enforced() {
    let registry = test_registry();
    // nest one deeper than the cap: depth 2 per level times 17 exceeds 32
    let mut config = MatcherConfig {
        matchers: vec![action_fm(
            single_config("value", StringMatchSpec::Exact("leaf".to_string())),
            "leaf",
        )],
        on_no_match: None,
    };
    for _ in 0..32 {
        config = MatcherConfig {
            matchers: vec![FieldMatcherConfig {
                predicate: single_config("value", StringMatchSpec::Prefix(String::new())),
                on_match: OnMatchConfig::Matcher { matcher: Box::new(config) },
            }],
            on_no_match: None,
        };
    }
    let err = expect_err(registry.load_matcher(config));
    assert!(matches!(err, MatcherError::DepthExceeded { .. }));
}

// ── Scenarios ────────────────────────────────────────────────────────────

#[test]
fn scenario_trivial_routing() {
    let registry = test_registry();
    let config = MatcherConfig {
        matchers: vec![action_fm(
            single_config("path", StringMatchSpec::Exact("/api".to_string())),
            "api",
        )],
        on_no_match: Some(OnMatchConfig::Action { action: "default".to_string() }),
    };
    let matcher = registry.load_matcher(config).unwrap();

    assert_eq!(
        matcher.evaluate(&TestContext::new().with("path", "/api")),
        Some(&"api".to_string())
    );
    assert_eq!(
        matcher.evaluate(&TestContext::new().with("path", "/x")),
        Some(&"default".to_string())
    );
}

#[test]
fn scenario_and_composition() {
    let registry = test_registry();
    let config = MatcherConfig {
        matchers: vec![action_fm(
            PredicateConfig::And {
                predicates: vec![
                    single_config("method", StringMatchSpec::Exact("POST".to_string())),
                    single_config("path", StringMatchSpec::Prefix("/write/".to_string())),
                ],
            },
            "accept",
        )],
        on_no_match: None,
    };
    let matcher = registry.load_matcher(config).unwrap();

    assert_eq!(
        matcher.evaluate(&TestContext::new().with("method", "POST").with("path", "/write/x")),
        Some(&"accept".to_string())
    );
    assert_eq!(
        matcher.evaluate(&TestContext::new().with("method", "GET").with("path", "/write/x")),
        None
    );
}

#[test]
fn scenario_nested_fallthrough() {
    let registry = test_registry();
    let premium = || single_config("tier", StringMatchSpec::Exact("premium".to_string()));
    let config = MatcherConfig {
        matchers: vec![
            FieldMatcherConfig {
                predicate: premium(),
                on_match: OnMatchConfig::Matcher {
                    matcher: Box::new(MatcherConfig {
                        matchers: vec![action_fm(
                            single_config("region", StringMatchSpec::Exact("us".to_string())),
                            "premium-us",
                        )],
                        on_no_match: None,
                    }),
                },
            },
            action_fm(premium(), "premium-fallback"),
        ],
        on_no_match: None,
    };
    let matcher = registry.load_matcher(config).unwrap();

    assert_eq!(
        matcher.evaluate(&TestContext::new().with("tier", "premium").with("region", "eu")),
        Some(&"premium-fallback".to_string())
    );
    assert_eq!(
        matcher.evaluate(&TestContext::new().with("tier", "premium").with("region", "us")),
        Some(&"premium-us".to_string())
    );
}

#[test]
fn scenario_empty_predicate_semantics() {
    let hit = |pred: Predicate<StringInput, CoreMatcher>| {
        Matcher::new(vec![FieldMatcher::new(pred, OnMatch::Action("hit"))], None)
    };
    let ctx = TestContext::new().with("anything", "at all");

    let or_empty = hit(Predicate::Or(vec![]));
    assert_eq!(or_empty.evaluate(&ctx), None);

    let and_empty = hit(Predicate::And(vec![]));
    assert_eq!(and_empty.evaluate(&ctx), Some(&"hit"));
}

#[test]
fn scenario_case_insensitive_prefix() {
    let matcher = StringMatcher::prefix("/API/", true);
    assert!(matcher.matches(&s("/api/x")));
    assert!(matcher.matches(&s("/API/x")));
    assert!(matcher.matches(&s("/Api/x")));
    assert!(!matcher.matches(&s("/apx")));
}

#[test]
fn scenario_regex_rejection_and_linearity() {
    let registry = test_registry();
    let bad = MatcherConfig::<String> {
        matchers: vec![action_fm(
            single_config("value", StringMatchSpec::Regex("[bad".to_string())),
            "x",
        )],
        on_no_match: None,
    };
    let err = expect_err(registry.load_matcher(bad));
    match err {
        MatcherError::InvalidPattern { pattern, .. } => assert_eq!(pattern, "[bad"),
        other => panic!("expected InvalidPattern, got {other:?}"),
    }

    let good = MatcherConfig::<String> {
        matchers: vec![action_fm(
            single_config("value", StringMatchSpec::Regex("(a+)+$".to_string())),
            "x",
        )],
        on_no_match: None,
    };
    let matcher = registry.load_matcher(good).unwrap();
    assert_eq!(matcher.evaluate(&TestContext::new().with("value", "aaaaX")), None);
}

#[test]
fn pathological_regex_completes_quickly() {
    let matcher = StringMatcher::regex("(a+)+$").unwrap();
    for n in [10usize, 20, 50, 100] {
        let mut input = "a".repeat(n);
        input.push('X');
        assert!(!matcher.matches(&MatchingData::String(input)));
    }
}

#[test]
fn registry_round_trip_agrees_with_manual_matcher() {
    let registry = test_registry();
    let config = MatcherConfig {
        matchers: vec![action_fm(
            single_config("path", StringMatchSpec::Exact("/api".to_string())),
            "api",
        )],
        on_no_match: Some(OnMatchConfig::Action { action: "default".to_string() }),
    };
    let loaded = registry.load_matcher(config).unwrap();

    let manual: Matcher<StringInput, CoreMatcher, String> = Matcher::new(
        vec![FieldMatcher::new(
            Predicate::Single(SinglePredicate::new(
                StringInput::new("path"),
                CoreMatcher::Str(StringMatcher::exact("/api", false)),
            )),
            OnMatch::Action("api".to_string()),
        )],
        Some(OnMatch::Action("default".to_string())),
    );

    for ctx in [
        TestContext::new().with("path", "/api"),
        TestContext::new().with("path", "/x"),
        TestContext::new(),
    ] {
        assert_eq!(loaded.evaluate(&ctx), manual.evaluate(&ctx));
    }
}

#[test]
fn error_messages_render_exactly() {
    let e = MatcherError::DepthExceeded { depth: 33, max: 32 };
    assert_eq!(
        e.message(),
        "matcher nesting depth is 33, but maximum allowed is 32 - reduce nesting or flatten your matcher tree"
    );
    let e = MatcherError::TooManyFieldMatchers { count: 257, max: 256 };
    assert_eq!(e.message(), "matcher has 257 field matchers, but maximum allowed is 256");
    let e = MatcherError::UnknownTypeUrl {
        type_url: "a.B".to_string(),
        registry: "input",
        available: vec![],
    };
    assert_eq!(
        e.message(),
        "unknown input type URL \"a.B\" - no input types are registered"
    );
}

// ── Wrapper honesty ──────────────────────────────────────────────────────

#[test]
fn regex_engine_really_decides() {
    // a matcher that merely echoed its input would fail these
    let spec = StringMatchSpec::Regex("^a+$".to_string());
    let m = spec.to_input_matcher().unwrap();
    assert!(m.matches(&s("aaa")));
    assert!(!m.matches(&s("b")));
    assert!(!m.matches(&s("^a+$")));
}
