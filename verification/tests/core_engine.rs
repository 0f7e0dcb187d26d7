//! Tests of the erased data type, the concrete matchers, predicates and
//! the first-match-wins matcher.

use rumi::testing::{StringInput, TestContext};
use rumi::{
    BoolMatcher, ContainsMatcher, CoreMatcher, DataInput, ExactMatcher, FieldMatcher, InputMatcher,
    Matcher, MatcherError, MatchingData, OnMatch, Predicate, PredicateTrace, PrefixMatcher,
    SinglePredicate, StringMatcher, SuffixMatcher, MAX_DEPTH,
};

fn s(v: &str) -> MatchingData {
    MatchingData::String(v.to_string())
}

fn value_input() -> StringInput {
    StringInput::new("value")
}

fn value_ctx(v: &str) -> TestContext {
    TestContext::new().with("value", v)
}

fn exact(v: &str) -> CoreMatcher {
    CoreMatcher::Exact(ExactMatcher::new(v))
}

fn contains(v: &str) -> CoreMatcher {
    CoreMatcher::Contains(ContainsMatcher::new(v))
}

fn single(expected: &str) -> Predicate<StringInput, CoreMatcher> {
    Predicate::Single(SinglePredicate::new(value_input(), exact(expected)))
}

fn field(expected: &str, action: &str) -> FieldMatcher<StringInput, CoreMatcher, String> {
    FieldMatcher::new(single(expected), OnMatch::Action(action.to_string()))
}

// ── MatchingData ─────────────────────────────────────────────────────────

#[test]
fn matching_data_test_is_none() {
    assert!(MatchingData::Absent.is_none());
    assert!(!MatchingData::String("x".to_string()).is_none());
    assert!(!MatchingData::Int(42).is_none());
}

#[test]
fn matching_data_test_as_str() {
    let data = MatchingData::String("hello".to_string());
    assert_eq!(data.as_str(), Some("hello"));

    let data = MatchingData::Int(42);
    assert_eq!(data.as_str(), None);
}

#[test]
fn matching_data_test_type_name() {
    assert_eq!(MatchingData::Absent.type_label(), "none");
    assert_eq!(MatchingData::String("x".to_string()).type_label(), "string");
    assert_eq!(MatchingData::Int(1).type_label(), "int");
    assert_eq!(MatchingData::Bool(true).type_label(), "bool");
    assert_eq!(MatchingData::Bytes(vec![]).type_label(), "bytes");
}

#[test]
fn matching_data_variants() {
    assert!(MatchingData::Int(3).is_int());
    assert!(MatchingData::Bool(true).is_bool());
    assert!(MatchingData::Bytes(vec![1]).is_bytes());
    assert!(MatchingData::String("a".to_string()).is_string());
    assert_eq!(MatchingData::Int(3).as_int(), Some(3));
    assert_eq!(MatchingData::Bool(true).as_bool(), Some(true));
    assert_eq!(MatchingData::Bytes(vec![1, 2]).as_bytes(), Some(&[1u8, 2u8][..]));
    assert_eq!(MatchingData::default(), MatchingData::Absent);
}

// ── Concrete matchers ────────────────────────────────────────────────────

#[test]
fn input_matcher_test_exact_matcher() {
    let matcher = ExactMatcher::new("hello");
    assert!(matcher.matches(&s("hello")));
    assert!(!matcher.matches(&s("Hello")));
    assert!(!matcher.matches(&s("hello world")));
    assert!(!matcher.matches(&MatchingData::Absent));
    assert!(!matcher.matches(&MatchingData::Int(42)));
    assert_eq!(matcher.expected(), "hello");
}

#[test]
fn input_matcher_test_prefix_matcher() {
    let matcher = PrefixMatcher::new("/api/");
    assert!(matcher.matches(&s("/api/users")));
    assert!(matcher.matches(&s("/api/")));
    assert!(!matcher.matches(&s("/users")));
    assert!(!matcher.matches(&MatchingData::Absent));
    assert_eq!(matcher.prefix(), "/api/");
}

#[test]
fn input_matcher_test_suffix_matcher() {
    let matcher = SuffixMatcher::new(".json");
    assert!(matcher.matches(&s("file.json")));
    assert!(matcher.matches(&s(".json")));
    assert!(!matcher.matches(&s("file.xml")));
    assert_eq!(matcher.suffix(), ".json");
}

#[test]
fn input_matcher_test_contains_matcher() {
    let matcher = ContainsMatcher::new("error");
    assert!(matcher.matches(&s("an error occurred")));
    assert!(matcher.matches(&s("error")));
    assert!(!matcher.matches(&s("success")));
    assert_eq!(matcher.substring(), "error");
}

#[test]
fn input_matcher_test_bool_matcher() {
    let matcher = BoolMatcher::new(true);
    assert!(matcher.matches(&MatchingData::Bool(true)));
    assert!(!matcher.matches(&MatchingData::Bool(false)));
    assert!(!matcher.matches(&s("true")));
}

#[test]
fn supported_types_reported() {
    assert_eq!(ExactMatcher::new("x").supported_types(), vec!["string".to_string()]);
    assert_eq!(BoolMatcher::new(true).supported_types(), vec!["bool".to_string()]);
}

// ── DataInput ────────────────────────────────────────────────────────────

#[test]
fn test_data_input_basic() {
    let ctx = value_ctx("hello");
    let input = value_input();
    let data = input.get(&ctx);
    assert_eq!(data.as_str(), Some("hello"));
}

// ── SinglePredicate / Predicate ──────────────────────────────────────────

#[test]
fn predicate_test_single_predicate_matches() {
    let ctx = value_ctx("hello");
    let pred = SinglePredicate::new(value_input(), exact("hello"));
    assert!(pred.evaluate(&ctx));
}

#[test]
fn predicate_test_single_predicate_none_returns_false() {
    let ctx = value_ctx("hello");
    let pred = SinglePredicate::new(StringInput::new("missing"), exact("hello"));
    assert!(!pred.evaluate(&ctx));
}

#[test]
fn predicate_test_predicate_and() {
    let ctx = value_ctx("hello world");

    let pred = Predicate::And(vec![
        Predicate::Single(SinglePredicate::new(value_input(), contains("hello"))),
        Predicate::Single(SinglePredicate::new(value_input(), contains("world"))),
    ]);
    assert!(pred.evaluate(&ctx));

    let pred_fail = Predicate::And(vec![
        Predicate::Single(SinglePredicate::new(value_input(), contains("hello"))),
        Predicate::Single(SinglePredicate::new(value_input(), contains("foo"))),
    ]);
    assert!(!pred_fail.evaluate(&ctx));
}

#[test]
fn predicate_test_predicate_or() {
    let ctx = value_ctx("hello");
    let pred = Predicate::Or(vec![single("foo"), single("hello")]);
    assert!(pred.evaluate(&ctx));
}

#[test]
fn predicate_test_predicate_not() {
    let ctx = value_ctx("hello");
    let pred = Predicate::Not(Box::new(single("world")));
    assert!(pred.evaluate(&ctx));
}

#[test]
fn predicate_test_predicate_depth() {
    let one = single("x");
    assert_eq!(one.depth(), 1);

    let and = Predicate::And(vec![single("x")]);
    assert_eq!(and.depth(), 2);

    let nested = Predicate::Not(Box::new(Predicate::And(vec![single("x")])));
    assert_eq!(nested.depth(), 3);
}

#[test]
fn predicate_test_empty_and_returns_true() {
    let ctx = value_ctx("anything");
    let pred: Predicate<StringInput, CoreMatcher> = Predicate::And(vec![]);
    assert!(pred.evaluate(&ctx));
}

#[test]
fn predicate_test_empty_or_returns_false() {
    let ctx = value_ctx("anything");
    let pred: Predicate<StringInput, CoreMatcher> = Predicate::Or(vec![]);
    assert!(!pred.evaluate(&ctx));
}

fn catch_all() -> Predicate<StringInput, CoreMatcher> {
    Predicate::Single(SinglePredicate::new(value_input(), CoreMatcher::Prefix(PrefixMatcher::new(""))))
}

#[test]
fn from_all_empty_returns_catch_all() {
    let ctx = value_ctx("anything");
    let pred = Predicate::from_all(vec![], catch_all());
    assert!(pred.evaluate(&ctx));
}

#[test]
fn from_all_single_unwraps() {
    let pred = Predicate::from_all(vec![single("hello")], catch_all());
    assert!(pred.is_single());
}

#[test]
fn from_all_multiple_wraps_and() {
    let pred = Predicate::from_all(vec![single("a"), single("b")], catch_all());
    assert!(pred.is_and());
}

#[test]
fn from_any_empty_returns_catch_all() {
    let ctx = value_ctx("anything");
    let pred = Predicate::from_any(vec![], catch_all());
    assert!(pred.evaluate(&ctx));
}

#[test]
fn from_any_single_unwraps() {
    let pred = Predicate::from_any(vec![single("hello")], catch_all());
    assert!(pred.is_single());
}

#[test]
fn from_any_multiple_wraps_or() {
    let pred = Predicate::from_any(vec![single("a"), single("b")], catch_all());
    assert!(pred.is_or());
}

// ── Predicate traces ─────────────────────────────────────────────────────

#[test]
fn trace_single_no_match() {
    let ctx = value_ctx("world");
    let pred = SinglePredicate::new(value_input(), exact("hello"));
    let trace = pred.evaluate_with_trace(&ctx);
    assert!(!trace.matched());
}

#[test]
fn trace_and_all_match() {
    let ctx = value_ctx("hello world");
    let pred = Predicate::And(vec![
        Predicate::Single(SinglePredicate::new(value_input(), contains("hello"))),
        Predicate::Single(SinglePredicate::new(value_input(), contains("world"))),
    ]);
    let trace = pred.evaluate_with_trace(&ctx);

    assert!(trace.matched());
    if let PredicateTrace::And { children, .. } = &trace {
        assert_eq!(children.len(), 2);
        assert!(children[0].matched());
        assert!(children[1].matched());
    } else {
        panic!("expected And trace");
    }
}

#[test]
fn trace_and_partial_failure_evaluates_all() {
    let ctx = value_ctx("hello");
    let pred = Predicate::And(vec![single("nope"), single("hello")]);
    let trace = pred.evaluate_with_trace(&ctx);

    assert!(!trace.matched());
    if let PredicateTrace::And { children, .. } = &trace {
        assert_eq!(children.len(), 2);
        assert!(!children[0].matched());
        assert!(children[1].matched());
    } else {
        panic!("expected And trace");
    }
}

#[test]
fn trace_or_first_match() {
    let ctx = value_ctx("hello");
    let pred = Predicate::Or(vec![single("hello"), single("nope")]);
    let trace = pred.evaluate_with_trace(&ctx);

    assert!(trace.matched());
    if let PredicateTrace::Or { children, .. } = &trace {
        assert_eq!(children.len(), 2);
        assert!(children[0].matched());
        assert!(!children[1].matched());
    } else {
        panic!("expected Or trace");
    }
}

#[test]
fn trace_not() {
    let ctx = value_ctx("hello");
    let pred = Predicate::Not(Box::new(single("world")));
    let trace = pred.evaluate_with_trace(&ctx);

    assert!(trace.matched());
    if let PredicateTrace::Not { inner, .. } = &trace {
        assert!(!inner.matched());
    } else {
        panic!("expected Not trace");
    }
}

#[test]
fn trace_empty_and_returns_true() {
    let ctx = value_ctx("x");
    let pred: Predicate<StringInput, CoreMatcher> = Predicate::And(vec![]);
    let trace = pred.evaluate_with_trace(&ctx);
    assert!(trace.matched());
}

#[test]
fn trace_empty_or_returns_false() {
    let ctx = value_ctx("x");
    let pred: Predicate<StringInput, CoreMatcher> = Predicate::Or(vec![]);
    let trace = pred.evaluate_with_trace(&ctx);
    assert!(!trace.matched());
}

#[test]
fn trace_result_matches_evaluate() {
    let ctx = value_ctx("hello world");
    let pred = Predicate::And(vec![
        Predicate::Or(vec![
            single("nope"),
            Predicate::Single(SinglePredicate::new(value_input(), contains("hello"))),
        ]),
        Predicate::Not(Box::new(single("nope"))),
    ]);

    let eval_result = pred.evaluate(&ctx);
    let trace = pred.evaluate_with_trace(&ctx);
    assert_eq!(eval_result, trace.matched());
}

// ── Trace value constructors ─────────────────────────────────────────────

#[test]
fn predicate_trace_matched_single() {
    let trace = PredicateTrace::Single {
        matched: true,
        input: "TestInput".to_string(),
        data: "String(\"hello\")".to_string(),
        matcher: "ExactMatcher(\"hello\")".to_string(),
    };
    assert!(trace.matched());
}

#[test]
fn predicate_trace_matched_and() {
    let trace = PredicateTrace::And { matched: false, children: vec![] };
    assert!(!trace.matched());
}

#[test]
fn predicate_trace_matched_or() {
    let trace = PredicateTrace::Or { matched: true, children: vec![] };
    assert!(trace.matched());
}

#[test]
fn predicate_trace_matched_not() {
    let trace = PredicateTrace::Not {
        matched: true,
        inner: Box::new(PredicateTrace::Single {
            matched: false,
            input: String::new(),
            data: String::new(),
            matcher: String::new(),
        }),
    };
    assert!(trace.matched());
}

// ── OnMatch ──────────────────────────────────────────────────────────────

#[test]
fn test_on_match_action() {
    let on_match: OnMatch<StringInput, CoreMatcher, String> = OnMatch::action("test".to_string());
    assert!(on_match.is_action());
    assert!(!on_match.is_matcher());
    assert_eq!(on_match.as_action(), Some(&"test".to_string()));
}

#[test]
fn test_on_match_matcher() {
    let nested: Matcher<StringInput, CoreMatcher, String> = Matcher::empty();
    let on_match = OnMatch::matcher(nested);
    assert!(!on_match.is_action());
    assert!(on_match.is_matcher());
    assert!(on_match.as_matcher().is_some());
}

// ── FieldMatcher ─────────────────────────────────────────────────────────

#[test]
fn test_field_matcher_matches() {
    let field_matcher = field("hello", "matched");

    let ctx = value_ctx("hello");
    assert!(field_matcher.matches(&ctx));

    let ctx_no_match = value_ctx("world");
    assert!(!field_matcher.matches(&ctx_no_match));
}

// ── Matcher ──────────────────────────────────────────────────────────────

#[test]
fn test_matcher_first_match_wins() {
    let matcher = Matcher::new(vec![field("hello", "first"), field("hello", "second")], None);
    let ctx = value_ctx("hello");
    assert_eq!(matcher.evaluate(&ctx), Some(&"first".to_string()));
}

#[test]
fn test_matcher_no_match_fallback() {
    let matcher = Matcher::new(
        vec![field("hello", "first")],
        Some(OnMatch::action("fallback".to_string())),
    );
    let ctx = value_ctx("world");
    assert_eq!(matcher.evaluate(&ctx), Some(&"fallback".to_string()));
}

#[test]
fn test_matcher_no_match_no_fallback() {
    let matcher: Matcher<StringInput, CoreMatcher, String> =
        Matcher::new(vec![field("hello", "first")], None);
    let ctx = value_ctx("world");
    assert_eq!(matcher.evaluate(&ctx), None);
}

#[test]
fn test_matcher_multiple_rules() {
    let matcher = Matcher::new(
        vec![field("hello", "hello_action"), field("world", "world_action")],
        Some(OnMatch::action("default".to_string())),
    );

    assert_eq!(matcher.evaluate(&value_ctx("hello")), Some(&"hello_action".to_string()));
    assert_eq!(matcher.evaluate(&value_ctx("world")), Some(&"world_action".to_string()));
    assert_eq!(matcher.evaluate(&value_ctx("other")), Some(&"default".to_string()));
}

#[test]
fn test_nested_matcher_failure_propagates() {
    let nested = Matcher::new(vec![field("will_not_match", "nested_action")], None);

    let parent = Matcher::new(
        vec![
            FieldMatcher::new(single("hello"), OnMatch::matcher(nested)),
            field("hello", "second_action"),
        ],
        None,
    );

    let ctx = value_ctx("hello");
    assert_eq!(parent.evaluate(&ctx), Some(&"second_action".to_string()));
}

#[test]
fn test_matcher_depth() {
    let simple: Matcher<StringInput, CoreMatcher, String> =
        Matcher::new(vec![field("x", "y")], None);
    assert_eq!(simple.depth(), 2);
}

#[test]
fn test_validate_shallow_matcher_ok() {
    let matcher: Matcher<StringInput, CoreMatcher, String> =
        Matcher::new(vec![field("x", "y")], None);
    assert!(matcher.validate().is_ok());
}

#[test]
fn test_validate_deeply_nested_matcher_fails() {
    let mut current: Matcher<StringInput, CoreMatcher, String> =
        Matcher::new(vec![field("leaf", "action")], None);

    for _ in 0..MAX_DEPTH {
        current = Matcher::new(
            vec![FieldMatcher::new(single("x"), OnMatch::matcher(current))],
            None,
        );
    }

    let result = current.validate();
    assert!(result.is_err());
    assert!(matches!(result, Err(MatcherError::DepthExceeded { .. })));
}

#[test]
fn test_validate_at_max_depth_ok() {
    let mut current: Matcher<StringInput, CoreMatcher, String> =
        Matcher::new(vec![field("leaf", "action")], None);

    for _ in 0..(MAX_DEPTH - 2) {
        current = Matcher::new(
            vec![FieldMatcher::new(single("x"), OnMatch::matcher(current))],
            None,
        );
    }

    assert_eq!(current.depth(), MAX_DEPTH);
    assert!(current.validate().is_ok());
}

#[test]
fn matcher_len_and_fallback() {
    let m: Matcher<StringInput, CoreMatcher, String> = Matcher::new(
        vec![field("a", "x"), field("b", "y")],
        Some(OnMatch::action("z".to_string())),
    );
    assert_eq!(m.len(), 2);
    assert!(!m.is_empty());
    assert!(m.has_fallback());
    let e: Matcher<StringInput, CoreMatcher, String> = Matcher::empty();
    assert!(e.is_empty());
    assert!(!e.has_fallback());
}

// ── Matcher traces ───────────────────────────────────────────────────────

#[test]
fn matcher_trace_result_matches_evaluate() {
    let matcher = Matcher::new(
        vec![field("hello", "first"), field("world", "second")],
        Some(OnMatch::action("fallback".to_string())),
    );
    for v in ["hello", "world", "zzz"] {
        let ctx = value_ctx(v);
        let trace = matcher.evaluate_with_trace(&ctx);
        assert_eq!(trace.result, matcher.evaluate(&ctx));
    }
}

#[test]
fn matcher_trace_reports_fallback() {
    let matcher = Matcher::new(
        vec![field("hello", "first")],
        Some(OnMatch::action("fallback".to_string())),
    );
    let trace = matcher.evaluate_with_trace(&value_ctx("zzz"));
    assert!(trace.used_fallback);
    assert_eq!(trace.steps.len(), 1);
    assert_eq!(trace.steps[0].index, 0);
    assert!(!trace.steps[0].matched);

    let trace = matcher.evaluate_with_trace(&value_ctx("hello"));
    assert!(!trace.used_fallback);
}

// ── Renderings ───────────────────────────────────────────────────────────

#[test]
fn matching_data_renders_for_traces() {
    assert_eq!(MatchingData::Absent.render(), "None");
    assert_eq!(MatchingData::String("hi".to_string()).render(), "String(\"hi\")");
    assert_eq!(MatchingData::Int(42).render(), "Int(42)");
    assert_eq!(MatchingData::Int(-5).render(), "Int(-5)");
    assert_eq!(MatchingData::Bool(true).render(), "Bool(true)");
    assert_eq!(MatchingData::Bytes(vec![1, 2, 3]).render(), "Bytes(len=3)");
}

#[test]
fn single_trace_records_renderings() {
    let ctx = value_ctx("hello");
    let pred = SinglePredicate::new(value_input(), exact("hello"));
    let trace = pred.evaluate_with_trace(&ctx);
    if let PredicateTrace::Single { matched, input, data, matcher } = &trace {
        assert!(matched);
        assert_eq!(input, "StringInput");
        assert_eq!(data, "String(\"hello\")");
        assert_eq!(matcher, "Exact(\"hello\")");
    } else {
        panic!("expected Single trace");
    }
}

// ── Case-insensitive string matching ─────────────────────────────────────

#[test]
fn test_string_matcher_exact() {
    let m = StringMatcher::exact("hello", false);
    assert!(m.matches(&s("hello")));
    assert!(!m.matches(&s("Hello")));

    let m = StringMatcher::exact("hello", true);
    assert!(m.matches(&s("hello")));
    assert!(m.matches(&s("HELLO")));
}

#[test]
fn test_string_matcher_suffix() {
    let m = StringMatcher::suffix(".JSON", true);
    assert!(m.matches(&s("file.json")));
    assert!(m.matches(&s("file.JSON")));
    assert!(!m.matches(&s("file.xml")));
}

#[test]
fn test_string_matcher_contains() {
    let m = StringMatcher::contains("error", true);
    assert!(m.matches(&s("an ERROR occurred")));
    assert!(!m.matches(&s("fine")));
}

#[test]
fn test_string_matcher_regex_ignore_case() {
    let m = StringMatcher::regex(r"^user-\d+$").unwrap();
    assert!(m.matches(&s("user-123")));
    assert!(!m.matches(&s("USER-123")));

    let m = StringMatcher::regex_ignore_case(r"^user-\d+$").unwrap();
    assert!(m.matches(&s("USER-123")));
}
