use evalcraft::datasource::obj_get;
use evalcraft::render::to_json_string;
use evalcraft::text::{contains_str, html_escape, str_eq, truncate, value_preview};
use evalcraft::value::{clone_value, json_eq};
use evalcraft::{
    assert_eval_all_passed, assert_eval_avg_score, assert_eval_pass_rate, CaseParseError,
    CaseResult, EvalResult, EvalSummary, JsonValue, JsonlDataSource, Score, TestCase,
};

fn text(s: &str) -> JsonValue {
    JsonValue::Text(s.to_string())
}

fn num(s: &str) -> JsonValue {
    JsonValue::Num(s.to_string())
}

fn obj(fields: Vec<(&str, JsonValue)>) -> JsonValue {
    JsonValue::Obj(fields.into_iter().map(|(k, v)| (k.to_string(), v)).collect())
}

fn arr(items: Vec<JsonValue>) -> JsonValue {
    JsonValue::Arr(items)
}

#[test]
fn test_json_eq_deep_equality() {
    let a = obj(vec![
        ("k", arr(vec![num("1"), text("x"), JsonValue::Bool(true), JsonValue::Null])),
        ("m", obj(vec![("inner", text("v"))])),
    ]);
    let b = obj(vec![
        ("k", arr(vec![num("1"), text("x"), JsonValue::Bool(true), JsonValue::Null])),
        ("m", obj(vec![("inner", text("v"))])),
    ]);
    assert!(json_eq(&a, &b));
    let c = obj(vec![
        ("k", arr(vec![num("1"), text("x"), JsonValue::Bool(true), JsonValue::Null])),
        ("m", obj(vec![("inner", text("w"))])),
    ]);
    assert!(!json_eq(&a, &c));
    assert!(!json_eq(&a, &text("k")));
}

#[test]
fn test_clone_value_is_deep_and_exact() {
    let v = obj(vec![("k", arr(vec![num("1"), text("x")])), ("n", JsonValue::Null)]);
    let copy = clone_value(&v);
    assert!(json_eq(&v, &copy));
    assert_eq!(v, copy);
}

#[test]
fn test_to_json_string_renders_exactly() {
    let v = obj(vec![
        ("a", arr(vec![num("1"), text("x\"y")])),
        ("b", JsonValue::Bool(false)),
        ("c", JsonValue::Null),
    ]);
    assert_eq!(to_json_string(&v), "{\"a\":[1,\"x\\\"y\"],\"b\":false,\"c\":null}");
}

#[test]
fn test_to_json_string_escapes_controls() {
    let v = text("line\nbreak\ttab\u{1}");
    assert_eq!(to_json_string(&v), "\"line\\nbreak\\ttab\\u0001\"");
}

#[test]
fn test_stringify_and_preview_differ_on_null() {
    assert_eq!(evalcraft::text::stringify(&JsonValue::Null), "");
    assert_eq!(value_preview(&JsonValue::Null), "null");
    assert_eq!(evalcraft::text::stringify(&text("plain")), "plain");
    assert_eq!(value_preview(&text("plain")), "plain");
    assert_eq!(evalcraft::text::stringify(&num("7")), "7");
}

#[test]
fn test_truncate_marks_the_cut() {
    assert_eq!(truncate("short".to_string(), 10), "short");
    assert_eq!(truncate("a long sentence".to_string(), 7), "a long…");
    assert_eq!(truncate("abc".to_string(), 0), "…");
}

#[test]
fn test_html_escape_all_special_characters() {
    assert_eq!(html_escape("<a href=\"x\">&'"), "&lt;a href=&quot;x&quot;&gt;&amp;&#39;");
    assert_eq!(html_escape("plain"), "plain");
}

#[test]
fn test_contains_str_edges() {
    assert!(contains_str("hello world", "lo wo"));
    assert!(contains_str("hello", ""));
    assert!(!contains_str("", "x"));
    assert!(!contains_str("abc", "abcd"));
    assert!(contains_str("abc", "abc"));
}

#[test]
fn test_str_eq_on_characters() {
    assert!(str_eq("same", "same"));
    assert!(!str_eq("same", "sane"));
    assert!(!str_eq("same", "same "));
}

#[test]
fn test_obj_get_first_match_wins() {
    let fields = vec![
        ("k".to_string(), text("first")),
        ("k".to_string(), text("second")),
        ("other".to_string(), text("x")),
    ];
    assert_eq!(obj_get(&fields, "k"), Some(&text("first")));
    assert_eq!(obj_get(&fields, "missing"), None);
}

#[test]
fn test_cases_from_values_accepts_records() {
    let values = vec![
        obj(vec![("id", text("one")), ("input", text("in")), ("expected", text("out"))]),
        obj(vec![("input", num("1")), ("expected", num("2"))]),
        obj(vec![("input", text("x")), ("expected", text("y")), ("id", num("7"))]),
    ];
    let cases = JsonlDataSource::cases_from_values(&values).unwrap();
    assert_eq!(cases.len(), 3);
    assert_eq!(cases[0].id, Some("one".to_string()));
    assert_eq!(cases[0].input, text("in"));
    assert_eq!(cases[0].expected, text("out"));
    assert_eq!(cases[1].id, None);
    // an `id` that is not a string names nothing
    assert_eq!(cases[2].id, None);
}

#[test]
fn test_cases_from_values_rejects_non_objects() {
    let values = vec![
        obj(vec![("input", text("a")), ("expected", text("b"))]),
        text("not a record"),
    ];
    let err = JsonlDataSource::cases_from_values(&values).unwrap_err();
    assert_eq!(err, CaseParseError::NotAnObject { index: 1 });
}

#[test]
fn test_cases_from_values_requires_input() {
    let values = vec![obj(vec![("expected", text("b"))])];
    let err = JsonlDataSource::cases_from_values(&values).unwrap_err();
    assert_eq!(err, CaseParseError::MissingInput { index: 0 });
}

#[test]
fn test_cases_from_values_requires_expected() {
    let values = vec![obj(vec![("input", text("a"))])];
    let err = JsonlDataSource::cases_from_values(&values).unwrap_err();
    assert_eq!(err, CaseParseError::MissingExpected { index: 0 });
}

#[test]
fn test_jsonl_source_remembers_its_path() {
    let source = JsonlDataSource::new("cases.jsonl".to_string());
    assert_eq!(source.path().as_str(), "cases.jsonl");
}

#[test]
fn test_summarize_counts_exactly() {
    let make_score = |passed: bool, value_micros: u32| Score {
        name: "s".to_string(),
        value_micros,
        passed,
        details: None,
    };
    let make_case = |scores: Vec<Score>, error: Option<&str>| CaseResult {
        case: TestCase::new(JsonValue::Null, JsonValue::Null),
        output: JsonValue::Null,
        error: error.map(|e| e.to_string()),
        scores,
        traces: Vec::new(),
    };
    let cases = vec![
        make_case(vec![make_score(true, 1_000_000), make_score(true, 500_000)], None),
        make_case(vec![make_score(true, 1_000_000), make_score(false, 0)], None),
        make_case(vec![], Some("task error")),
        make_case(vec![], None),
    ];
    let summary = EvalResult::summarize(&cases);
    assert_eq!(summary.total, 4);
    // only the case whose scores are non-empty and all passing counts
    assert_eq!(summary.passed, 1);
    assert_eq!(summary.score_count, 4);
    assert_eq!(summary.score_sum_micros, 2_500_000);
    // the mean runs over every individual score, not per-case averages
    assert_eq!(summary.avg_score_micros(), 625_000);
    assert_eq!(summary.pass_rate_micros(), 250_000);
}

#[test]
fn test_assertion_helpers_check_thresholds() {
    let passing = CaseResult {
        case: TestCase::new(JsonValue::Null, JsonValue::Null),
        output: JsonValue::Null,
        error: None,
        scores: vec![Score {
            name: "s".to_string(),
            value_micros: 800_000,
            passed: true,
            details: None,
        }],
        traces: Vec::new(),
    };
    let cases = vec![passing];
    let summary = EvalResult::summarize(&cases);
    assert_eq!(summary, EvalSummary {
        total: 1,
        passed: 1,
        score_sum_micros: 800_000,
        score_count: 1,
    });
    let result = EvalResult { cases, summary };
    assert!(assert_eval_pass_rate(&result, 1_000_000).is_ok());
    assert!(assert_eval_avg_score(&result, 800_000).is_ok());
    assert!(assert_eval_avg_score(&result, 800_001).is_err());
    assert!(assert_eval_all_passed(&result).is_ok());
}
