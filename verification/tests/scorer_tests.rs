use evalcraft::{
    ContainsScorer, ExactMatchScorer, JsonScorer, JsonValue, LevenshteinScorer, RegexScorer,
    Scorer, SqlScorer,
};

fn text(s: &str) -> JsonValue {
    JsonValue::Text(s.to_string())
}

fn num(s: &str) -> JsonValue {
    JsonValue::Num(s.to_string())
}

fn obj(fields: Vec<(&str, JsonValue)>) -> JsonValue {
    JsonValue::Obj(fields.into_iter().map(|(k, v)| (k.to_string(), v)).collect())
}

fn arr(items: Vec<JsonValue>) -> JsonValue {
    JsonValue::Arr(items)
}

const UNIT: u32 = 1_000_000;

#[test]
fn test_contains_found() {
    let scorer = ContainsScorer::new("Paris".to_string());
    let output = text("The capital of France is Paris");
    let expected = text("");
    let score = scorer.score(&expected, &output).unwrap();
    assert!(score.passed);
    assert_eq!(score.value_micros, UNIT);
}

#[test]
fn test_contains_not_found() {
    let scorer = ContainsScorer::new("London".to_string());
    let output = text("The capital of France is Paris");
    let expected = text("");
    let score = scorer.score(&expected, &output).unwrap();
    assert!(!score.passed);
    assert_eq!(score.value_micros, 0);
}

#[test]
fn test_contains_case_insensitive() {
    let scorer = ContainsScorer::case_insensitive("PARIS".to_string());
    let output = text("The capital of France is paris");
    let expected = text("");
    let score = scorer.score(&expected, &output).unwrap();
    assert!(score.passed);
    assert_eq!(score.value_micros, UNIT);
}

#[test]
fn test_contains_case_sensitive_fail() {
    let scorer = ContainsScorer::new("PARIS".to_string());
    let output = text("The capital of France is Paris");
    let expected = text("");
    let score = scorer.score(&expected, &output).unwrap();
    assert!(!score.passed);
    assert_eq!(score.value_micros, 0);
}

#[test]
fn test_contains_details_record_the_outcome() {
    let scorer = ContainsScorer::new("Paris".to_string());
    let output = text("The capital of France is Paris");
    let score = scorer.score(&text(""), &output).unwrap();
    let details = score.details.expect("contains records details");
    let expected_details = obj(vec![
        ("substring", text("Paris")),
        ("case_sensitive", JsonValue::Bool(true)),
        ("found", JsonValue::Bool(true)),
    ]);
    assert_eq!(details, expected_details);
}

#[test]
fn test_exact_match_passes_on_equal_values() {
    let scorer = ExactMatchScorer;
    let value = obj(vec![("a", arr(vec![num("1"), text("x")])), ("b", JsonValue::Null)]);
    let same = obj(vec![("a", arr(vec![num("1"), text("x")])), ("b", JsonValue::Null)]);
    let score = scorer.score(&value, &same).unwrap();
    assert!(score.passed);
    assert_eq!(score.value_micros, UNIT);
    assert_eq!(score.name, "exact_match");
}

#[test]
fn test_exact_match_fails_on_nested_difference() {
    let scorer = ExactMatchScorer;
    let expected = obj(vec![("a", arr(vec![num("1"), text("x")]))]);
    let output = obj(vec![("a", arr(vec![num("1"), text("y")]))]);
    let score = scorer.score(&expected, &output).unwrap();
    assert!(!score.passed);
    assert_eq!(score.value_micros, 0);
}

#[test]
fn test_regex_match() {
    let scorer = RegexScorer::new("capital.*Paris".to_string()).unwrap();
    let output = text("The capital of France is Paris");
    let expected = text("");
    let score = scorer.score(&expected, &output).unwrap();
    assert!(score.passed);
    assert_eq!(score.value_micros, UNIT);
}

#[test]
fn test_regex_no_match() {
    let scorer = RegexScorer::new("capital.*London".to_string()).unwrap();
    let output = text("The capital of France is Paris");
    let expected = text("");
    let score = scorer.score(&expected, &output).unwrap();
    assert!(!score.passed);
    assert_eq!(score.value_micros, 0);
}

#[test]
fn test_regex_email() {
    let scorer =
        RegexScorer::new("^[a-zA-Z0-9._%+-]+@[a-zA-Z0-9.-]+\\.[a-zA-Z]{2,}$".to_string()).unwrap();
    let output = text("user@example.com");
    let expected = text("");
    let score = scorer.score(&expected, &output).unwrap();
    assert!(score.passed);
    assert_eq!(score.value_micros, UNIT);
}

#[test]
fn test_regex_with_capture_groups() {
    let scorer = RegexScorer::new("(\\d{4})-(\\d{2})-(\\d{2})".to_string()).unwrap();
    let output = text("Date: 2024-11-12");
    let expected = text("");
    let score = scorer.score(&expected, &output).unwrap();
    assert!(score.passed);
    assert_eq!(score.value_micros, UNIT);
}

#[test]
fn test_regex_rejects_invalid_pattern() {
    assert!(RegexScorer::new("(unclosed".to_string()).is_err());
}

#[test]
fn test_sql_valid_select() {
    let scorer = SqlScorer::generic();
    let output = text("SELECT * FROM users WHERE age > 18");
    let expected = text("");
    let score = scorer.score(&expected, &output).unwrap();
    assert!(score.passed);
    assert_eq!(score.value_micros, UNIT);
}

#[test]
fn test_sql_valid_insert() {
    let scorer = SqlScorer::generic();
    let output = text("INSERT INTO users (name, age) VALUES ('John', 30)");
    let expected = text("");
    let score = scorer.score(&expected, &output).unwrap();
    assert!(score.passed);
    assert_eq!(score.value_micros, UNIT);
}

#[test]
fn test_sql_invalid() {
    let scorer = SqlScorer::generic();
    // a trailing WHERE without a condition parses under no dialect
    let output = text("SELECT * FROM users WHERE");
    let expected = text("");
    let score = scorer.score(&expected, &output).unwrap();
    assert!(!score.passed);
    assert_eq!(score.value_micros, 0);
}

#[test]
fn test_sql_from_json_object() {
    let scorer = SqlScorer::generic();
    let output = obj(vec![("sql", text("SELECT id, name FROM products"))]);
    let expected = text("");
    let score = scorer.score(&expected, &output).unwrap();
    assert!(score.passed);
    assert_eq!(score.value_micros, UNIT);
}

#[test]
fn test_sql_postgres_specific() {
    let scorer = SqlScorer::postgres();
    let output = text("SELECT * FROM users LIMIT 10 OFFSET 20");
    let expected = text("");
    let score = scorer.score(&expected, &output).unwrap();
    assert!(score.passed);
    assert_eq!(score.value_micros, UNIT);
}

#[test]
fn test_json_valid() {
    let scorer = JsonScorer::new();
    let output = obj(vec![("name", text("John")), ("age", num("30"))]);
    let expected = obj(vec![]);
    let score = scorer.score(&expected, &output).unwrap();
    assert!(score.passed);
    assert_eq!(score.value_micros, UNIT);
}

#[test]
fn test_json_strict_match() {
    let scorer = JsonScorer::strict();
    let expected = obj(vec![("name", text("John")), ("age", num("30"))]);
    let output = obj(vec![("name", text("Jane")), ("age", num("25"))]);
    let score = scorer.score(&expected, &output).unwrap();
    assert!(score.passed);
}

#[test]
fn test_json_strict_mismatch() {
    let scorer = JsonScorer::strict();
    let expected = obj(vec![("name", text("John")), ("age", num("30"))]);
    let output = obj(vec![("name", text("Jane"))]);
    let score = scorer.score(&expected, &output).unwrap();
    assert!(!score.passed);
    assert_eq!(score.value_micros, 0);
}

fn person_schema() -> JsonValue {
    obj(vec![
        ("type", text("object")),
        (
            "properties",
            obj(vec![
                ("name", obj(vec![("type", text("string"))])),
                ("age", obj(vec![("type", text("number"))])),
            ]),
        ),
        ("required", arr(vec![text("name"), text("age")])),
    ])
}

#[test]
fn test_json_with_schema() {
    let scorer = JsonScorer::with_schema(person_schema()).unwrap();
    let output = obj(vec![("name", text("John")), ("age", num("30"))]);
    let expected = obj(vec![]);
    let score = scorer.score(&expected, &output).unwrap();
    assert!(score.passed);
    assert_eq!(score.value_micros, UNIT);
}

#[test]
fn test_json_schema_fail() {
    let scorer = JsonScorer::with_schema(person_schema()).unwrap();
    let output = obj(vec![("name", text("John"))]);
    let expected = obj(vec![]);
    let score = scorer.score(&expected, &output).unwrap();
    assert!(!score.passed);
    assert_eq!(score.value_micros, 0);
}

#[test]
fn test_levenshtein_similarity_value() {
    let scorer = LevenshteinScorer::new(500_000);
    let expected = text("kitten");
    let output = text("sitting");
    let score = scorer.score(&expected, &output).unwrap();
    // distance 3 over the longer length 7: four sevenths of a unit.
    assert_eq!(score.value_micros, 4 * 1_000_000 / 7);
    assert!(score.passed);
}

#[test]
fn test_levenshtein_below_threshold_fails() {
    let scorer = LevenshteinScorer::new(900_000);
    let score = scorer.score(&text("kitten"), &text("sitting")).unwrap();
    assert!(!score.passed);
}

#[test]
fn test_levenshtein_identical_is_full_marks() {
    let scorer = LevenshteinScorer::new(1_000_000);
    let score = scorer.score(&text("same"), &text("same")).unwrap();
    assert_eq!(score.value_micros, 1_000_000);
    assert!(score.passed);
}
