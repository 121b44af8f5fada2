use evalcraft::{
    clear_traces, get_traces, report_trace, JsonValue, TokenUsage, Trace, TraceScope,
};

fn text(s: &str) -> JsonValue {
    JsonValue::Text(s.to_string())
}

fn obj(fields: Vec<(&str, JsonValue)>) -> JsonValue {
    JsonValue::Obj(fields.into_iter().map(|(k, v)| (k.to_string(), v)).collect())
}

#[test]
fn test_trace_builder() {
    let trace = Trace::start_now().model("gpt-4o-mini".to_string()).id("trace-1".to_string())
        .finish(
            obj(vec![(
                "messages",
                JsonValue::Arr(vec![obj(vec![
                    ("role", text("user")),
                    ("content", text("Hello")),
                ])]),
            )]),
            obj(vec![("content", text("Hi there!"))]),
            Some(TokenUsage { input_tokens: 10, output_tokens: 5, total_tokens: 15 }),
        );

    assert_eq!(trace.model, Some("gpt-4o-mini".to_string()));
    assert!(trace.duration_ms.is_some());
    assert!(trace.error.is_none());
}

#[test]
fn test_report_and_get_traces() {
    let mut scope = TraceScope::new();
    clear_traces(&mut scope);

    let trace1 = Trace::start_now().model("gpt-4".to_string()).finish(
        text("input1"),
        text("output1"),
        None,
    );

    let trace2 = Trace::start_now().model("other-model".to_string()).finish(
        text("input2"),
        text("output2"),
        None,
    );

    report_trace(&mut scope, trace1);
    report_trace(&mut scope, trace2);

    let traces = get_traces(&scope);
    assert_eq!(traces.len(), 2);

    clear_traces(&mut scope);
    assert_eq!(get_traces(&scope).len(), 0);
}

#[test]
fn test_traces_keep_emission_order() {
    let mut scope = TraceScope::new();
    for i in 0..4 {
        let t = Trace::start_now().id(format!("t{}", i)).finish(JsonValue::Null, JsonValue::Null, None);
        report_trace(&mut scope, t);
    }
    let traces = scope.into_traces();
    let ids: Vec<String> = traces.into_iter().map(|t| t.id.unwrap()).collect();
    assert_eq!(ids, vec!["t0", "t1", "t2", "t3"]);
}

#[test]
fn test_two_scopes_stay_isolated() {
    let mut left = TraceScope::new();
    let mut right = TraceScope::new();

    // Interleave emissions into the two scopes, as two concurrently
    // executing cases would.
    for i in 0..3 {
        let lt = Trace::start_now().id(format!("left-{}", i)).finish(
            JsonValue::Null,
            JsonValue::Null,
            None,
        );
        report_trace(&mut left, lt);
        let rt = Trace::start_now().id(format!("right-{}", i)).finish(
            JsonValue::Null,
            JsonValue::Null,
            None,
        );
        report_trace(&mut right, rt);
    }

    let left_traces = left.into_traces();
    let right_traces = right.into_traces();
    assert_eq!(left_traces.len(), 3);
    assert_eq!(right_traces.len(), 3);
    for t in &left_traces {
        assert!(t.id.as_ref().unwrap().starts_with("left-"));
    }
    for t in &right_traces {
        assert!(t.id.as_ref().unwrap().starts_with("right-"));
    }
}

#[test]
fn test_finish_with_error_keeps_the_message() {
    let trace = Trace::start_now().finish_with_error(text("in"), "model refused".to_string());
    assert_eq!(trace.error, Some("model refused".to_string()));
    assert_eq!(trace.output, JsonValue::Null);
    assert!(trace.usage.is_none());
}
