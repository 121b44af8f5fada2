use evalcraft::{
    report_trace, DataSource, Eval, EvalBuilder, EvalError, ExactMatchScorer, JsonValue,
    ResultCollector, Scorer, Score, Task, TestCase, Trace, TraceScope, VecDataSource,
};

fn text(s: &str) -> JsonValue {
    JsonValue::Text(s.to_string())
}

/// Echoes its text input with a fixed suffix appended.
struct SuffixTask;

impl Task for SuffixTask {
    fn run(&self, input: &JsonValue, _scope: &mut TraceScope) -> Result<JsonValue, String> {
        match input {
            JsonValue::Text(s) => Ok(JsonValue::Text(format!("{} world", s))),
            _ => Ok(JsonValue::Null),
        }
    }
}

/// Echoes its input, failing on the marker input.
struct FailOnBoomTask;

impl Task for FailOnBoomTask {
    fn run(&self, input: &JsonValue, _scope: &mut TraceScope) -> Result<JsonValue, String> {
        match input {
            JsonValue::Text(s) if s == "boom" => Err("task exploded".to_string()),
            JsonValue::Text(s) => Ok(JsonValue::Text(s.clone())),
            _ => Ok(JsonValue::Null),
        }
    }
}

/// Emits one trace tagged with the case's own input text, then echoes.
struct TaggingTask;

impl Task for TaggingTask {
    fn run(&self, input: &JsonValue, scope: &mut TraceScope) -> Result<JsonValue, String> {
        let tag = match input {
            JsonValue::Text(s) => s.clone(),
            _ => "untagged".to_string(),
        };
        let trace = Trace::start_now().id(tag).finish(JsonValue::Null, JsonValue::Null, None);
        report_trace(scope, trace);
        match input {
            JsonValue::Text(s) => Ok(JsonValue::Text(s.clone())),
            _ => Ok(JsonValue::Null),
        }
    }
}

/// A scorer whose internals always fail.
struct BrokenScorer;

impl Scorer for BrokenScorer {
    fn name(&self) -> String {
        "broken".to_string()
    }

    fn score(&self, _expected: &JsonValue, _output: &JsonValue) -> Result<Score, String> {
        Err("malformed pattern".to_string())
    }
}

/// A source that cannot load.
struct FailingSource;

impl DataSource for FailingSource {
    fn load(&self) -> Result<Vec<TestCase>, String> {
        Err("no data".to_string())
    }
}

fn suffix_cases() -> Vec<TestCase> {
    vec![
        TestCase::with_id("a".to_string(), text("hello"), text("hello world")),
        TestCase::with_id("b".to_string(), text("big"), text("big world")),
    ]
}

#[test]
fn test_scenario_two_matching_cases_full_marks() {
    let eval = Eval::builder()
        .data_source(VecDataSource::new(suffix_cases()))
        .task(SuffixTask)
        .add_scorer(ExactMatchScorer)
        .build()
        .unwrap();
    let result = eval.run().unwrap();
    assert_eq!(result.summary.total, 2);
    assert_eq!(result.summary.passed, 2);
    assert_eq!(result.summary.pass_rate_micros(), 1_000_000);
    assert_eq!(result.summary.avg_score_micros(), 1_000_000);
}

#[test]
fn test_scenario_one_task_failure_is_local() {
    let cases = vec![
        TestCase::new(text("one"), text("one")),
        TestCase::new(text("boom"), text("boom")),
        TestCase::new(text("three"), text("three")),
    ];
    let eval = Eval::builder()
        .data_source(VecDataSource::new(cases))
        .task(FailOnBoomTask)
        .add_scorer(ExactMatchScorer)
        .build()
        .unwrap();
    let result = eval.run().unwrap();
    assert_eq!(result.summary.total, 3);
    assert_eq!(result.summary.passed, 2);
    let failed = &result.cases[1];
    assert_eq!(failed.error, Some("task exploded".to_string()));
    assert!(failed.scores.is_empty());
    assert_eq!(failed.output, JsonValue::Null);
    assert!(result.cases[0].error.is_none());
    assert!(result.cases[2].error.is_none());
}

#[test]
fn test_scenario_broken_scorer_yields_synthetic_score() {
    let cases = vec![TestCase::new(text("in"), text("in"))];
    let eval = Eval::builder()
        .data_source(VecDataSource::new(cases))
        .task(FailOnBoomTask)
        .add_scorer(BrokenScorer)
        .build()
        .unwrap();
    let result = eval.run().unwrap();
    let cr = &result.cases[0];
    assert!(cr.error.is_none(), "a scorer failure is not a task error");
    assert_eq!(cr.scores.len(), 1);
    let score = &cr.scores[0];
    assert_eq!(score.name, "broken");
    assert!(!score.passed);
    assert_eq!(score.value_micros, 0);
    let details = score.details.as_ref().unwrap();
    let expected_details = JsonValue::Obj(vec![(
        "error".to_string(),
        text("malformed pattern"),
    )]);
    assert_eq!(details, &expected_details);
    assert_eq!(result.summary.passed, 0);
}

#[test]
fn test_result_list_is_one_to_one_with_input() {
    let mut cases = Vec::new();
    for i in 0..10 {
        cases.push(TestCase::with_id(format!("case-{}", i), text("x"), text("x world")));
    }
    let eval = Eval::builder()
        .data_source(VecDataSource::new(cases))
        .task(SuffixTask)
        .add_scorer(ExactMatchScorer)
        .build()
        .unwrap();
    let result = eval.run().unwrap();
    assert_eq!(result.cases.len(), 10);
    let mut seen: Vec<String> = result.cases.iter().map(|cr| cr.case.id.clone().unwrap()).collect();
    let mut wanted: Vec<String> = (0..10).map(|i| format!("case-{}", i)).collect();
    seen.sort();
    wanted.sort();
    assert_eq!(seen, wanted);
}

#[test]
fn test_summary_total_always_matches_case_count() {
    let eval = Eval::builder()
        .data_source(VecDataSource::new(suffix_cases()))
        .task(SuffixTask)
        .add_scorer(ExactMatchScorer)
        .build()
        .unwrap();
    let result = eval.run().unwrap();
    assert_eq!(result.summary.total, result.cases.len());
}

#[test]
fn test_trace_isolation_by_case() {
    let cases = vec![
        TestCase::new(text("alpha"), text("alpha")),
        TestCase::new(text("beta"), text("beta")),
    ];
    let eval = Eval::builder()
        .data_source(VecDataSource::new(cases))
        .task(TaggingTask)
        .add_scorer(ExactMatchScorer)
        .build()
        .unwrap();
    let result = eval.run().unwrap();
    for cr in &result.cases {
        let own_tag = match &cr.case.input {
            JsonValue::Text(s) => s.clone(),
            _ => unreachable!(),
        };
        assert_eq!(cr.traces.len(), 1);
        assert_eq!(cr.traces[0].id, Some(own_tag));
    }
}

#[test]
fn test_idempotent_runs_give_identical_results() {
    let make = || {
        Eval::builder()
            .data_source(VecDataSource::new(suffix_cases()))
            .task(SuffixTask)
            .add_scorer(ExactMatchScorer)
            .concurrency(1)
            .build()
            .unwrap()
    };
    let first = make().run().unwrap();
    let second = make().run().unwrap();
    assert_eq!(first, second);
}

#[test]
fn test_out_of_order_join_matches_in_order_join() {
    let mut cases = Vec::new();
    for i in 0..50 {
        cases.push(TestCase::with_id(format!("c{}", i), text("x"), text("x world")));
    }
    let make = |cases: Vec<TestCase>| {
        Eval::builder()
            .data_source(VecDataSource::new(cases))
            .task(SuffixTask)
            .add_scorer(ExactMatchScorer)
            .build()
            .unwrap()
    };
    let more_cases: Vec<TestCase> = (0..50)
        .map(|i| TestCase::with_id(format!("c{}", i), text("x"), text("x world")))
        .collect();

    // Join the same (deterministic) per-case results in input order and in
    // reverse completion order; the assembled lists must agree.
    let forward_results = make(cases).run().unwrap();
    let reverse_results = make(more_cases).run().unwrap();

    let mut forward = ResultCollector::new(50);
    for (i, cr) in forward_results.cases.into_iter().enumerate() {
        forward.insert(i, cr);
    }
    let mut reverse = ResultCollector::new(50);
    for (i, cr) in reverse_results.cases.into_iter().enumerate().rev() {
        reverse.insert(i, cr);
    }
    assert!(forward.is_complete());
    assert!(reverse.is_complete());
    assert_eq!(forward.finish(), reverse.finish());
}

#[test]
fn test_concurrency_bounds_agree_on_results() {
    let make = |bound: usize| {
        let cases: Vec<TestCase> = (0..50)
            .map(|i| TestCase::with_id(format!("c{}", i), text("x"), text("x world")))
            .collect();
        Eval::builder()
            .data_source(VecDataSource::new(cases))
            .task(SuffixTask)
            .add_scorer(ExactMatchScorer)
            .concurrency(bound)
            .build()
            .unwrap()
    };
    let narrow = make(1).run().unwrap();
    let wide = make(8).run().unwrap();
    assert_eq!(narrow, wide);
}

#[test]
fn test_collector_tracks_pending_slots() {
    let mut collector = ResultCollector::new(2);
    assert_eq!(collector.pending(), 2);
    assert!(!collector.is_complete());
    let eval = Eval::builder()
        .data_source(VecDataSource::new(suffix_cases()))
        .task(SuffixTask)
        .add_scorer(ExactMatchScorer)
        .build()
        .unwrap();
    let result = eval.run().unwrap();
    for (i, cr) in result.cases.into_iter().enumerate() {
        collector.insert(i, cr);
    }
    assert_eq!(collector.pending(), 0);
    assert!(collector.is_complete());
}

#[test]
fn test_run_without_scoring_skips_scorers() {
    let eval = Eval::builder()
        .data_source(VecDataSource::new(suffix_cases()))
        .task(SuffixTask)
        .add_scorer(ExactMatchScorer)
        .build()
        .unwrap();
    let result = eval.run_without_scoring().unwrap();
    assert_eq!(result.summary.total, 2);
    assert_eq!(result.summary.passed, 0);
    assert_eq!(result.summary.score_count, 0);
    assert_eq!(result.summary.avg_score_micros(), 0);
    for cr in &result.cases {
        assert!(cr.scores.is_empty());
        assert!(cr.error.is_none());
    }
}

#[test]
fn test_builder_requires_a_data_source() {
    let r = EvalBuilder::<VecDataSource, SuffixTask, ExactMatchScorer>::new()
        .task(SuffixTask)
        .build();
    match r {
        Err(e) => {
            assert_eq!(e, EvalError::MissingDataSource);
            assert_eq!(e.message(), "data_source must be set");
        },
        Ok(_) => panic!("build must fail without a data source"),
    }
}

#[test]
fn test_builder_requires_a_task() {
    let r = EvalBuilder::<VecDataSource, SuffixTask, ExactMatchScorer>::new()
        .data_source(VecDataSource::new(Vec::new()))
        .build();
    match r {
        Err(e) => {
            assert_eq!(e, EvalError::MissingTask);
            assert_eq!(e.message(), "task must be set");
        },
        Ok(_) => panic!("build must fail without a task"),
    }
}

#[test]
fn test_builder_coerces_concurrency_to_one() {
    let b = EvalBuilder::<VecDataSource, SuffixTask, ExactMatchScorer>::new().concurrency(0);
    assert_eq!(b.concurrency, 1);
    let b = b.concurrency(16);
    assert_eq!(b.concurrency, 16);
}

#[test]
fn test_load_failure_is_the_only_run_error() {
    let eval = EvalBuilder::<FailingSource, SuffixTask, ExactMatchScorer>::new()
        .data_source(FailingSource)
        .task(SuffixTask)
        .build()
        .unwrap();
    match eval.run() {
        Err(EvalError::LoadFailed(m)) => assert_eq!(m, "no data"),
        other => panic!("expected a load failure, got {:?}", other.map(|r| r.summary)),
    }
}

#[test]
fn test_empty_run_has_zero_rates() {
    let eval = EvalBuilder::<VecDataSource, SuffixTask, ExactMatchScorer>::new()
        .data_source(VecDataSource::new(Vec::new()))
        .task(SuffixTask)
        .build()
        .unwrap();
    let result = eval.run().unwrap();
    assert_eq!(result.summary.total, 0);
    assert_eq!(result.summary.passed, 0);
    assert_eq!(result.summary.pass_rate_micros(), 0);
    assert_eq!(result.summary.avg_score_micros(), 0);
}

/// A sink remembering whether it was called, then failing on purpose.
struct GrumpySink {
    calls: usize,
}

impl evalcraft::Sink for GrumpySink {
    fn save(&mut self, _result: &evalcraft::EvalResult) -> Result<(), String> {
        self.calls += 1;
        Err("disk full".to_string())
    }
}

#[test]
fn test_sink_failure_never_fails_the_run() {
    let eval = Eval::builder()
        .data_source(VecDataSource::new(suffix_cases()))
        .task(SuffixTask)
        .add_scorer(ExactMatchScorer)
        .build()
        .unwrap();
    let mut sink = GrumpySink { calls: 0 };
    let (result, sink_error) = eval.run_with_sink(&mut sink).unwrap();
    assert_eq!(sink.calls, 1);
    assert_eq!(sink_error, Some("disk full".to_string()));
    assert_eq!(result.summary.total, 2);
    assert_eq!(result.summary.passed, 2);
}
