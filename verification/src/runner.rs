//! The execution engine: the per-case pipeline, the sequential dispatcher,
//! and the builder that configures a run.
//!
//! Each case runs under a fresh [`TraceScope`], so concurrent executions
//! driven by an outer scheduler cannot mix telemetry. Results carry their
//! own case, so completion order never decides identity; an out-of-order
//! driver joins them through [`crate::collect::ResultCollector`].

use vstd::prelude::*;

use crate::datasource::DataSource;
use crate::scorer::{synthetic_failure_score, Scorer};
use crate::task::Task;
use crate::trace::TraceScope;
use crate::types::{
    clone_case, spec_summary, CaseResult, CaseResultModel, EvalResult, EvalResultModel, Score,
    TestCase, Trace,
};
use crate::value::JsonValue;

verus! {

/// Why a run could not start.
#[derive(Debug, PartialEq, Eq)]
pub enum EvalError {
    /// The builder was finished without a data source.
    MissingDataSource,
    /// The builder was finished without a task.
    MissingTask,
    /// The data source could not supply the case list.
    LoadFailed(String),
}

impl EvalError {
    /// A human-readable description of the error.
    pub fn message(&self) -> (r: String)
        ensures
            r@ == match self {
                EvalError::MissingDataSource => "data_source must be set"@,
                EvalError::MissingTask => "task must be set"@,
                EvalError::LoadFailed(m) => m@,
            },
    {
        match self {
            EvalError::MissingDataSource => "data_source must be set".to_string(),
            EvalError::MissingTask => "task must be set".to_string(),
            EvalError::LoadFailed(m) => m.clone(),
        }
    }
}

/// What the engine guarantees of one executed case's result: a failed task
/// leaves no scores; a scored case holds one score per configured scorer,
/// in order, each under the producing scorer's name.
pub open spec fn case_outcome_ok<S: Scorer>(
    scorers: Seq<S>,
    with_scoring: bool,
    cr: CaseResultModel,
) -> bool {
    &&& cr.wf()
    &&& (cr.error is None ==> cr.scores.len() == if with_scoring {
        scorers.len() as int
    } else {
        0
    })
    &&& (cr.error is Some ==> cr.scores.len() == 0)
    &&& forall|j: int| 0 <= j < cr.scores.len() ==> (#[trigger] cr.scores[j]).name
        == scorers[j].spec_name()
}

/// What the engine guarantees of a finished run: the summary is exactly the
/// fold over the returned cases, and every case result is well-shaped.
pub open spec fn run_result_ok<S: Scorer>(
    scorers: Seq<S>,
    with_scoring: bool,
    res: EvalResultModel,
) -> bool {
    &&& res.summary == spec_summary(res.cases)
    &&& res.summary.passed <= res.summary.total
    &&& forall|i: int| 0 <= i < res.cases.len() ==> case_outcome_ok(
        scorers,
        with_scoring,
        #[trigger] res.cases[i],
    )
}

/// Turns the rulings of one case's scoring pass into its score list: a
/// scorer's own score is kept as returned, a scorer failure becomes the
/// synthetic failing score under the scorer's name.
pub fn settle_scores(rulings: Vec<Result<Score, String>>, names: Vec<String>) -> (r: Vec<Score>)
    requires
        names@.len() == rulings@.len(),
    ensures
        r@.len() == rulings@.len(),
        forall|j: int| 0 <= j < r@.len() ==> (#[trigger] r@[j])@ == match rulings@[j] {
            Result::Ok(s) => s@,
            Result::Err(e) => crate::types::ScoreModel {
                name: names@[j]@,
                value_micros: 0,
                passed: false,
                details: Option::Some(crate::scorer::error_details_model(e@)),
            },
        },
{
    let mut scores: Vec<Score> = Vec::new();
    let n = rulings.len();
    let mut rulings = rulings;
    let mut names = names;
    let ghost ruling_models = rulings@;
    let ghost name_models = names@;
    let mut j: usize = 0;
    while j < n
        invariant
            ruling_models.len() == n,
            name_models.len() == n,
            rulings@ == ruling_models.skip(j as int),
            names@ == name_models.skip(j as int),
            j <= n,
            scores@.len() == j,
            forall|t: int| 0 <= t < j ==> (#[trigger] scores@[t])@ == match ruling_models[t] {
                Result::Ok(s) => s@,
                Result::Err(e) => crate::types::ScoreModel {
                    name: name_models[t]@,
                    value_micros: 0,
                    passed: false,
                    details: Option::Some(crate::scorer::error_details_model(e@)),
                },
            },
        decreases n - j,
    {
        proof {
            assert(rulings@[0] == ruling_models[j as int]);
            assert(names@[0] == name_models[j as int]);
            assert(rulings@.skip(1) =~= ruling_models.skip(j + 1));
            assert(names@.skip(1) =~= name_models.skip(j + 1));
        }
        let ruling = rulings.remove(0);
        let name = names.remove(0);
        match ruling {
            Ok(sc) => scores.push(sc),
            Err(e) => {
                scores.push(synthetic_failure_score(name, e));
            },
        }
        j += 1;
    }
    scores
}

/// Assembles one case's result from what its pipeline produced: the task's
/// outcome, the scoring rulings with the scorers' names, and the traces
/// collected in the case's own scope. A failed task leaves no scores; a
/// scored case keeps one score per ruling, in order.
pub fn assemble_case_result(
    case: TestCase,
    outcome: Result<JsonValue, String>,
    rulings: Vec<Result<Score, String>>,
    names: Vec<String>,
    traces: Vec<Trace>,
) -> (r: CaseResult)
    requires
        names@.len() == rulings@.len(),
        outcome is Err ==> rulings@.len() == 0,
    ensures
        r@.case == case@,
        r@.wf(),
        r@.traces.len() == traces@.len(),
        forall|i: int| 0 <= i < traces@.len() ==> r@.traces[i] == (#[trigger] traces@[i])@,
        outcome matches Err(e) ==> {
            &&& r@.error == Option::Some(e@)
            &&& r@.scores.len() == 0
            &&& r@.output is Null
        },
        outcome matches Ok(v) ==> {
            &&& r@.error is None
            &&& r@.output == v@
            &&& r@.scores.len() == rulings@.len()
            &&& forall|j: int| 0 <= j < rulings@.len() ==> r@.scores[j] == match rulings@[j] {
                Result::Ok(s) => s@,
                Result::Err(e) => crate::types::ScoreModel {
                    name: names@[j]@,
                    value_micros: 0,
                    passed: false,
                    details: Option::Some(crate::scorer::error_details_model(e@)),
                },
            }
        },
{
    match outcome {
        Ok(output) => {
            let scores = settle_scores(rulings, names);
            CaseResult { case, output, error: None, scores, traces }
        },
        Err(e) => {
            CaseResult {
                case,
                output: JsonValue::Null,
                error: Some(e),
                scores: Vec::new(),
                traces,
            }
        },
    }
}

/// Runs one case through the full pipeline: the task under a fresh trace
/// scope, then, on success, every scorer in configured order. A task
/// failure is recorded in the result; a scorer failure becomes a synthetic
/// failing score. Neither escapes.
pub fn run_case<T: Task, S: Scorer>(
    task: &T,
    scorers: &Vec<S>,
    case: TestCase,
    with_scoring: bool,
) -> (r: CaseResult)
    ensures
        r@.case == case@,
        case_outcome_ok(scorers@, with_scoring, r@),
{
    let mut scope = TraceScope::new();
    let outcome = task.run(&case.input, &mut scope);
    let mut rulings: Vec<Result<Score, String>> = Vec::new();
    let mut names: Vec<String> = Vec::new();
    if with_scoring {
        if let Ok(output) = &outcome {
            let n = scorers.len();
            let mut j: usize = 0;
            while j < n
                invariant
                    n == scorers@.len(),
                    j <= n,
                    rulings@.len() == j,
                    names@.len() == j,
                    forall|t: int| 0 <= t < j ==> ((#[trigger] rulings@[t]) matches Ok(s)
                        ==> s@.name == scorers@[t].spec_name()),
                    forall|t: int| 0 <= t < j ==> (#[trigger] names@[t])@
                        == scorers@[t].spec_name(),
                decreases n - j,
            {
                let ruling = scorers[j].score(&case.expected, output);
                rulings.push(ruling);
                names.push(scorers[j].name());
                j += 1;
            }
        }
    }
    let traces = scope.into_traces();
    assemble_case_result(case, outcome, rulings, names, traces)
}

/// Runs every case, in input order, and returns one result per case, in the
/// same order: the result list is a one-to-one image of the input list,
/// whatever each task invocation did.
pub fn run_cases<T: Task, S: Scorer>(
    task: &T,
    scorers: &Vec<S>,
    cases: Vec<TestCase>,
    with_scoring: bool,
) -> (r: Vec<CaseResult>)
    ensures
        r@.len() == cases@.len(),
        forall|i: int| 0 <= i < cases@.len() ==> (#[trigger] r@[i])@.case == cases@[i]@,
        forall|i: int| 0 <= i < cases@.len() ==> case_outcome_ok(
            scorers@,
            with_scoring,
            (#[trigger] r@[i])@,
        ),
{
    let n = cases.len();
    let mut results: Vec<CaseResult> = Vec::new();
    let mut i: usize = 0;
    while i < n
        invariant
            n == cases@.len(),
            i <= n,
            results@.len() == i,
            forall|j: int| 0 <= j < i ==> (#[trigger] results@[j])@.case == cases@[j]@,
            forall|j: int| 0 <= j < i ==> case_outcome_ok(
                scorers@,
                with_scoring,
                (#[trigger] results@[j])@,
            ),
        decreases n - i,
    {
        let case = clone_case(&cases[i]);
        let cr = run_case(task, scorers, case, with_scoring);
        results.push(cr);
        i += 1;
    }
    results
}

/// An optional destination that durably records a finished result. A sink
/// failure is an error text; the engine only reports it, never raises it.
pub trait Sink {
    fn save(&mut self, result: &EvalResult) -> Result<(), String>;
}

/// The configured engine: a data source, a task, scorers in order, and the
/// concurrency bound honoured by drivers that dispatch cases in parallel.
pub struct Eval<D, T, S> {
    pub data_source: D,
    pub task: T,
    pub scorers: Vec<S>,
    pub concurrency: usize,
}

/// Step-by-step configuration of an [`Eval`]; a data source and a task are
/// required, scorers and the concurrency bound are optional.
pub struct EvalBuilder<D, T, S> {
    pub data_source: Option<D>,
    pub task: Option<T>,
    pub scorers: Vec<S>,
    pub concurrency: usize,
}

impl<D: DataSource, T: Task, S: Scorer> EvalBuilder<D, T, S> {
    /// An empty configuration: no source, no task, no scorers, and a
    /// default concurrency bound of eight.
    pub fn new() -> (b: EvalBuilder<D, T, S>)
        ensures
            b.data_source is None,
            b.task is None,
            b.scorers@.len() == 0,
            b.concurrency == 8,
    {
        EvalBuilder { data_source: None, task: None, scorers: Vec::new(), concurrency: 8 }
    }

    /// Sets the data source.
    pub fn data_source(self, data_source: D) -> (r: EvalBuilder<D, T, S>)
        ensures
            r == (EvalBuilder { data_source: Option::Some(data_source), ..self }),
    {
        EvalBuilder { data_source: Some(data_source), ..self }
    }

    /// Sets the task.
    pub fn task(self, task: T) -> (r: EvalBuilder<D, T, S>)
        ensures
            r == (EvalBuilder { task: Option::Some(task), ..self }),
    {
        EvalBuilder { task: Some(task), ..self }
    }

    /// Replaces the scorer list.
    pub fn scorers(self, scorers: Vec<S>) -> (r: EvalBuilder<D, T, S>)
        ensures
            r == (EvalBuilder { scorers, ..self }),
    {
        EvalBuilder { scorers, ..self }
    }

    /// Appends one scorer.
    pub fn add_scorer(self, scorer: S) -> (r: EvalBuilder<D, T, S>)
        ensures
            r.data_source == self.data_source,
            r.task == self.task,
            r.concurrency == self.concurrency,
            r.scorers@ == self.scorers@.push(scorer),
    {
        let mut b = self;
        b.scorers.push(scorer);
        b
    }

    /// Sets the concurrency bound, coerced to at least one.
    pub fn concurrency(self, n: usize) -> (r: EvalBuilder<D, T, S>)
        ensures
            r.data_source == self.data_source,
            r.task == self.task,
            r.scorers == self.scorers,
            r.concurrency == if n < 1 {
                1int
            } else {
                n as int
            },
    {
        let bound = if n < 1 {
            1
        } else {
            n
        };
        EvalBuilder { concurrency: bound, ..self }
    }

    /// Finishes the configuration. Missing required inputs are a
    /// configuration error, reported before any execution starts: the
    /// data source is checked first, then the task.
    pub fn build(self) -> (r: Result<Eval<D, T, S>, EvalError>)
        ensures
            r is Ok <==> self.data_source is Some && self.task is Some,
            r matches Ok(e) ==> {
                &&& e.data_source == self.data_source->0
                &&& e.task == self.task->0
                &&& e.scorers == self.scorers
                &&& e.concurrency == self.concurrency
            },
            self.data_source is None ==> (r matches Err(e) && e == EvalError::MissingDataSource),
            self.data_source is Some && self.task is None ==> (r matches Err(e) && e
                == EvalError::MissingTask),
    {
        let data_source = match self.data_source {
            Some(d) => d,
            None => {
                return Err(EvalError::MissingDataSource);
            },
        };
        let task = match self.task {
            Some(t) => t,
            None => {
                return Err(EvalError::MissingTask);
            },
        };
        Ok(Eval { data_source, task, scorers: self.scorers, concurrency: self.concurrency })
    }
}

impl<D: DataSource, T: Task, S: Scorer> Eval<D, T, S> {
    /// Begins configuring an engine.
    pub fn builder() -> (b: EvalBuilder<D, T, S>)
        ensures
            b.data_source is None,
            b.task is None,
            b.scorers@.len() == 0,
            b.concurrency == 8,
    {
        EvalBuilder::new()
    }

    /// The full pipeline: load the cases once, run and score every one,
    /// and aggregate. Only a failure to load the case list is an error;
    /// every per-case failure surfaces as data inside the result.
    pub fn run(&self) -> (r: Result<EvalResult, EvalError>)
        ensures
            r matches Ok(res) ==> run_result_ok(self.scorers@, true, res@),
            r matches Err(e) ==> e is LoadFailed,
    {
        match self.data_source.load() {
            Ok(cases) => {
                let results = run_cases(&self.task, &self.scorers, cases, true);
                let summary = EvalResult::summarize(&results);
                Ok(EvalResult { cases: results, summary })
            },
            Err(m) => Err(EvalError::LoadFailed(m)),
        }
    }

    /// Runs the task for every case but skips the scorers; the summary is
    /// still computed and reduces to error presence.
    pub fn run_without_scoring(&self) -> (r: Result<EvalResult, EvalError>)
        ensures
            r matches Ok(res) ==> run_result_ok(self.scorers@, false, res@),
            r matches Err(e) ==> e is LoadFailed,
    {
        match self.data_source.load() {
            Ok(cases) => {
                let results = run_cases(&self.task, &self.scorers, cases, false);
                let summary = EvalResult::summarize(&results);
                Ok(EvalResult { cases: results, summary })
            },
            Err(m) => Err(EvalError::LoadFailed(m)),
        }
    }

    /// The full pipeline, then a best-effort hand-off of the finished
    /// result to the sink. The returned result never depends on the sink's
    /// outcome; a sink failure is only reported beside it.
    pub fn run_with_sink<P: Sink>(&self, sink: &mut P) -> (r: Result<
        (EvalResult, Option<String>),
        EvalError,
    >)
        ensures
            r matches Ok(pair) ==> run_result_ok(self.scorers@, true, pair.0@),
            r matches Err(e) ==> e is LoadFailed,
    {
        match self.run() {
            Ok(result) => {
                let sink_error = match sink.save(&result) {
                    Ok(()) => None,
                    Err(m) => Some(m),
                };
                Ok((result, sink_error))
            },
            Err(e) => Err(e),
        }
    }
}


/// Identity preservation: a run's result list is a one-to-one image of its
/// input list, so the multiset (and the set) of case identities in the
/// results equals the one in the input — whatever order completions
/// arrived in.
pub proof fn lemma_case_identities_preserved(
    cases: Seq<crate::types::CaseModel>,
    results: Seq<CaseResultModel>,
)
    requires
        results.len() == cases.len(),
        forall|i: int| 0 <= i < cases.len() ==> (#[trigger] results[i]).case == cases[i],
    ensures
        results.map_values(|cr: CaseResultModel| cr.case.id).to_multiset() == cases.map_values(
            |c: crate::types::CaseModel| c.id,
        ).to_multiset(),
        results.map_values(|cr: CaseResultModel| cr.case.id).to_set() == cases.map_values(
            |c: crate::types::CaseModel| c.id,
        ).to_set(),
{
    assert(results.map_values(|cr: CaseResultModel| cr.case.id) =~= cases.map_values(
        |c: crate::types::CaseModel| c.id,
    ));
}

} // verus!
