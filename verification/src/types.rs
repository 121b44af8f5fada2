//! The entities flowing through the evaluation pipeline: cases, scores,
//! traces, per-case results, and the aggregated summary.

use vstd::prelude::*;

use crate::value::{model_of, JsonValue, ValueModel};

verus! {

/// One score value unit, in micros: a score of one unit (conventionally
/// "full marks") is one million micros.
pub const SCORE_UNIT_MICROS: u32 = 1_000_000;

/// The view of an optional owned string.
pub open spec fn opt_text(o: Option<String>) -> Option<Seq<char>> {
    match o {
        Option::Some(s) => Option::Some(s@),
        Option::None => Option::None,
    }
}

/// The view of an optional value.
pub open spec fn opt_model(o: Option<JsonValue>) -> Option<ValueModel> {
    match o {
        Option::Some(v) => Option::Some(model_of(v)),
        Option::None => Option::None,
    }
}

/// One (input, expected) pair to evaluate. Identity is `id` when present,
/// positional otherwise.
#[derive(Debug, PartialEq)]
pub struct TestCase {
    pub id: Option<String>,
    pub input: JsonValue,
    pub expected: JsonValue,
}

/// The mathematical model of a [`TestCase`].
#[verifier::ext_equal]
pub struct CaseModel {
    pub id: Option<Seq<char>>,
    pub input: ValueModel,
    pub expected: ValueModel,
}

impl View for TestCase {
    type V = CaseModel;

    open spec fn view(&self) -> CaseModel {
        CaseModel { id: opt_text(self.id), input: self.input@, expected: self.expected@ }
    }
}

impl TestCase {
    /// A case without an explicit identifier.
    pub fn new(input: JsonValue, expected: JsonValue) -> (r: TestCase)
        ensures
            r@ == (CaseModel { id: Option::None, input: input@, expected: expected@ }),
    {
        TestCase { id: None, input, expected }
    }

    /// A case carrying its own identifier.
    pub fn with_id(id: String, input: JsonValue, expected: JsonValue) -> (r: TestCase)
        ensures
            r@ == (CaseModel { id: Option::Some(id@), input: input@, expected: expected@ }),
    {
        TestCase { id: Some(id), input, expected }
    }
}

/// One scorer's ruling on one case: the producing scorer's name, a value
/// in micros (see [`SCORE_UNIT_MICROS`]), a pass/fail ruling, and optional
/// structured details.
#[derive(Debug, PartialEq)]
pub struct Score {
    pub name: String,
    pub value_micros: u32,
    pub passed: bool,
    pub details: Option<JsonValue>,
}

/// The mathematical model of a [`Score`].
#[verifier::ext_equal]
pub struct ScoreModel {
    pub name: Seq<char>,
    pub value_micros: u32,
    pub passed: bool,
    pub details: Option<ValueModel>,
}

impl View for Score {
    type V = ScoreModel;

    open spec fn view(&self) -> ScoreModel {
        ScoreModel {
            name: self.name@,
            value_micros: self.value_micros,
            passed: self.passed,
            details: opt_model(self.details),
        }
    }
}

/// Token counts reported for one traced call.
#[derive(Debug, PartialEq, Eq, Clone, Copy, Structural)]
pub struct TokenUsage {
    pub input_tokens: u32,
    pub output_tokens: u32,
    pub total_tokens: u32,
}

/// One telemetry record emitted by a task describing one internal
/// sub-operation, with timing in milliseconds since the epoch.
#[derive(Debug, PartialEq)]
pub struct Trace {
    pub id: Option<String>,
    pub start_ms: u64,
    pub end_ms: u64,
    pub duration_ms: Option<u64>,
    pub model: Option<String>,
    pub input: JsonValue,
    pub output: JsonValue,
    pub usage: Option<TokenUsage>,
    pub metadata: Option<JsonValue>,
    pub error: Option<String>,
}

/// The mathematical model of a [`Trace`].
#[verifier::ext_equal]
pub struct TraceModel {
    pub id: Option<Seq<char>>,
    pub start_ms: u64,
    pub end_ms: u64,
    pub duration_ms: Option<u64>,
    pub model: Option<Seq<char>>,
    pub input: ValueModel,
    pub output: ValueModel,
    pub usage: Option<TokenUsage>,
    pub metadata: Option<ValueModel>,
    pub error: Option<Seq<char>>,
}

impl View for Trace {
    type V = TraceModel;

    open spec fn view(&self) -> TraceModel {
        TraceModel {
            id: opt_text(self.id),
            start_ms: self.start_ms,
            end_ms: self.end_ms,
            duration_ms: self.duration_ms,
            model: opt_text(self.model),
            input: self.input@,
            output: self.output@,
            usage: self.usage,
            metadata: opt_model(self.metadata),
            error: opt_text(self.error),
        }
    }
}

/// The outcome of one case: the case itself, the task's output (null when
/// the task failed), the task error if any, the scores in scorer order and
/// the traces in emission order.
///
/// Exactly one of two shapes holds: either `error` is set and `scores` is
/// empty, or `error` is unset and `scores` reflects a completed scoring
/// pass (possibly empty when no scorers were configured).
#[derive(Debug, PartialEq)]
pub struct CaseResult {
    pub case: TestCase,
    pub output: JsonValue,
    pub error: Option<String>,
    pub scores: Vec<Score>,
    pub traces: Vec<Trace>,
}

/// The mathematical model of a [`CaseResult`].
#[verifier::ext_equal]
pub struct CaseResultModel {
    pub case: CaseModel,
    pub output: ValueModel,
    pub error: Option<Seq<char>>,
    pub scores: Seq<ScoreModel>,
    pub traces: Seq<TraceModel>,
}

impl View for CaseResult {
    type V = CaseResultModel;

    open spec fn view(&self) -> CaseResultModel {
        CaseResultModel {
            case: self.case@,
            output: self.output@,
            error: opt_text(self.error),
            scores: Seq::new(self.scores@.len(), |i: int| self.scores@[i]@),
            traces: Seq::new(self.traces@.len(), |i: int| self.traces@[i]@),
        }
    }
}

impl CaseResultModel {
    /// A failed task run never has scores.
    pub open spec fn wf(self) -> bool {
        self.error is Some ==> self.scores.len() == 0
    }
}

/// A case counts as passed when it was scored at least once and every
/// score's ruling is a pass.
pub open spec fn case_passed(cr: CaseResultModel) -> bool {
    cr.scores.len() > 0 && forall|j: int| 0 <= j < cr.scores.len() ==> cr.scores[j].passed
}

/// How many cases of the sequence count as passed.
pub open spec fn passed_count(cases: Seq<CaseResultModel>) -> nat
    decreases cases,
{
    if cases.len() == 0 {
        0
    } else {
        passed_count(cases.drop_last()) + if case_passed(cases.last()) {
            1nat
        } else {
            0nat
        }
    }
}

/// The sum of the score values of one case, in micros.
pub open spec fn scores_sum(scores: Seq<ScoreModel>) -> nat
    decreases scores,
{
    if scores.len() == 0 {
        0
    } else {
        scores_sum(scores.drop_last()) + scores.last().value_micros as nat
    }
}

/// How many individual scores the whole sequence of case results holds.
pub open spec fn score_count(cases: Seq<CaseResultModel>) -> nat
    decreases cases,
{
    if cases.len() == 0 {
        0
    } else {
        score_count(cases.drop_last()) + cases.last().scores.len()
    }
}

/// The sum of every individual score value across all cases, in micros.
pub open spec fn score_sum(cases: Seq<CaseResultModel>) -> nat
    decreases cases,
{
    if cases.len() == 0 {
        0
    } else {
        score_sum(cases.drop_last()) + scores_sum(cases.last().scores)
    }
}

/// A natural number clamped into the range of a `u64`.
pub open spec fn sat64(x: nat) -> u64 {
    if x > u64::MAX {
        u64::MAX
    } else {
        x as u64
    }
}

/// The elementwise models of a sequence of case results.
pub open spec fn case_result_models(cases: Seq<CaseResult>) -> Seq<CaseResultModel> {
    Seq::new(cases.len(), |i: int| cases[i]@)
}

/// Aggregate statistics over a full run. Sums are saturating at the `u64`
/// range; for every realistic input they are exact.
#[derive(Debug, PartialEq, Eq, Clone, Copy, Structural)]
pub struct EvalSummary {
    pub total: usize,
    pub passed: usize,
    pub score_sum_micros: u64,
    pub score_count: u64,
}

/// The terminal artifact of one run: every case's result and the summary.
#[derive(Debug, PartialEq)]
pub struct EvalResult {
    pub cases: Vec<CaseResult>,
    pub summary: EvalSummary,
}

/// The mathematical model of an [`EvalResult`].
#[verifier::ext_equal]
pub struct EvalResultModel {
    pub cases: Seq<CaseResultModel>,
    pub summary: EvalSummary,
}

impl View for EvalResult {
    type V = EvalResultModel;

    open spec fn view(&self) -> EvalResultModel {
        EvalResultModel { cases: case_result_models(self.cases@), summary: self.summary }
    }
}

/// The summary a sequence of case results aggregates to.
pub open spec fn spec_summary(cases: Seq<CaseResultModel>) -> EvalSummary {
    EvalSummary {
        total: cases.len() as usize,
        passed: passed_count(cases) as usize,
        score_sum_micros: sat64(score_sum(cases)),
        score_count: sat64(score_count(cases)),
    }
}

proof fn lemma_passed_count_take_step(cases: Seq<CaseResultModel>, i: int)
    requires
        0 <= i < cases.len(),
    ensures
        passed_count(cases.take(i + 1)) == passed_count(cases.take(i)) + if case_passed(
            cases[i],
        ) {
            1nat
        } else {
            0nat
        },
{
    assert(cases.take(i + 1).drop_last() =~= cases.take(i));
    assert(cases.take(i + 1).last() == cases[i]);
}

proof fn lemma_score_count_take_step(cases: Seq<CaseResultModel>, i: int)
    requires
        0 <= i < cases.len(),
    ensures
        score_count(cases.take(i + 1)) == score_count(cases.take(i)) + cases[i].scores.len(),
{
    assert(cases.take(i + 1).drop_last() =~= cases.take(i));
    assert(cases.take(i + 1).last() == cases[i]);
}

proof fn lemma_score_sum_take_step(cases: Seq<CaseResultModel>, i: int)
    requires
        0 <= i < cases.len(),
    ensures
        score_sum(cases.take(i + 1)) == score_sum(cases.take(i)) + scores_sum(cases[i].scores),
{
    assert(cases.take(i + 1).drop_last() =~= cases.take(i));
    assert(cases.take(i + 1).last() == cases[i]);
}

proof fn lemma_scores_sum_take_step(scores: Seq<ScoreModel>, j: int)
    requires
        0 <= j < scores.len(),
    ensures
        scores_sum(scores.take(j + 1)) == scores_sum(scores.take(j)) + scores[j].value_micros,
{
    assert(scores.take(j + 1).drop_last() =~= scores.take(j));
    assert(scores.take(j + 1).last() == scores[j]);
}

impl EvalResult {
    /// The deterministic, pure fold over case results that every run ends
    /// with: totals, the passed count, and exact score aggregates.
    pub fn summarize(cases: &Vec<CaseResult>) -> (s: EvalSummary)
        ensures
            s == spec_summary(case_result_models(cases@)),
            s.passed <= s.total,
    {
        let ghost models = case_result_models(cases@);
        let n = cases.len();
        let mut passed: usize = 0;
        let mut sum: u64 = 0;
        let mut count: u64 = 0;
        let mut i: usize = 0;
        proof {
            assert(models.take(0) =~= Seq::<CaseResultModel>::empty());
        }
        while i < n
            invariant
                n == cases@.len(),
                models == case_result_models(cases@),
                models.len() == n,
                i <= n,
                passed == passed_count(models.take(i as int)),
                passed <= i,
                sum == sat64(score_sum(models.take(i as int))),
                count == sat64(score_count(models.take(i as int))),
            decreases n - i,
        {
            let scores = &cases[i].scores;
            let m = scores.len();
            let mut j: usize = 0;
            let mut all_passed = true;
            proof {
                assert(models[i as int].scores.take(0) =~= Seq::<ScoreModel>::empty());
            }
            while j < m
                invariant
                    0 <= i < cases@.len(),
                    models == case_result_models(cases@),
                    scores == &cases@[i as int].scores,
                    m == scores@.len(),
                    models[i as int].scores.len() == m,
                    j <= m,
                    all_passed == forall|t: int| 0 <= t < j ==> models[i as int].scores[t].passed,
                    sum == sat64(score_sum(models.take(i as int)) + scores_sum(
                        models[i as int].scores.take(j as int),
                    )),
                    count == sat64(score_count(models.take(i as int)) + j as nat),
                decreases m - j,
            {
                proof {
                    lemma_scores_sum_take_step(models[i as int].scores, j as int);
                    assert(models[i as int].scores[j as int] == scores@[j as int]@);
                }
                if !scores[j].passed {
                    all_passed = false;
                }
                sum = sum.saturating_add(scores[j].value_micros as u64);
                count = count.saturating_add(1);
                j += 1;
            }
            proof {
                lemma_passed_count_take_step(models, i as int);
                lemma_score_count_take_step(models, i as int);
                lemma_score_sum_take_step(models, i as int);
                assert(models[i as int].scores.take(m as int) =~= models[i as int].scores);
            }
            if m > 0 && all_passed {
                passed += 1;
            }
            i += 1;
        }
        proof {
            assert(models.take(n as int) =~= models);
        }
        EvalSummary { total: n, passed, score_sum_micros: sum, score_count: count }
    }
}

impl EvalSummary {
    /// The pass rate as micros of a unit: one million means every case
    /// passed; zero total gives zero, with no division error.
    pub fn pass_rate_micros(&self) -> (r: u64)
        requires
            self.passed <= self.total,
        ensures
            r == if self.total == 0 {
                0int
            } else {
                (self.passed * 1_000_000) / (self.total as int)
            },
            r <= 1_000_000,
    {
        if self.total == 0 {
            0
        } else {
            let wide = (self.passed as u128) * 1_000_000 / (self.total as u128);
            proof {
                let p = self.passed as int;
                let t = self.total as int;
                assert(p * 1_000_000 / t <= 1_000_000) by (nonlinear_arith)
                    requires
                        0 <= p <= t,
                        t > 0,
                ;
            }
            wide as u64
        }
    }

    /// The mean of every individual score value across all cases, in
    /// micros; zero when no scores exist anywhere, with no division error.
    pub fn avg_score_micros(&self) -> (r: u64)
        ensures
            r == if self.score_count == 0 {
                0int
            } else {
                self.score_sum_micros as int / self.score_count as int
            },
    {
        if self.score_count == 0 {
            0
        } else {
            self.score_sum_micros / self.score_count
        }
    }
}


/// A copy of an optional string, exact on the view.
pub fn clone_opt_string(o: &Option<String>) -> (r: Option<String>)
    ensures
        opt_text(r) == opt_text(*o),
{
    match o {
        Some(s) => Some(s.clone()),
        None => None,
    }
}

/// A deep copy of one case, exact on the model.
pub fn clone_case(c: &TestCase) -> (r: TestCase)
    ensures
        r@ == c@,
{
    TestCase {
        id: clone_opt_string(&c.id),
        input: crate::value::clone_value(&c.input),
        expected: crate::value::clone_value(&c.expected),
    }
}

} // verus!
