//! Assertion helpers for test suites built on the engine: each checks one
//! summary statistic against a threshold and reports a plain failure.

use vstd::prelude::*;

use crate::types::EvalResult;

verus! {

/// The pass rate of a summary in micros of a unit: passed over total,
/// zero when no cases ran.
pub open spec fn spec_pass_rate_micros(passed: int, total: int) -> int {
    if total == 0 {
        0
    } else {
        passed * 1_000_000 / total
    }
}

/// The average score of a summary in micros of a unit: the score sum over
/// the score count, zero when nothing was scored.
pub open spec fn spec_avg_score_micros(sum: int, count: int) -> int {
    if count == 0 {
        0
    } else {
        sum / count
    }
}

/// Passes exactly when the result's pass rate reaches the threshold, in
/// micros of a unit.
pub fn assert_eval_pass_rate(result: &EvalResult, min_pass_rate_micros: u64) -> (r: Result<
    (),
    String,
>)
    ensures
        r is Ok <==> spec_pass_rate_micros(
            result.summary.passed as int,
            result.summary.total as int,
        ) >= min_pass_rate_micros,
        r matches Err(m) ==> m@ == "pass rate is below the threshold"@,
{
    let rate: u128 = if result.summary.total == 0 {
        0
    } else {
        (result.summary.passed as u128) * 1_000_000 / (result.summary.total as u128)
    };
    if rate >= min_pass_rate_micros as u128 {
        Ok(())
    } else {
        Err("pass rate is below the threshold".to_string())
    }
}

/// Passes exactly when the result's average score reaches the threshold,
/// in micros of a unit.
pub fn assert_eval_avg_score(result: &EvalResult, min_avg_score_micros: u64) -> (r: Result<
    (),
    String,
>)
    ensures
        r is Ok <==> spec_avg_score_micros(
            result.summary.score_sum_micros as int,
            result.summary.score_count as int,
        ) >= min_avg_score_micros,
        r matches Err(m) ==> m@ == "average score is below the threshold"@,
{
    let avg: u64 = if result.summary.score_count == 0 {
        0
    } else {
        result.summary.score_sum_micros / result.summary.score_count
    };
    if avg >= min_avg_score_micros {
        Ok(())
    } else {
        Err("average score is below the threshold".to_string())
    }
}

/// Passes exactly when every case passed.
pub fn assert_eval_all_passed(result: &EvalResult) -> (r: Result<(), String>)
    ensures
        r is Ok <==> result.summary.passed == result.summary.total,
        r matches Err(m) ==> m@ == "not every case passed"@,
{
    if result.summary.passed == result.summary.total {
        Ok(())
    } else {
        Err("not every case passed".to_string())
    }
}

} // verus!
