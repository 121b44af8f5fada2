//! A scorer passing exactly the outputs equal to the expected value.

use vstd::prelude::*;

use crate::scorer::Scorer;
use crate::types::{Score, SCORE_UNIT_MICROS};
use crate::value::{json_eq, JsonValue};

verus! {

/// Passes when the output equals the expected value, structurally.
pub struct ExactMatchScorer;

impl ExactMatchScorer {
    /// The ruling on one pair: full marks on equality, zero otherwise.
    pub fn evaluate(expected: &JsonValue, output: &JsonValue) -> (s: Score)
        ensures
            s@.name == "exact_match"@,
            s@.passed == (expected@ == output@),
            s@.value_micros == if expected@ == output@ {
                SCORE_UNIT_MICROS as int
            } else {
                0int
            },
            s@.details is None,
    {
        let passed = json_eq(expected, output);
        let value_micros = if passed {
            SCORE_UNIT_MICROS
        } else {
            0
        };
        Score { name: "exact_match".to_string(), value_micros, passed, details: None }
    }
}

impl Scorer for ExactMatchScorer {
    open spec fn spec_name(&self) -> Seq<char> {
        "exact_match"@
    }

    fn name(&self) -> (r: String)
        ensures
            r@ == self.spec_name(),
    {
        "exact_match".to_string()
    }

    fn score(&self, expected: &JsonValue, output: &JsonValue) -> (r: Result<Score, String>)
        ensures
            r matches Ok(s) ==> s@ == ExactMatchScorer::evaluate_model(expected@, output@),
            r is Ok,
    {
        Ok(ExactMatchScorer::evaluate(expected, output))
    }
}

impl ExactMatchScorer {
    /// The score model the scorer produces for one pair.
    pub open spec fn evaluate_model(
        expected: crate::value::ValueModel,
        output: crate::value::ValueModel,
    ) -> crate::types::ScoreModel {
        crate::types::ScoreModel {
            name: "exact_match"@,
            value_micros: if expected == output {
                SCORE_UNIT_MICROS
            } else {
                0
            },
            passed: expected == output,
            details: Option::None,
        }
    }
}

} // verus!
