//! A scorer grading outputs by edit-distance similarity to the expected
//! text.

use vstd::prelude::*;

use crate::scorer::Scorer;
use crate::text::{stringify, stringify_text};
use crate::types::{Score, ScoreModel};
use crate::value::JsonValue;

verus! {

/// The edit distance between two texts: the minimum number of character
/// insertions, deletions and substitutions turning one into the other. The
/// distance is a function of the characters alone.
pub uninterp spec fn lev_distance(a: Seq<char>, b: Seq<char>) -> nat;

/// Relies on strsim::levenshtein: the edit distance between the two texts.
#[verifier::external_body]
fn levenshtein_distance(a: &str, b: &str) -> (r: usize)
    ensures
        r == lev_distance(a@, b@),
{
    strsim::levenshtein(a, b)
}

/// The similarity of two texts in micros of a unit: the share of the longer
/// text left unchanged by an optimal edit, with the distance clamped to the
/// longer length and empty texts counting as identical.
pub open spec fn similarity_micros(a: Seq<char>, b: Seq<char>) -> int {
    let longer = if a.len() >= b.len() {
        a.len() as int
    } else {
        b.len() as int
    };
    let floor = if longer >= 1 {
        longer
    } else {
        1int
    };
    let d = if lev_distance(a, b) > floor {
        floor
    } else {
        lev_distance(a, b) as int
    };
    (floor - d) * 1_000_000 / floor
}

/// Passes when the output's text is at least as similar to the expected
/// text as the configured threshold, both taken as plain text.
pub struct LevenshteinScorer {
    /// The similarity a pass requires, in micros of a unit.
    pub min_similarity_micros: u32,
}

impl LevenshteinScorer {
    /// A scorer with the given pass threshold, in micros of a unit.
    pub fn new(min_similarity_micros: u32) -> (s: LevenshteinScorer)
        ensures
            s.min_similarity_micros == min_similarity_micros,
    {
        LevenshteinScorer { min_similarity_micros }
    }
}

impl Scorer for LevenshteinScorer {
    open spec fn spec_name(&self) -> Seq<char> {
        "levenshtein"@
    }

    fn name(&self) -> (r: String)
        ensures
            r@ == self.spec_name(),
    {
        "levenshtein".to_string()
    }

    /// The similarity of the stringified pair as the value, a pass exactly
    /// when it reaches the threshold.
    fn score(&self, expected: &JsonValue, output: &JsonValue) -> (r: Result<Score, String>)
        ensures
            r is Ok,
            r matches Ok(s) ==> s@ == (ScoreModel {
                name: "levenshtein"@,
                value_micros: similarity_micros(
                    stringify_text(expected@),
                    stringify_text(output@),
                ) as u32,
                passed: similarity_micros(stringify_text(expected@), stringify_text(output@))
                    >= self.min_similarity_micros,
                details: Option::None,
            }),
    {
        let e = stringify(expected);
        let o = stringify(output);
        let e_len = e.as_str().unicode_len();
        let o_len = o.as_str().unicode_len();
        let longer = if e_len >= o_len {
            e_len
        } else {
            o_len
        };
        let floor = if longer >= 1 {
            longer
        } else {
            1
        };
        let dist = levenshtein_distance(e.as_str(), o.as_str());
        let clamped = if dist > floor {
            floor
        } else {
            dist
        };
        let wide = ((floor - clamped) as u128) * 1_000_000 / (floor as u128);
        proof {
            let f = floor as int;
            let c = clamped as int;
            assert((f - c) * 1_000_000 / f <= 1_000_000) by (nonlinear_arith)
                requires
                    0 <= c <= f,
                    f > 0,
            ;
        }
        let value_micros = wide as u64 as u32;
        let passed = value_micros >= self.min_similarity_micros;
        Ok(Score { name: "levenshtein".to_string(), value_micros, passed, details: None })
    }
}

} // verus!
