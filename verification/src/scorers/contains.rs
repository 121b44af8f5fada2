//! A scorer passing outputs that contain a configured substring.

use vstd::prelude::*;

use crate::scorer::Scorer;
use crate::text::{contains_str, lowercase, lower_of, preview_text, text_contains};
use crate::types::{Score, ScoreModel, SCORE_UNIT_MICROS};
use crate::value::{field_models_of, JsonValue, ValueModel};

verus! {

/// Passes when the output's text contains the configured substring,
/// case-sensitively or after lower-case folding of both sides.
pub struct ContainsScorer {
    substring: String,
    case_sensitive: bool,
}

/// The mathematical model of a [`ContainsScorer`].
#[verifier::ext_equal]
pub struct ContainsModel {
    pub substring: Seq<char>,
    pub case_sensitive: bool,
}

impl View for ContainsScorer {
    type V = ContainsModel;

    closed spec fn view(&self) -> ContainsModel {
        ContainsModel { substring: self.substring@, case_sensitive: self.case_sensitive }
    }
}

/// Whether the configured substring counts as found in the given text.
pub open spec fn substring_found(m: ContainsModel, text: Seq<char>) -> bool {
    if m.case_sensitive {
        text_contains(text, m.substring)
    } else {
        text_contains(lower_of(text), lower_of(m.substring))
    }
}

/// The details object recorded beside a contains ruling.
pub open spec fn contains_details_model(m: ContainsModel, found: bool) -> ValueModel {
    ValueModel::Obj(
        seq![
            (
                seq!['s', 'u', 'b', 's', 't', 'r', 'i', 'n', 'g'],
                ValueModel::Text(m.substring),
            ),
            (
                seq![
                    'c', 'a', 's', 'e', '_', 's', 'e', 'n', 's', 'i', 't', 'i', 'v', 'e',
                ],
                ValueModel::Bool(m.case_sensitive),
            ),
            (seq!['f', 'o', 'u', 'n', 'd'], ValueModel::Bool(found)),
        ],
    )
}

impl ContainsScorer {
    /// A case-sensitive contains scorer.
    pub fn new(substring: String) -> (s: ContainsScorer)
        ensures
            s@ == (ContainsModel { substring: substring@, case_sensitive: true }),
    {
        ContainsScorer { substring, case_sensitive: true }
    }

    /// A case-insensitive contains scorer.
    pub fn case_insensitive(substring: String) -> (s: ContainsScorer)
        ensures
            s@ == (ContainsModel { substring: substring@, case_sensitive: false }),
    {
        ContainsScorer { substring, case_sensitive: false }
    }
}

impl Scorer for ContainsScorer {
    open spec fn spec_name(&self) -> Seq<char> {
        "contains"@
    }

    fn name(&self) -> (r: String)
        ensures
            r@ == self.spec_name(),
    {
        "contains".to_string()
    }

    /// Whether the output's preview text holds the substring, with full
    /// marks on a find and zero otherwise.
    fn score(&self, expected: &JsonValue, output: &JsonValue) -> (r: Result<Score, String>)
        ensures
            r is Ok,
            r matches Ok(s) ==> s@ == (ScoreModel {
                name: "contains"@,
                value_micros: if substring_found(self@, preview_text(output@)) {
                    SCORE_UNIT_MICROS
                } else {
                    0
                },
                passed: substring_found(self@, preview_text(output@)),
                details: Option::Some(
                    contains_details_model(self@, substring_found(self@, preview_text(output@))),
                ),
            }),
    {
        let output_str = crate::text::value_preview(output);
        let found = if self.case_sensitive {
            contains_str(output_str.as_str(), self.substring.as_str())
        } else {
            let folded_output = lowercase(output_str.as_str());
            let folded_sub = lowercase(self.substring.as_str());
            contains_str(folded_output.as_str(), folded_sub.as_str())
        };
        let mut fields: Vec<(String, JsonValue)> = Vec::new();
        let key_substring = "substring".to_string();
        let key_case = "case_sensitive".to_string();
        let key_found = "found".to_string();
        proof {
            reveal_strlit("substring");
            reveal_strlit("case_sensitive");
            reveal_strlit("found");
            assert(key_substring@ =~= seq!['s', 'u', 'b', 's', 't', 'r', 'i', 'n', 'g']);
            assert(key_case@ =~= seq![
                'c', 'a', 's', 'e', '_', 's', 'e', 'n', 's', 'i', 't', 'i', 'v', 'e',
            ]);
            assert(key_found@ =~= seq!['f', 'o', 'u', 'n', 'd']);
        }
        fields.push((key_substring, JsonValue::Text(self.substring.clone())));
        fields.push((key_case, JsonValue::Bool(self.case_sensitive)));
        fields.push((key_found, JsonValue::Bool(found)));
        let details = JsonValue::Obj(fields);
        proof {
            let fs = fields@;
            assert(fs.len() == 3);
            assert(fs[0].0@ =~= seq!['s', 'u', 'b', 's', 't', 'r', 'i', 'n', 'g']);
            assert(crate::value::model_of(fs[0].1) == ValueModel::Text(self.substring@));
            assert(fs[1].0@ =~= seq![
                'c', 'a', 's', 'e', '_', 's', 'e', 'n', 's', 'i', 't', 'i', 'v', 'e',
            ]);
            assert(crate::value::model_of(fs[1].1) == ValueModel::Bool(self.case_sensitive));
            assert(fs[2].0@ =~= seq!['f', 'o', 'u', 'n', 'd']);
            assert(crate::value::model_of(fs[2].1) == ValueModel::Bool(found));
            assert(fs.drop_last().drop_last().drop_last() =~= Seq::<(String, JsonValue)>::empty());
            assert(field_models_of(fs.drop_last().drop_last().drop_last())
                =~= Seq::<(Seq<char>, ValueModel)>::empty());
            assert(fs.drop_last().drop_last() =~= seq![fs[0]]);
            assert(fs.drop_last() =~= seq![fs[0], fs[1]]);
            assert(fs.drop_last().drop_last().last() == fs[0]);
            assert(fs.drop_last().last() == fs[1]);
            assert(fs.last() == fs[2]);
            assert(field_models_of(fs.drop_last().drop_last()) =~~= seq![
                (
                    seq!['s', 'u', 'b', 's', 't', 'r', 'i', 'n', 'g'],
                    ValueModel::Text(self.substring@),
                ),
            ]);
            assert(field_models_of(fs.drop_last()) =~~= seq![
                (
                    seq!['s', 'u', 'b', 's', 't', 'r', 'i', 'n', 'g'],
                    ValueModel::Text(self.substring@),
                ),
                (
                    seq![
                        'c', 'a', 's', 'e', '_', 's', 'e', 'n', 's', 'i', 't', 'i', 'v', 'e',
                    ],
                    ValueModel::Bool(self.case_sensitive),
                ),
            ]);
            assert(field_models_of(fs) =~~= contains_details_model(self@, found)->Obj_0);
        }
        let value_micros = if found {
            SCORE_UNIT_MICROS
        } else {
            0
        };
        Ok(
            Score {
                name: "contains".to_string(),
                value_micros,
                passed: found,
                details: Some(details),
            },
        )
    }
}

} // verus!
