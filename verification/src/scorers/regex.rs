//! A scorer passing outputs that match a configured regular-expression
//! pattern.

use vstd::prelude::*;

use crate::scorer::Scorer;
use crate::text::preview_text;
use crate::types::{Score, ScoreModel, SCORE_UNIT_MICROS};
use crate::value::{field_models_of, JsonValue, ValueModel};

verus! {

/// Whether the pattern text is a valid regular expression; validity is a
/// function of the pattern alone.
pub uninterp spec fn regex_valid(pattern: Seq<char>) -> bool;

/// Whether the (valid) pattern matches the text; the outcome is a function
/// of pattern and text alone.
pub uninterp spec fn regex_match(pattern: Seq<char>, text: Seq<char>) -> bool;

/// Relies on regex::Regex::new: it compiles exactly the valid patterns,
/// and reports the compiler's message otherwise.
#[verifier::external_body]
fn regex_compile_check(pattern: &str) -> (r: Result<(), String>)
    ensures
        r is Ok <==> regex_valid(pattern@),
{
    match regex::Regex::new(pattern) {
        Ok(_) => Ok(()),
        Err(e) => Err(e.to_string()),
    }
}

/// Relies on regex::Regex::new and regex::Regex::is_match: for a valid
/// pattern, whether it matches the text.
#[verifier::external_body]
fn regex_match_text(pattern: &str, text: &str) -> (r: Option<bool>)
    ensures
        r is Some <==> regex_valid(pattern@),
        r matches Some(b) ==> b == regex_match(pattern@, text@),
{
    regex::Regex::new(pattern).ok().map(|re| re.is_match(text))
}

/// Passes when the output's text matches the configured pattern. A scorer
/// only ever holds a pattern that compiled.
pub struct RegexScorer {
    pattern: String,
}

impl View for RegexScorer {
    type V = Seq<char>;

    closed spec fn view(&self) -> Seq<char> {
        self.pattern@
    }
}

impl RegexScorer {
    #[verifier::type_invariant]
    closed spec fn inv(self) -> bool {
        regex_valid(self.pattern@)
    }

    /// A scorer for the given pattern; exactly the invalid patterns are
    /// rejected, with the pattern compiler's message.
    pub fn new(pattern: String) -> (r: Result<RegexScorer, String>)
        ensures
            r is Ok <==> regex_valid(pattern@),
            r matches Ok(s) ==> s@ == pattern@,
    {
        match regex_compile_check(pattern.as_str()) {
            Ok(()) => Ok(RegexScorer { pattern }),
            Err(e) => Err(e),
        }
    }
}

/// The details object recorded beside a regex outcome: the pattern and
/// whether it matched.
pub open spec fn regex_details_model(pattern: Seq<char>, found: bool) -> ValueModel {
    ValueModel::Obj(
        seq![
            (seq!['p', 'a', 't', 't', 'e', 'r', 'n'], ValueModel::Text(pattern)),
            (seq!['m', 'a', 't', 'c', 'h', 'e', 's'], ValueModel::Bool(found)),
        ],
    )
}

impl Scorer for RegexScorer {
    open spec fn spec_name(&self) -> Seq<char> {
        "regex"@
    }

    fn name(&self) -> (r: String)
        ensures
            r@ == self.spec_name(),
    {
        "regex".to_string()
    }

    /// Whether the pattern matches the output's preview text, with full
    /// marks on a match and zero otherwise.
    fn score(&self, expected: &JsonValue, output: &JsonValue) -> (r: Result<Score, String>)
        ensures
            r is Ok,
            r matches Ok(s) ==> s@ == (ScoreModel {
                name: "regex"@,
                value_micros: if regex_match(self@, preview_text(output@)) {
                    SCORE_UNIT_MICROS
                } else {
                    0
                },
                passed: regex_match(self@, preview_text(output@)),
                details: Option::Some(
                    regex_details_model(self@, regex_match(self@, preview_text(output@))),
                ),
            }),
    {
        proof {
            use_type_invariant(self);
        }
        let output_str = crate::text::value_preview(output);
        let outcome = regex_match_text(self.pattern.as_str(), output_str.as_str());
        let found = outcome.unwrap();
        let key_pattern = "pattern".to_string();
        let key_matches = "matches".to_string();
        proof {
            reveal_strlit("pattern");
            reveal_strlit("matches");
            assert(key_pattern@ =~= seq!['p', 'a', 't', 't', 'e', 'r', 'n']);
            assert(key_matches@ =~= seq!['m', 'a', 't', 'c', 'h', 'e', 's']);
        }
        let mut fields: Vec<(String, JsonValue)> = Vec::new();
        fields.push((key_pattern, JsonValue::Text(self.pattern.clone())));
        fields.push((key_matches, JsonValue::Bool(found)));
        let details = JsonValue::Obj(fields);
        proof {
            let fs = fields@;
            assert(fs.len() == 2);
            assert(fs[0].0@ =~= seq!['p', 'a', 't', 't', 'e', 'r', 'n']);
            assert(crate::value::model_of(fs[0].1) == ValueModel::Text(self.pattern@));
            assert(fs[1].0@ =~= seq!['m', 'a', 't', 'c', 'h', 'e', 's']);
            assert(crate::value::model_of(fs[1].1) == ValueModel::Bool(found));
            assert(fs.drop_last().drop_last() =~= Seq::<(String, JsonValue)>::empty());
            assert(field_models_of(fs.drop_last().drop_last())
                =~= Seq::<(Seq<char>, ValueModel)>::empty());
            assert(fs.drop_last() =~= seq![fs[0]]);
            assert(fs.drop_last().last() == fs[0]);
            assert(fs.last() == fs[1]);
            assert(field_models_of(fs.drop_last()) =~~= seq![
                (seq!['p', 'a', 't', 't', 'e', 'r', 'n'], ValueModel::Text(self.pattern@)),
            ]);
            assert(field_models_of(fs) =~~= regex_details_model(self@, found)->Obj_0);
        }
        let value_micros = if found {
            SCORE_UNIT_MICROS
        } else {
            0
        };
        Ok(
            Score {
                name: "regex".to_string(),
                value_micros,
                passed: found,
                details: Some(details),
            },
        )
    }
}

} // verus!
