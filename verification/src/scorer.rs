//! The contract of a scorer, and the synthetic score substituted when a
//! scorer itself fails.

use vstd::prelude::*;

use crate::types::{Score, ScoreModel};
use crate::value::{JsonValue, ValueModel};

verus! {

/// A named ruling function comparing expected against actual output.
///
/// A produced score carries the scorer's own declared name. A scorer
/// failure is an error text; the engine downgrades it to a synthetic
/// failing score and continues, so one broken scorer cannot poison a run.
pub trait Scorer {
    /// The scorer's stable declared name; an implementation overrides it
    /// with the name its `name` method returns.
    open spec fn spec_name(&self) -> Seq<char> {
        Seq::empty()
    }

    fn name(&self) -> (r: String)
        ensures
            r@ == self.spec_name(),
    ;

    fn score(&self, expected: &JsonValue, output: &JsonValue) -> (r: Result<Score, String>)
        ensures
            r matches Ok(s) ==> s@.name == self.spec_name(),
    ;
}

/// The details object of a synthetic failing score: the error text under
/// the key `error`.
pub open spec fn error_details_model(err: Seq<char>) -> ValueModel {
    ValueModel::Obj(seq![(seq!['e', 'r', 'r', 'o', 'r'], ValueModel::Text(err))])
}

/// The synthetic failing score recorded when a scorer fails: zero value,
/// failed ruling, and the error text in the details.
pub fn synthetic_failure_score(name: String, error: String) -> (s: Score)
    ensures
        s@ == (ScoreModel {
            name: name@,
            value_micros: 0,
            passed: false,
            details: Option::Some(error_details_model(error@)),
        }),
{
    let key = "error".to_string();
    proof {
        reveal_strlit("error");
        assert(key@ =~= seq!['e', 'r', 'r', 'o', 'r']);
    }
    let mut fields: Vec<(String, JsonValue)> = Vec::new();
    fields.push((key, JsonValue::Text(error)));
    let details = JsonValue::Obj(fields);
    proof {
        assert(fields@.len() == 1);
        assert(fields@.drop_last() =~= Seq::<(String, JsonValue)>::empty());
        assert(crate::value::field_models_of(fields@.drop_last())
            =~= Seq::<(Seq<char>, ValueModel)>::empty());
        assert(fields@.last().0@ =~= seq!['e', 'r', 'r', 'o', 'r']);
        assert(crate::value::model_of(fields@.last().1) == ValueModel::Text(error@));
        assert(crate::value::field_models_of(fields@) =~~= seq![
            (seq!['e', 'r', 'r', 'o', 'r'], ValueModel::Text(error@)),
        ]);
    }
    Score { name, value_micros: 0, passed: false, details: Some(details) }
}

} // verus!
