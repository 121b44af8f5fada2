//! A scorer for structured outputs: validity, strict structural match
//! against the expected value, or validation against a JSON schema.

use vstd::prelude::*;

use crate::datasource::{lookup_field, obj_get};
use crate::render::{json_text_of, to_json_string};
use crate::scorer::Scorer;
use crate::types::{Score, ScoreModel, SCORE_UNIT_MICROS};
use crate::value::{
    field_models_of, lemma_field_models_of_index, lemma_field_models_of_len,
    lemma_models_of_index, lemma_models_of_len, model_of, models_of, JsonValue, ValueModel,
};

verus! {

/// Whether the schema (as JSON text) accepts the instance (as JSON text):
/// nothing when the schema does not compile or either text does not parse
/// as JSON. Acceptance is a function of the two texts alone.
pub uninterp spec fn schema_accepts(schema: Seq<char>, instance: Seq<char>) -> Option<bool>;

/// Relies on serde_json::from_str, jsonschema::validator_for and
/// jsonschema::Validator::is_valid: parses both texts, compiles the schema
/// and validates the instance against it.
#[verifier::external_body]
fn validate_against_schema(schema: &str, instance: &str) -> (r: Result<bool, String>)
    ensures
        r matches Ok(b) ==> schema_accepts(schema@, instance@) == Option::Some(b),
        r is Err <==> schema_accepts(schema@, instance@) is None,
{
    let schema_value: serde_json::Value = match serde_json::from_str(schema) {
        Ok(v) => v,
        Err(e) => return Err(e.to_string()),
    };
    let instance_value: serde_json::Value = match serde_json::from_str(instance) {
        Ok(v) => v,
        Err(e) => return Err(e.to_string()),
    };
    match jsonschema::validator_for(&schema_value) {
        Ok(validator) => Ok(validator.is_valid(&instance_value)),
        Err(e) => Err(e.to_string()),
    }
}

/// Elementwise structural match of two equally long element sequences.
pub open spec fn items_structure_match(e: Seq<ValueModel>, a: Seq<ValueModel>) -> bool
    recommends
        e.len() == a.len(),
    decreases e,
{
    if e.len() == 0 {
        true
    } else {
        items_structure_match(e.drop_last(), a.drop_last()) && structure_matches(
            e.last(),
            a.last(),
        )
    }
}

/// Every expected field has a matching field in the actual object, found by
/// key, with structurally matching values.
pub open spec fn fields_structure_match(
    e: Seq<(Seq<char>, ValueModel)>,
    a: Seq<(Seq<char>, ValueModel)>,
) -> bool
    decreases e,
{
    if e.len() == 0 {
        true
    } else {
        fields_structure_match(e.drop_last(), a) && match lookup_field(a, e.last().0) {
            Option::Some(v) => structure_matches(e.last().1, v),
            Option::None => false,
        }
    }
}

/// Structural match: equal shapes and key sets, values compared by kind
/// only, never by content.
pub open spec fn structure_matches(expected: ValueModel, actual: ValueModel) -> bool
    decreases expected,
{
    match (expected, actual) {
        (ValueModel::Obj(e), ValueModel::Obj(a)) => e.len() == a.len()
            && fields_structure_match(e, a),
        (ValueModel::Arr(e), ValueModel::Arr(a)) => e.len() == a.len()
            && items_structure_match(e, a),
        (ValueModel::Text(_), ValueModel::Text(_)) => true,
        (ValueModel::Num(_), ValueModel::Num(_)) => true,
        (ValueModel::Bool(_), ValueModel::Bool(_)) => true,
        (ValueModel::Null, ValueModel::Null) => true,
        _ => false,
    }
}

proof fn lemma_items_match_take_step(e: Seq<ValueModel>, a: Seq<ValueModel>, i: int)
    requires
        e.len() == a.len(),
        0 <= i < e.len(),
    ensures
        items_structure_match(e.take(i + 1), a.take(i + 1)) == (items_structure_match(
            e.take(i),
            a.take(i),
        ) && structure_matches(e[i], a[i])),
{
    assert(e.take(i + 1).drop_last() =~= e.take(i));
    assert(a.take(i + 1).drop_last() =~= a.take(i));
    assert(e.take(i + 1).last() == e[i]);
    assert(a.take(i + 1).last() == a[i]);
}

proof fn lemma_fields_match_take_step(
    e: Seq<(Seq<char>, ValueModel)>,
    a: Seq<(Seq<char>, ValueModel)>,
    i: int,
)
    requires
        0 <= i < e.len(),
    ensures
        fields_structure_match(e.take(i + 1), a) == (fields_structure_match(e.take(i), a)
            && match lookup_field(a, e[i].0) {
            Option::Some(v) => structure_matches(e[i].1, v),
            Option::None => false,
        }),
{
    assert(e.take(i + 1).drop_last() =~= e.take(i));
    assert(e.take(i + 1).last() == e[i]);
}

/// Decides the structural match of two values, exactly mirroring
/// [`structure_matches`] on the models.
pub fn compare_structure(expected: &JsonValue, actual: &JsonValue) -> (r: bool)
    ensures
        r == structure_matches(expected@, actual@),
    decreases *expected,
{
    match (expected, actual) {
        (JsonValue::Obj(e), JsonValue::Obj(a)) => {
            proof {
                lemma_field_models_of_len(e@);
                lemma_field_models_of_len(a@);
            }
            if e.len() != a.len() {
                return false;
            }
            let n = e.len();
            let mut i: usize = 0;
            let ghost em = field_models_of(e@);
            let ghost am = field_models_of(a@);
            proof {
                assert(em.take(0) =~= Seq::<(Seq<char>, ValueModel)>::empty());
            }
            while i < n
                invariant
                    n == e@.len() == a@.len(),
                    i <= n,
                    em == field_models_of(e@),
                    am == field_models_of(a@),
                    em.len() == n,
                    *expected == JsonValue::Obj(*e),
                    *actual == JsonValue::Obj(*a),
                    fields_structure_match(em.take(i as int), am),
                decreases n - i,
            {
                proof {
                    lemma_field_models_of_index(e@, i as int);
                    lemma_fields_match_take_step(em, am, i as int);
                    assert(decreases_to!(*expected => e@[i as int].1)) by {
                        assert(decreases_to!(*expected => (*expected)->Obj_0));
                        assert((*expected)->Obj_0 == *e);
                        assert(decreases_to!(*e => e@));
                        assert(decreases_to!(e@ => e@[i as int]));
                        assert(decreases_to!(e@[i as int] => e@[i as int].1));
                    }
                }
                let found = obj_get(a, e[i].0.as_str());
                match found {
                    Some(v) => {
                        if !compare_structure(&e[i].1, v) {
                            proof {
                                assert(!fields_structure_match(em.take(i + 1), am));
                                lemma_fields_match_prefix_false(em, am, i + 1);
                            }
                            return false;
                        }
                    },
                    None => {
                        proof {
                            assert(!fields_structure_match(em.take(i + 1), am));
                            lemma_fields_match_prefix_false(em, am, i + 1);
                        }
                        return false;
                    },
                }
                i += 1;
            }
            proof {
                assert(em.take(n as int) =~= em);
            }
            true
        },
        (JsonValue::Arr(e), JsonValue::Arr(a)) => {
            proof {
                lemma_models_of_len(e@);
                lemma_models_of_len(a@);
            }
            if e.len() != a.len() {
                return false;
            }
            let n = e.len();
            let mut i: usize = 0;
            let ghost em = models_of(e@);
            let ghost am = models_of(a@);
            proof {
                assert(em.take(0) =~= Seq::<ValueModel>::empty());
                assert(am.take(0) =~= Seq::<ValueModel>::empty());
            }
            while i < n
                invariant
                    n == e@.len() == a@.len(),
                    i <= n,
                    em == models_of(e@),
                    am == models_of(a@),
                    em.len() == n == am.len(),
                    *expected == JsonValue::Arr(*e),
                    *actual == JsonValue::Arr(*a),
                    items_structure_match(em.take(i as int), am.take(i as int)),
                decreases n - i,
            {
                proof {
                    lemma_models_of_index(e@, i as int);
                    lemma_models_of_index(a@, i as int);
                    lemma_items_match_take_step(em, am, i as int);
                    assert(decreases_to!(*expected => e@[i as int])) by {
                        assert(decreases_to!(*expected => (*expected)->Arr_0));
                        assert((*expected)->Arr_0 == *e);
                        assert(decreases_to!(*e => e@));
                        assert(decreases_to!(e@ => e@[i as int]));
                    }
                }
                if !compare_structure(&e[i], &a[i]) {
                    proof {
                        assert(!items_structure_match(em.take(i + 1), am.take(i + 1)));
                        lemma_items_match_prefix_false(em, am, i + 1);
                    }
                    return false;
                }
                i += 1;
            }
            proof {
                assert(em.take(n as int) =~= em);
                assert(am.take(n as int) =~= am);
            }
            true
        },
        (JsonValue::Text(_), JsonValue::Text(_)) => true,
        (JsonValue::Num(_), JsonValue::Num(_)) => true,
        (JsonValue::Bool(_), JsonValue::Bool(_)) => true,
        (JsonValue::Null, JsonValue::Null) => true,
        _ => {
            proof {
                crate::value::lemma_model_constructors(*expected);
                crate::value::lemma_model_constructors(*actual);
            }
            false
        },
    }
}

proof fn lemma_items_match_prefix_false(e: Seq<ValueModel>, a: Seq<ValueModel>, i: int)
    requires
        e.len() == a.len(),
        0 <= i <= e.len(),
        !items_structure_match(e.take(i), a.take(i)),
    ensures
        !items_structure_match(e, a),
    decreases e.len() - i,
{
    if i == e.len() {
        assert(e.take(i) =~= e);
        assert(a.take(i) =~= a);
    } else {
        lemma_items_match_take_step(e, a, i);
        lemma_items_match_prefix_false(e, a, i + 1);
    }
}

proof fn lemma_fields_match_prefix_false(
    e: Seq<(Seq<char>, ValueModel)>,
    a: Seq<(Seq<char>, ValueModel)>,
    i: int,
)
    requires
        0 <= i <= e.len(),
        !fields_structure_match(e.take(i), a),
    ensures
        !fields_structure_match(e, a),
    decreases e.len() - i,
{
    if i == e.len() {
        assert(e.take(i) =~= e);
    } else {
        lemma_fields_match_take_step(e, a, i);
        lemma_fields_match_prefix_false(e, a, i + 1);
    }
}

/// How a [`JsonScorer`] judges an output.
#[derive(Debug, PartialEq)]
pub enum JsonMode {
    /// Any structured output passes.
    Valid,
    /// The output must structurally match the expected value.
    Strict,
    /// The output must satisfy the held schema.
    Schema(JsonValue),
}

/// The mathematical model of a [`JsonMode`].
#[verifier::ext_equal]
pub enum JsonModeModel {
    Valid,
    Strict,
    Schema(ValueModel),
}

impl View for JsonMode {
    type V = JsonModeModel;

    open spec fn view(&self) -> JsonModeModel {
        match self {
            JsonMode::Valid => JsonModeModel::Valid,
            JsonMode::Strict => JsonModeModel::Strict,
            JsonMode::Schema(schema) => JsonModeModel::Schema(model_of(*schema)),
        }
    }
}

/// Scores structured outputs: by validity, by strict structural match, or
/// against a schema.
pub struct JsonScorer {
    mode: JsonMode,
}

impl View for JsonScorer {
    type V = JsonModeModel;

    closed spec fn view(&self) -> JsonModeModel {
        self.mode@
    }
}

/// The ruling a [`JsonScorer`] reaches on an output, when it reaches one:
/// nothing when schema validation itself fails.
pub open spec fn json_ruling(
    mode: JsonModeModel,
    expected: ValueModel,
    output: ValueModel,
) -> Option<bool> {
    match mode {
        JsonModeModel::Valid => Option::Some(true),
        JsonModeModel::Strict => Option::Some(structure_matches(expected, output)),
        JsonModeModel::Schema(schema) => schema_accepts(
            json_text_of(schema),
            json_text_of(output),
        ),
    }
}

impl JsonScorer {
    /// A scorer accepting any structured output.
    pub fn new() -> (s: JsonScorer)
        ensures
            s@ == JsonModeModel::Valid,
    {
        JsonScorer { mode: JsonMode::Valid }
    }

    /// A scorer requiring strict structural match with the expected value.
    pub fn strict() -> (s: JsonScorer)
        ensures
            s@ == JsonModeModel::Strict,
    {
        JsonScorer { mode: JsonMode::Strict }
    }

    /// A scorer validating outputs against the given schema; exactly the
    /// schemas that do not compile are rejected.
    pub fn with_schema(schema: JsonValue) -> (r: Result<JsonScorer, String>)
        ensures
            r is Ok <==> schema_accepts(json_text_of(schema@), seq!['n', 'u', 'l', 'l'])
                is Some,
            r matches Ok(s) ==> s@ == JsonModeModel::Schema(schema@),
    {
        let schema_text = to_json_string(&schema);
        let probe = "null";
        proof {
            reveal_strlit("null");
            assert(probe@ =~= seq!['n', 'u', 'l', 'l']);
        }
        match validate_against_schema(schema_text.as_str(), probe) {
            Ok(_) => Ok(JsonScorer { mode: JsonMode::Schema(schema) }),
            Err(e) => Err(e),
        }
    }
}

impl Default for JsonScorer {
    /// The default scorer accepts any structured output.
    fn default() -> (s: JsonScorer)
        ensures
            s@ == JsonModeModel::Valid,
    {
        JsonScorer::new()
    }
}

impl Scorer for JsonScorer {
    open spec fn spec_name(&self) -> Seq<char> {
        "json"@
    }

    fn name(&self) -> (r: String)
        ensures
            r@ == self.spec_name(),
    {
        "json".to_string()
    }

    /// Judges under the configured mode, with full marks on a pass; a
    /// schema validation failure is the scorer's own failure.
    fn score(&self, expected: &JsonValue, output: &JsonValue) -> (r: Result<Score, String>)
        ensures
            r is Ok <==> json_ruling(self@, expected@, output@) is Some,
            r matches Ok(s) ==> s@ == (ScoreModel {
                name: "json"@,
                value_micros: if json_ruling(self@, expected@, output@) == Option::Some(true) {
                    SCORE_UNIT_MICROS
                } else {
                    0
                },
                passed: json_ruling(self@, expected@, output@) == Option::Some(true),
                details: Option::None,
            }),
    {
        let ruling: bool = match &self.mode {
            JsonMode::Valid => true,
            JsonMode::Strict => compare_structure(expected, output),
            JsonMode::Schema(schema) => {
                let schema_text = to_json_string(schema);
                let output_text = to_json_string(output);
                match validate_against_schema(schema_text.as_str(), output_text.as_str()) {
                    Ok(b) => b,
                    Err(e) => {
                        return Err(e);
                    },
                }
            },
        };
        let value_micros = if ruling {
            SCORE_UNIT_MICROS
        } else {
            0
        };
        Ok(Score { name: "json".to_string(), value_micros, passed: ruling, details: None })
    }
}

} // verus!
