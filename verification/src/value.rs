//! The structured values that flow through an evaluation: case inputs,
//! expected outputs, task outputs, score details and trace payloads.

use vstd::prelude::*;

verus! {

/// A structured (JSON-like) value.
///
/// Numbers are carried as their decimal literal text, so that the value is
/// exact plain data; producing or interpreting numeric literals is left to
/// the callers that load or render values.
#[derive(Debug, PartialEq)]
pub enum JsonValue {
    Null,
    Bool(bool),
    Num(String),
    Text(String),
    Arr(Vec<JsonValue>),
    Obj(Vec<(String, JsonValue)>),
}

/// The mathematical model of a [`JsonValue`].
#[verifier::ext_equal]
pub enum ValueModel {
    Null,
    Bool(bool),
    Num(Seq<char>),
    Text(Seq<char>),
    Arr(Seq<ValueModel>),
    Obj(Seq<(Seq<char>, ValueModel)>),
}

/// The model of a sequence of values, elementwise.
pub open spec fn models_of(items: Seq<JsonValue>) -> Seq<ValueModel>
    decreases items,
{
    if items.len() == 0 {
        Seq::empty()
    } else {
        models_of(items.drop_last()).push(model_of(items.last()))
    }
}

/// The model of a sequence of object fields, elementwise.
pub open spec fn field_models_of(fields: Seq<(String, JsonValue)>) -> Seq<(Seq<char>, ValueModel)>
    decreases fields,
{
    if fields.len() == 0 {
        Seq::empty()
    } else {
        field_models_of(fields.drop_last()).push(
            (fields.last().0@, model_of(fields.last().1)),
        )
    }
}

/// The mathematical model of a value.
pub open spec fn model_of(v: JsonValue) -> ValueModel
    decreases v,
{
    match v {
        JsonValue::Null => ValueModel::Null,
        JsonValue::Bool(b) => ValueModel::Bool(b),
        JsonValue::Num(s) => ValueModel::Num(s@),
        JsonValue::Text(s) => ValueModel::Text(s@),
        JsonValue::Arr(items) => ValueModel::Arr(models_of(items@)),
        JsonValue::Obj(fields) => ValueModel::Obj(field_models_of(fields@)),
    }
}

impl View for JsonValue {
    type V = ValueModel;

    open spec fn view(&self) -> ValueModel {
        model_of(*self)
    }
}

pub broadcast proof fn lemma_models_of_len(items: Seq<JsonValue>)
    ensures
        (#[trigger] models_of(items)).len() == items.len(),
    decreases items,
{
    if items.len() != 0 {
        lemma_models_of_len(items.drop_last());
    }
}

pub broadcast proof fn lemma_models_of_index(items: Seq<JsonValue>, i: int)
    requires
        0 <= i < items.len(),
    ensures
        #[trigger] models_of(items)[i] == model_of(items[i]),
    decreases items,
{
    lemma_models_of_len(items.drop_last());
    if i < items.len() - 1 {
        lemma_models_of_index(items.drop_last(), i);
    }
}

pub broadcast proof fn lemma_models_of_push(items: Seq<JsonValue>, v: JsonValue)
    ensures
        #[trigger] models_of(items.push(v)) == models_of(items).push(model_of(v)),
{
    assert(items.push(v).drop_last() =~= items);
    assert(items.push(v).last() == v);
}

pub broadcast proof fn lemma_field_models_of_len(fields: Seq<(String, JsonValue)>)
    ensures
        (#[trigger] field_models_of(fields)).len() == fields.len(),
    decreases fields,
{
    if fields.len() != 0 {
        lemma_field_models_of_len(fields.drop_last());
    }
}

pub broadcast proof fn lemma_field_models_of_index(fields: Seq<(String, JsonValue)>, i: int)
    requires
        0 <= i < fields.len(),
    ensures
        #[trigger] field_models_of(fields)[i] == (fields[i].0@, model_of(fields[i].1)),
    decreases fields,
{
    lemma_field_models_of_len(fields.drop_last());
    if i < fields.len() - 1 {
        lemma_field_models_of_index(fields.drop_last(), i);
    }
}

pub broadcast proof fn lemma_field_models_of_push(
    fields: Seq<(String, JsonValue)>,
    f: (String, JsonValue),
)
    ensures
        #[trigger] field_models_of(fields.push(f)) == field_models_of(fields).push(
            (f.0@, model_of(f.1)),
        ),
{
    assert(fields.push(f).drop_last() =~= fields);
    assert(fields.push(f).last() == f);
}

pub broadcast group group_value_model {
    lemma_models_of_len,
    lemma_models_of_index,
    lemma_models_of_push,
    lemma_field_models_of_len,
    lemma_field_models_of_index,
    lemma_field_models_of_push,
}

/// Each value's model is built by the constructor matching the value's own.
pub proof fn lemma_model_constructors(v: JsonValue)
    ensures
        v is Null <==> model_of(v) is Null,
        v is Bool <==> model_of(v) is Bool,
        v is Num <==> model_of(v) is Num,
        v is Text <==> model_of(v) is Text,
        v is Arr <==> model_of(v) is Arr,
        v is Obj <==> model_of(v) is Obj,
{
}

/// Structural equality of two values, decided executably and exactly
/// mirroring equality of the mathematical models.
pub fn json_eq(a: &JsonValue, b: &JsonValue) -> (r: bool)
    ensures
        r == (a@ == b@),
    decreases *a,
{
    broadcast use group_value_model;

    match (a, b) {
        (JsonValue::Null, JsonValue::Null) => true,
        (JsonValue::Bool(x), JsonValue::Bool(y)) => x == y,
        (JsonValue::Num(x), JsonValue::Num(y)) => *x == *y,
        (JsonValue::Text(x), JsonValue::Text(y)) => *x == *y,
        (JsonValue::Arr(x), JsonValue::Arr(y)) => {
            if x.len() != y.len() {
                proof {
                    lemma_models_of_len(x@);
                    lemma_models_of_len(y@);
                }
                return false;
            }
            let n = x.len();
            let mut i: usize = 0;
            while i < n
                invariant
                    n == x@.len() == y@.len(),
                    i <= n,
                    forall|j: int| 0 <= j < i ==> model_of(x@[j]) == model_of(y@[j]),
                    *a == JsonValue::Arr(*x),
                    *b == JsonValue::Arr(*y),
                decreases n - i,
            {
                proof {
                    assert(decreases_to!(*a => x@[i as int])) by {
                        assert(decreases_to!(*a => (*a)->Arr_0));
                        assert((*a)->Arr_0 == *x);
                        assert(decreases_to!(*x => x@));
                        assert(decreases_to!(x@ => x@[i as int]));
                    }
                }
                if !json_eq(&x[i], &y[i]) {
                    proof {
                        lemma_models_of_len(x@);
                        lemma_models_of_index(x@, i as int);
                        lemma_models_of_index(y@, i as int);
                        assert(models_of(x@)[i as int] != models_of(y@)[i as int]);
                    }
                    return false;
                }
                i += 1;
            }
            proof {
                assert(models_of(x@) =~= models_of(y@));
            }
            true
        },
        (JsonValue::Obj(x), JsonValue::Obj(y)) => {
            if x.len() != y.len() {
                proof {
                    lemma_field_models_of_len(x@);
                    lemma_field_models_of_len(y@);
                }
                return false;
            }
            let n = x.len();
            let mut i: usize = 0;
            while i < n
                invariant
                    n == x@.len() == y@.len(),
                    i <= n,
                    forall|j: int| 0 <= j < i ==> (#[trigger] x@[j]).0@ == y@[j].0@
                        && model_of(x@[j].1) == model_of(y@[j].1),
                    *a == JsonValue::Obj(*x),
                    *b == JsonValue::Obj(*y),
                decreases n - i,
            {
                proof {
                    assert(decreases_to!(*a => x@[i as int].1)) by {
                        assert(decreases_to!(*a => (*a)->Obj_0));
                        assert((*a)->Obj_0 == *x);
                        assert(decreases_to!(*x => x@));
                        assert(decreases_to!(x@ => x@[i as int]));
                        assert(decreases_to!(x@[i as int] => x@[i as int].1));
                    }
                }
                let keys_equal = x[i].0 == y[i].0;
                if !keys_equal || !json_eq(&x[i].1, &y[i].1) {
                    proof {
                        lemma_field_models_of_len(x@);
                        lemma_field_models_of_index(x@, i as int);
                        lemma_field_models_of_index(y@, i as int);
                        assert(field_models_of(x@)[i as int] != field_models_of(y@)[i as int]);
                    }
                    return false;
                }
                i += 1;
            }
            proof {
                assert(field_models_of(x@) =~= field_models_of(y@));
            }
            true
        },
        _ => {
            proof {
                lemma_model_constructors(*a);
                lemma_model_constructors(*b);
            }
            false
        },
    }
}

/// A deep copy of a value, exact on the model.
pub fn clone_value(v: &JsonValue) -> (r: JsonValue)
    ensures
        r@ == v@,
    decreases *v,
{
    broadcast use group_value_model;

    match v {
        JsonValue::Null => JsonValue::Null,
        JsonValue::Bool(b) => JsonValue::Bool(*b),
        JsonValue::Num(s) => JsonValue::Num(s.clone()),
        JsonValue::Text(s) => JsonValue::Text(s.clone()),
        JsonValue::Arr(items) => {
            let n = items.len();
            let mut out: Vec<JsonValue> = Vec::new();
            let mut i: usize = 0;
            while i < n
                invariant
                    n == items@.len(),
                    i <= n,
                    out@.len() == i,
                    models_of(out@) == models_of(items@.take(i as int)),
                    *v == JsonValue::Arr(*items),
                decreases n - i,
            {
                proof {
                    assert(decreases_to!(*v => items@[i as int])) by {
                        assert(decreases_to!(*v => (*v)->Arr_0));
                        assert((*v)->Arr_0 == *items);
                        assert(decreases_to!(*items => items@));
                        assert(decreases_to!(items@ => items@[i as int]));
                    }
                }
                let c = clone_value(&items[i]);
                let ghost prev = out@;
                out.push(c);
                proof {
                    assert(out@ == prev.push(c));
                    lemma_models_of_push(prev, c);
                    assert(items@.take(i + 1).drop_last() =~= items@.take(i as int));
                    assert(items@.take(i + 1).last() == items@[i as int]);
                    assert(models_of(items@.take(i + 1)) == models_of(items@.take(i as int)).push(
                        model_of(items@[i as int]),
                    ));
                }
                i += 1;
            }
            proof {
                assert(items@.take(n as int) =~= items@);
            }
            JsonValue::Arr(out)
        },
        JsonValue::Obj(fields) => {
            let n = fields.len();
            let mut out: Vec<(String, JsonValue)> = Vec::new();
            let mut i: usize = 0;
            while i < n
                invariant
                    n == fields@.len(),
                    i <= n,
                    out@.len() == i,
                    field_models_of(out@) == field_models_of(fields@.take(i as int)),
                    *v == JsonValue::Obj(*fields),
                decreases n - i,
            {
                proof {
                    assert(decreases_to!(*v => fields@[i as int].1)) by {
                        assert(decreases_to!(*v => (*v)->Obj_0));
                        assert((*v)->Obj_0 == *fields);
                        assert(decreases_to!(*fields => fields@));
                        assert(decreases_to!(fields@ => fields@[i as int]));
                        assert(decreases_to!(fields@[i as int] => fields@[i as int].1));
                    }
                }
                let k = fields[i].0.clone();
                let c = clone_value(&fields[i].1);
                let ghost prev = out@;
                let entry = (k, c);
                out.push(entry);
                proof {
                    assert(out@ == prev.push(entry));
                    lemma_field_models_of_push(prev, entry);
                    assert(fields@.take(i + 1).drop_last() =~= fields@.take(i as int));
                    assert(fields@.take(i + 1).last() == fields@[i as int]);
                    assert(field_models_of(fields@.take(i + 1)) == field_models_of(
                        fields@.take(i as int),
                    ).push((fields@[i as int].0@, model_of(fields@[i as int].1))));
                }
                i += 1;
            }
            proof {
                assert(fields@.take(n as int) =~= fields@);
            }
            JsonValue::Obj(out)
        },
    }
}

} // verus!
