//! Sources of test cases: the abstract supplier, an in-memory source, and
//! the record shape used by line-oriented case files.

use vstd::prelude::*;

use crate::text::str_eq;
use crate::types::{clone_case, CaseModel, TestCase};
use crate::value::{
    clone_value, field_models_of, lemma_field_models_of_index, lemma_field_models_of_len,
    JsonValue, ValueModel,
};

verus! {

/// Supplies the ordered list of cases to evaluate, or a failure message.
/// Called exactly once at the start of a run; the engine never knows how
/// the cases were produced.
pub trait DataSource {
    fn load(&self) -> Result<Vec<TestCase>, String>;
}

/// An in-memory case list.
pub struct VecDataSource {
    cases: Vec<TestCase>,
}

impl View for VecDataSource {
    type V = Seq<CaseModel>;

    closed spec fn view(&self) -> Seq<CaseModel> {
        Seq::new(self.cases@.len(), |i: int| self.cases@[i]@)
    }
}

impl VecDataSource {
    /// A source serving exactly the given cases, in order.
    pub fn new(cases: Vec<TestCase>) -> (s: VecDataSource)
        ensures
            s@.len() == cases@.len(),
            forall|i: int| 0 <= i < cases@.len() ==> s@[i] == cases@[i]@,
    {
        VecDataSource { cases }
    }
}

impl DataSource for VecDataSource {
    fn load(&self) -> Result<Vec<TestCase>, String> {
        let n = self.cases.len();
        let mut out: Vec<TestCase> = Vec::new();
        let mut i: usize = 0;
        while i < n
            invariant
                n == self.cases@.len(),
                i <= n,
                out@.len() == i,
                forall|j: int| 0 <= j < i ==> out@[j]@ == self.cases@[j]@,
            decreases n - i,
        {
            let c = clone_case(&self.cases[i]);
            out.push(c);
            i += 1;
        }
        Ok(out)
    }
}

/// The first value stored under the given key, scanning fields in order.
pub open spec fn lookup_field(
    fields: Seq<(Seq<char>, ValueModel)>,
    key: Seq<char>,
) -> Option<ValueModel>
    decreases fields,
{
    if fields.len() == 0 {
        Option::None
    } else if fields[0].0 == key {
        Option::Some(fields[0].1)
    } else {
        lookup_field(fields.drop_first(), key)
    }
}

/// Looks a key up in an object's fields, first match wins.
pub fn obj_get<'a>(fields: &'a Vec<(String, JsonValue)>, key: &str) -> (r: Option<
    &'a JsonValue,
>)
    ensures
        match r {
            Option::Some(v) => lookup_field(field_models_of(fields@), key@) == Option::Some(v@),
            Option::None => lookup_field(field_models_of(fields@), key@) is None,
        },
{
    let ghost fms = field_models_of(fields@);
    proof {
        lemma_field_models_of_len(fields@);
        assert(fms.skip(0) =~= fms);
    }
    let n = fields.len();
    let mut i: usize = 0;
    while i < n
        invariant
            n == fields@.len(),
            fms == field_models_of(fields@),
            fms.len() == n,
            i <= n,
            lookup_field(fms, key@) == lookup_field(fms.skip(i as int), key@),
        decreases n - i,
    {
        proof {
            lemma_field_models_of_index(fields@, i as int);
            assert(fms.skip(i as int)[0] == fms[i as int]);
            assert(fms.skip(i as int).drop_first() =~= fms.skip(i + 1));
        }
        if str_eq(fields[i].0.as_str(), key) {
            return Some(&fields[i].1);
        }
        i += 1;
    }
    proof {
        assert(fms.skip(n as int) =~= Seq::<(Seq<char>, ValueModel)>::empty());
    }
    None
}

/// The key under which a record names its case.
pub open spec fn id_key() -> Seq<char> {
    seq!['i', 'd']
}

/// The key under which a record carries the case input.
pub open spec fn input_key() -> Seq<char> {
    seq!['i', 'n', 'p', 'u', 't']
}

/// The key under which a record carries the expected output.
pub open spec fn expected_key() -> Seq<char> {
    seq!['e', 'x', 'p', 'e', 'c', 't', 'e', 'd']
}

/// A record value has the shape of a case: an object carrying both an
/// `input` and an `expected` field.
pub open spec fn case_shape_ok(m: ValueModel) -> bool {
    &&& m is Obj
    &&& lookup_field(m->Obj_0, input_key()) is Some
    &&& lookup_field(m->Obj_0, expected_key()) is Some
}

/// The case a well-shaped record value denotes: the `id` field names the
/// case when it is a string, and is ignored otherwise.
pub open spec fn case_of_record(m: ValueModel) -> CaseModel
    recommends
        case_shape_ok(m),
{
    CaseModel {
        id: match lookup_field(m->Obj_0, id_key()) {
            Option::Some(ValueModel::Text(s)) => Option::Some(s),
            _ => Option::None,
        },
        input: lookup_field(m->Obj_0, input_key())->Some_0,
        expected: lookup_field(m->Obj_0, expected_key())->Some_0,
    }
}

/// Why a record value was rejected, with the index of the first offender.
#[derive(Debug, PartialEq, Eq)]
pub enum CaseParseError {
    /// The record at the index is not an object.
    NotAnObject { index: usize },
    /// The object at the index lacks the `input` field.
    MissingInput { index: usize },
    /// The object at the index lacks the `expected` field.
    MissingExpected { index: usize },
}

impl CaseParseError {
    /// The index of the offending record.
    pub open spec fn spec_index(self) -> usize {
        match self {
            CaseParseError::NotAnObject { index } => index,
            CaseParseError::MissingInput { index } => index,
            CaseParseError::MissingExpected { index } => index,
        }
    }
}

/// A source reading cases from a line-oriented file of records, one JSON
/// object per line; the file itself is read and parsed by the caller, the
/// record shape is decided here.
pub struct JsonlDataSource {
    path: String,
}

impl View for JsonlDataSource {
    type V = Seq<char>;

    closed spec fn view(&self) -> Seq<char> {
        self.path@
    }
}

impl JsonlDataSource {
    /// A source naming the file at the given path.
    pub fn new(path: String) -> (s: JsonlDataSource)
        ensures
            s@ == path@,
    {
        JsonlDataSource { path }
    }

    /// The path the source reads from.
    pub fn path(&self) -> (r: &String)
        ensures
            r@ == self@,
    {
        &self.path
    }

    /// Turns parsed record values into cases: each record must be an object
    /// with `input` and `expected` fields; a string `id` field names the
    /// case. The first offending record is reported exactly.
    pub fn cases_from_values(values: &Vec<JsonValue>) -> (r: Result<
        Vec<TestCase>,
        CaseParseError,
    >)
        ensures
            match r {
                Result::Ok(cases) => {
                    &&& cases@.len() == values@.len()
                    &&& forall|i: int| 0 <= i < values@.len() ==> case_shape_ok(
                        #[trigger] values@[i]@,
                    )
                    &&& forall|i: int| 0 <= i < values@.len() ==> (#[trigger] cases@[i])@
                        == case_of_record(values@[i]@)
                },
                Result::Err(e) => {
                    &&& e.spec_index() < values@.len()
                    &&& !case_shape_ok(values@[e.spec_index() as int]@)
                    &&& forall|j: int| 0 <= j < e.spec_index() ==> case_shape_ok(
                        #[trigger] values@[j]@,
                    )
                    &&& (e is NotAnObject <==> !(values@[e.spec_index() as int]@ is Obj))
                    &&& (e is MissingInput <==> values@[e.spec_index() as int]@ is Obj
                        && lookup_field(
                        values@[e.spec_index() as int]@->Obj_0,
                        input_key(),
                    ) is None)
                },
            },
    {
        let ghost id_lit = id_key();
        let n = values.len();
        let mut out: Vec<TestCase> = Vec::new();
        let mut i: usize = 0;
        while i < n
            invariant
                n == values@.len(),
                i <= n,
                out@.len() == i,
                forall|j: int| 0 <= j < i ==> case_shape_ok(#[trigger] values@[j]@),
                forall|j: int| 0 <= j < i ==> (#[trigger] out@[j])@ == case_of_record(
                    values@[j]@,
                ),
            decreases n - i,
        {
            let fields = match &values[i] {
                JsonValue::Obj(fields) => fields,
                _ => {
                    return Err(CaseParseError::NotAnObject { index: i });
                },
            };
            let input = match obj_get(fields, "input") {
                Some(v) => v,
                None => {
                    proof {
                        reveal_strlit("input");
                        assert("input"@ =~= input_key());
                    }
                    return Err(CaseParseError::MissingInput { index: i });
                },
            };
            let expected = match obj_get(fields, "expected") {
                Some(v) => v,
                None => {
                    proof {
                        reveal_strlit("input");
                        reveal_strlit("expected");
                        assert("input"@ =~= input_key());
                        assert("expected"@ =~= expected_key());
                    }
                    return Err(CaseParseError::MissingExpected { index: i });
                },
            };
            let id: Option<String> = match obj_get(fields, "id") {
                Some(JsonValue::Text(s)) => Some(s.clone()),
                _ => None,
            };
            proof {
                reveal_strlit("input");
                reveal_strlit("expected");
                reveal_strlit("id");
                assert("input"@ =~= input_key());
                assert("expected"@ =~= expected_key());
                assert("id"@ =~= id_key());
            }
            let case = TestCase { id, input: clone_value(input), expected: clone_value(expected) };
            out.push(case);
            i += 1;
        }
        Ok(out)
    }
}

} // verus!
