//! Rendering of values as JSON text, with an exact character-level
//! specification of the produced output.

use vstd::prelude::*;

use crate::value::{
    field_models_of, lemma_field_models_of_index, lemma_field_models_of_len,
    lemma_models_of_index, lemma_models_of_len, models_of, JsonValue, ValueModel,
};

verus! {

/// The lower-case hexadecimal digit for a value below sixteen.
pub open spec fn hex_digit_char(n: int) -> char {
    if n == 0 {
        '0'
    } else if n == 1 {
        '1'
    } else if n == 2 {
        '2'
    } else if n == 3 {
        '3'
    } else if n == 4 {
        '4'
    } else if n == 5 {
        '5'
    } else if n == 6 {
        '6'
    } else if n == 7 {
        '7'
    } else if n == 8 {
        '8'
    } else if n == 9 {
        '9'
    } else if n == 10 {
        'a'
    } else if n == 11 {
        'b'
    } else if n == 12 {
        'c'
    } else if n == 13 {
        'd'
    } else if n == 14 {
        'e'
    } else {
        'f'
    }
}

/// How one character appears inside a JSON string literal.
pub open spec fn escaped_char(c: char) -> Seq<char> {
    if c == '"' {
        seq!['\\', '"']
    } else if c == '\\' {
        seq!['\\', '\\']
    } else if c == '\n' {
        seq!['\\', 'n']
    } else if c == '\r' {
        seq!['\\', 'r']
    } else if c == '\t' {
        seq!['\\', 't']
    } else if (c as int) < 32 {
        seq!['\\', 'u', '0', '0', hex_digit_char(c as int / 16), hex_digit_char(c as int % 16)]
    } else {
        seq![c]
    }
}

/// A whole string escaped for a JSON string literal.
pub open spec fn escaped_text(s: Seq<char>) -> Seq<char>
    decreases s,
{
    if s.len() == 0 {
        Seq::empty()
    } else {
        escaped_text(s.drop_last()) + escaped_char(s.last())
    }
}

/// A JSON string literal: the escaped text between double quotes.
pub open spec fn quoted_text(s: Seq<char>) -> Seq<char> {
    seq!['"'] + escaped_text(s) + seq!['"']
}

/// The JSON text of a value model.
pub open spec fn json_text_of(m: ValueModel) -> Seq<char>
    decreases m,
{
    match m {
        ValueModel::Null => seq!['n', 'u', 'l', 'l'],
        ValueModel::Bool(b) => if b {
            seq!['t', 'r', 'u', 'e']
        } else {
            seq!['f', 'a', 'l', 's', 'e']
        },
        ValueModel::Num(s) => s,
        ValueModel::Text(s) => quoted_text(s),
        ValueModel::Arr(items) => seq!['['] + json_items_text(items) + seq![']'],
        ValueModel::Obj(fields) => seq!['{'] + json_fields_text(fields) + seq!['}'],
    }
}

/// The comma-separated JSON text of a sequence of array elements.
pub open spec fn json_items_text(items: Seq<ValueModel>) -> Seq<char>
    decreases items,
{
    if items.len() == 0 {
        Seq::empty()
    } else if items.len() == 1 {
        json_text_of(items.last())
    } else {
        json_items_text(items.drop_last()) + seq![','] + json_text_of(items.last())
    }
}

/// The JSON text of one object field: quoted key, colon, value.
pub open spec fn json_field_text(f: (Seq<char>, ValueModel)) -> Seq<char>
    decreases f,
{
    quoted_text(f.0) + seq![':'] + json_text_of(f.1)
}

/// The comma-separated JSON text of a sequence of object fields.
pub open spec fn json_fields_text(fields: Seq<(Seq<char>, ValueModel)>) -> Seq<char>
    decreases fields,
{
    if fields.len() == 0 {
        Seq::empty()
    } else if fields.len() == 1 {
        json_field_text(fields.last())
    } else {
        json_fields_text(fields.drop_last()) + seq![','] + json_field_text(fields.last())
    }
}

fn hex_digit(n: u32) -> (c: char)
    requires
        n < 16,
    ensures
        c == hex_digit_char(n as int),
{
    if n == 0 {
        '0'
    } else if n == 1 {
        '1'
    } else if n == 2 {
        '2'
    } else if n == 3 {
        '3'
    } else if n == 4 {
        '4'
    } else if n == 5 {
        '5'
    } else if n == 6 {
        '6'
    } else if n == 7 {
        '7'
    } else if n == 8 {
        '8'
    } else if n == 9 {
        '9'
    } else if n == 10 {
        'a'
    } else if n == 11 {
        'b'
    } else if n == 12 {
        'c'
    } else if n == 13 {
        'd'
    } else if n == 14 {
        'e'
    } else {
        'f'
    }
}

/// Relies on String::push: appends exactly the given character.
#[verifier::external_body]
pub(crate) fn push_char(out: &mut String, c: char)
    ensures
        final(out)@ == old(out)@.push(c),
{
    out.push(c);
}

/// Appends the escaped form of `s` to `out`.
fn append_escaped(out: &mut String, s: &str)
    ensures
        final(out)@ == old(out)@ + escaped_text(s@),
{
    let n = s.unicode_len();
    let mut i: usize = 0;
    while i < n
        invariant
            n == s@.len(),
            i <= n,
            out@ == old(out)@ + escaped_text(s@.take(i as int)),
        decreases n - i,
    {
        let c = s.get_char(i);
        if c == '"' {
            push_char(out, '\\');
            push_char(out, '"');
        } else if c == '\\' {
            push_char(out, '\\');
            push_char(out, '\\');
        } else if c == '\n' {
            push_char(out, '\\');
            push_char(out, 'n');
        } else if c == '\r' {
            push_char(out, '\\');
            push_char(out, 'r');
        } else if c == '\t' {
            push_char(out, '\\');
            push_char(out, 't');
        } else if (c as u32) < 32 {
            let code = c as u32;
            push_char(out, '\\');
            push_char(out, 'u');
            push_char(out, '0');
            push_char(out, '0');
            push_char(out, hex_digit(code / 16));
            push_char(out, hex_digit(code % 16));
        } else {
            push_char(out, c);
        }
        proof {
            assert(s@.take(i + 1).drop_last() =~= s@.take(i as int));
            assert(s@.take(i + 1).last() == s@[i as int]);
            assert(out@ =~= old(out)@ + escaped_text(s@.take(i + 1)));
        }
        i += 1;
    }
    proof {
        assert(s@.take(n as int) =~= s@);
    }
}

/// Appends the JSON string literal for `s` to `out`.
fn append_quoted(out: &mut String, s: &str)
    ensures
        final(out)@ == old(out)@ + quoted_text(s@),
{
    push_char(out, '"');
    append_escaped(out, s);
    push_char(out, '"');
    proof {
        assert(out@ =~= old(out)@ + quoted_text(s@));
    }
}

proof fn lemma_items_text_step(ms: Seq<ValueModel>, i: int)
    requires
        0 <= i < ms.len(),
    ensures
        json_items_text(ms.take(i + 1)) == if i == 0 {
            json_text_of(ms[0])
        } else {
            json_items_text(ms.take(i)) + seq![','] + json_text_of(ms[i])
        },
{
    assert(ms.take(i + 1).drop_last() =~= ms.take(i));
    assert(ms.take(i + 1).last() == ms[i]);
}

proof fn lemma_fields_text_step(fs: Seq<(Seq<char>, ValueModel)>, i: int)
    requires
        0 <= i < fs.len(),
    ensures
        json_fields_text(fs.take(i + 1)) == if i == 0 {
            json_field_text(fs[0])
        } else {
            json_fields_text(fs.take(i)) + seq![','] + json_field_text(fs[i])
        },
{
    assert(fs.take(i + 1).drop_last() =~= fs.take(i));
    assert(fs.take(i + 1).last() == fs[i]);
}

/// Renders a value as JSON text; the result is exactly [`json_text_of`]
/// applied to the value's model.
pub fn to_json_string(v: &JsonValue) -> (r: String)
    ensures
        r@ == json_text_of(v@),
    decreases *v,
{
    match v {
        JsonValue::Null => {
            let r = "null".to_string();
            proof {
                reveal_strlit("null");
                assert(r@ =~= seq!['n', 'u', 'l', 'l']);
            }
            r
        },
        JsonValue::Bool(b) => {
            if *b {
                let r = "true".to_string();
                proof {
                    reveal_strlit("true");
                    assert(r@ =~= seq!['t', 'r', 'u', 'e']);
                }
                r
            } else {
                let r = "false".to_string();
                proof {
                    reveal_strlit("false");
                    assert(r@ =~= seq!['f', 'a', 'l', 's', 'e']);
                }
                r
            }
        },
        JsonValue::Num(s) => s.clone(),
        JsonValue::Text(s) => {
            let mut out = String::new();
            append_quoted(&mut out, s.as_str());
            proof {
                assert(out@ =~= quoted_text(s@));
            }
            out
        },
        JsonValue::Arr(items) => {
            let mut out = String::new();
            push_char(&mut out, '[');
            let n = items.len();
            let mut i: usize = 0;
            proof {
                lemma_models_of_len(items@);
                assert(models_of(items@).take(0) =~= Seq::<ValueModel>::empty());
            }
            while i < n
                invariant
                    n == items@.len(),
                    i <= n,
                    *v == JsonValue::Arr(*items),
                    models_of(items@).len() == n,
                    out@ == seq!['['] + json_items_text(models_of(items@).take(i as int)),
                decreases n - i,
            {
                proof {
                    assert(decreases_to!(*v => items@[i as int])) by {
                        assert(decreases_to!(*v => (*v)->Arr_0));
                        assert((*v)->Arr_0 == *items);
                        assert(decreases_to!(*items => items@));
                        assert(decreases_to!(items@ => items@[i as int]));
                    }
                }
                if i > 0 {
                    push_char(&mut out, ',');
                }
                let piece = to_json_string(&items[i]);
                out.append(piece.as_str());
                proof {
                    lemma_models_of_index(items@, i as int);
                    lemma_items_text_step(models_of(items@), i as int);
                    assert(out@ =~= seq!['['] + json_items_text(
                        models_of(items@).take(i + 1),
                    ));
                }
                i += 1;
            }
            push_char(&mut out, ']');
            proof {
                assert(models_of(items@).take(n as int) =~= models_of(items@));
                assert(out@ =~= seq!['['] + json_items_text(models_of(items@)) + seq![']']);
            }
            out
        },
        JsonValue::Obj(fields) => {
            let mut out = String::new();
            push_char(&mut out, '{');
            let n = fields.len();
            let mut i: usize = 0;
            proof {
                lemma_field_models_of_len(fields@);
                assert(field_models_of(fields@).take(0) =~= Seq::<(Seq<char>, ValueModel)>::empty());
            }
            while i < n
                invariant
                    n == fields@.len(),
                    i <= n,
                    *v == JsonValue::Obj(*fields),
                    field_models_of(fields@).len() == n,
                    out@ == seq!['{'] + json_fields_text(field_models_of(fields@).take(i as int)),
                decreases n - i,
            {
                proof {
                    assert(decreases_to!(*v => fields@[i as int].1)) by {
                        assert(decreases_to!(*v => (*v)->Obj_0));
                        assert((*v)->Obj_0 == *fields);
                        assert(decreases_to!(*fields => fields@));
                        assert(decreases_to!(fields@ => fields@[i as int]));
                        assert(decreases_to!(fields@[i as int] => fields@[i as int].1));
                    }
                }
                if i > 0 {
                    push_char(&mut out, ',');
                }
                append_quoted(&mut out, fields[i].0.as_str());
                push_char(&mut out, ':');
                let piece = to_json_string(&fields[i].1);
                out.append(piece.as_str());
                proof {
                    lemma_field_models_of_index(fields@, i as int);
                    lemma_fields_text_step(field_models_of(fields@), i as int);
                    assert(out@ =~= seq!['{'] + json_fields_text(
                        field_models_of(fields@).take(i + 1),
                    ));
                }
                i += 1;
            }
            push_char(&mut out, '}');
            proof {
                assert(field_models_of(fields@).take(n as int) =~= field_models_of(fields@));
                assert(out@ =~= seq!['{'] + json_fields_text(field_models_of(fields@))
                    + seq!['}']);
            }
            out
        },
    }
}

} // verus!
