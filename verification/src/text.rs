//! Text utilities: flattening values to plain text, previews for reports,
//! substring search, case folding and HTML escaping.

use vstd::prelude::*;

use crate::render::{json_text_of, push_char, to_json_string};
use crate::value::{JsonValue, ValueModel};

verus! {

/// How a value reads as plain text: text keeps its characters, null reads
/// as empty, everything else reads as its JSON text.
pub open spec fn stringify_text(m: ValueModel) -> Seq<char> {
    match m {
        ValueModel::Text(s) => s,
        ValueModel::Null => Seq::empty(),
        _ => json_text_of(m),
    }
}

/// How a value is previewed in a report: text keeps its characters,
/// everything else (null included) shows as its JSON text.
pub open spec fn preview_text(m: ValueModel) -> Seq<char> {
    match m {
        ValueModel::Text(s) => s,
        _ => json_text_of(m),
    }
}

/// Flattens a value to plain text.
pub fn stringify(v: &JsonValue) -> (r: String)
    ensures
        r@ == stringify_text(v@),
{
    match v {
        JsonValue::Text(s) => s.clone(),
        JsonValue::Null => String::new(),
        _ => to_json_string(v),
    }
}

/// The preview text of a value.
pub fn value_preview(v: &JsonValue) -> (r: String)
    ensures
        r@ == preview_text(v@),
{
    match v {
        JsonValue::Text(s) => s.clone(),
        _ => to_json_string(v),
    }
}

/// Text shortened to at most `max_len` characters, the last one an ellipsis
/// when anything was cut.
pub open spec fn truncated_text(s: Seq<char>, max_len: int) -> Seq<char> {
    if s.len() <= max_len {
        s
    } else {
        s.take(if max_len >= 1 {
            max_len - 1
        } else {
            0
        }).push('…')
    }
}

/// Shortens text to at most `max_len` characters, marking any cut with an
/// ellipsis.
pub fn truncate(s: String, max_len: usize) -> (r: String)
    ensures
        r@ == truncated_text(s@, max_len as int),
{
    let n = s.as_str().unicode_len();
    if n <= max_len {
        return s;
    }
    let cut: usize = if max_len >= 1 {
        max_len - 1
    } else {
        0
    };
    let head = s.as_str().substring_char(0, cut);
    let mut out = head.to_string();
    push_char(&mut out, '…');
    proof {
        assert(s@.subrange(0, cut as int) =~= s@.take(cut as int));
    }
    out
}

/// How one character appears in escaped HTML text.
pub open spec fn html_escaped_char(c: char) -> Seq<char> {
    if c == '&' {
        seq!['&', 'a', 'm', 'p', ';']
    } else if c == '<' {
        seq!['&', 'l', 't', ';']
    } else if c == '>' {
        seq!['&', 'g', 't', ';']
    } else if c == '"' {
        seq!['&', 'q', 'u', 'o', 't', ';']
    } else if c == '\'' {
        seq!['&', '#', '3', '9', ';']
    } else {
        seq![c]
    }
}

/// A whole string escaped for HTML text.
pub open spec fn html_escaped_text(s: Seq<char>) -> Seq<char>
    decreases s,
{
    if s.len() == 0 {
        Seq::empty()
    } else {
        html_escaped_text(s.drop_last()) + html_escaped_char(s.last())
    }
}

/// Escapes text for inclusion in HTML.
pub fn html_escape(s: &str) -> (r: String)
    ensures
        r@ == html_escaped_text(s@),
{
    let n = s.unicode_len();
    let mut out = String::new();
    let mut i: usize = 0;
    while i < n
        invariant
            n == s@.len(),
            i <= n,
            out@ == html_escaped_text(s@.take(i as int)),
        decreases n - i,
    {
        let c = s.get_char(i);
        if c == '&' {
            push_char(&mut out, '&');
            push_char(&mut out, 'a');
            push_char(&mut out, 'm');
            push_char(&mut out, 'p');
            push_char(&mut out, ';');
        } else if c == '<' {
            push_char(&mut out, '&');
            push_char(&mut out, 'l');
            push_char(&mut out, 't');
            push_char(&mut out, ';');
        } else if c == '>' {
            push_char(&mut out, '&');
            push_char(&mut out, 'g');
            push_char(&mut out, 't');
            push_char(&mut out, ';');
        } else if c == '"' {
            push_char(&mut out, '&');
            push_char(&mut out, 'q');
            push_char(&mut out, 'u');
            push_char(&mut out, 'o');
            push_char(&mut out, 't');
            push_char(&mut out, ';');
        } else if c == '\'' {
            push_char(&mut out, '&');
            push_char(&mut out, '#');
            push_char(&mut out, '3');
            push_char(&mut out, '9');
            push_char(&mut out, ';');
        } else {
            push_char(&mut out, c);
        }
        proof {
            assert(s@.take(i + 1).drop_last() =~= s@.take(i as int));
            assert(s@.take(i + 1).last() == s@[i as int]);
            assert(out@ =~= html_escaped_text(s@.take(i + 1)));
        }
        i += 1;
    }
    proof {
        assert(s@.take(n as int) =~= s@);
    }
    out
}

/// The needle occurs in the haystack starting at position `k`.
pub open spec fn contains_at(h: Seq<char>, n: Seq<char>, k: int) -> bool {
    0 <= k && k + n.len() <= h.len() && h.subrange(k, k + n.len()) == n
}

/// The needle occurs somewhere in the haystack.
pub open spec fn text_contains(h: Seq<char>, n: Seq<char>) -> bool {
    exists|k: int| contains_at(h, n, k)
}

/// Decides whether `needle` occurs in `haystack`.
pub fn contains_str(haystack: &str, needle: &str) -> (r: bool)
    ensures
        r == text_contains(haystack@, needle@),
{
    let h_len = haystack.unicode_len();
    let n_len = needle.unicode_len();
    if n_len > h_len {
        proof {
            assert(forall|k: int| !contains_at(haystack@, needle@, k));
        }
        return false;
    }
    if n_len == 0 {
        proof {
            assert(haystack@.subrange(0, 0) =~= needle@);
            assert(contains_at(haystack@, needle@, 0));
        }
        return true;
    }
    let mut k: usize = 0;
    while k <= h_len - n_len
        invariant
            h_len == haystack@.len(),
            n_len == needle@.len(),
            0 < n_len <= h_len,
            k <= h_len - n_len + 1,
            forall|j: int| 0 <= j < k ==> !contains_at(haystack@, needle@, j),
        decreases h_len - n_len - k + 1,
    {
        let mut i: usize = 0;
        let mut matches = true;
        while i < n_len
            invariant
                h_len == haystack@.len(),
                n_len == needle@.len(),
                n_len <= h_len,
                k + n_len <= h_len,
                i <= n_len,
                matches ==> forall|t: int| 0 <= t < i ==> haystack@[k + t] == needle@[t],
                !matches ==> !contains_at(haystack@, needle@, k as int),
            decreases n_len - i,
        {
            if matches {
                let hc = haystack.get_char(k + i);
                let nc = needle.get_char(i);
                if hc != nc {
                    proof {
                        assert(haystack@.subrange(k as int, k + n_len)[i as int]
                            == haystack@[k + i]);
                    }
                    matches = false;
                }
            }
            i += 1;
        }
        if matches {
            proof {
                assert(haystack@.subrange(k as int, k + n_len) =~= needle@);
                assert(contains_at(haystack@, needle@, k as int));
            }
            return true;
        }
        k += 1;
    }
    proof {
        assert forall|j: int| !contains_at(haystack@, needle@, j) by {
            if 0 <= j && j + needle@.len() <= haystack@.len() {
                assert(j < k);
            }
        }
    }
    false
}

/// The lower-case folding of text; the folding is a function of the
/// characters alone.
pub uninterp spec fn lower_of(s: Seq<char>) -> Seq<char>;

/// Relies on str::to_lowercase: the result depends on the characters alone,
/// and an empty string stays empty.
#[verifier::external_body]
pub fn lowercase(s: &str) -> (r: String)
    ensures
        r@ == lower_of(s@),
        s@.len() == 0 ==> r@.len() == 0,
{
    s.to_lowercase()
}


/// Decides equality of two strings on their characters.
pub fn str_eq(a: &str, b: &str) -> (r: bool)
    ensures
        r == (a@ == b@),
{
    let n = a.unicode_len();
    if n != b.unicode_len() {
        return false;
    }
    let mut i: usize = 0;
    while i < n
        invariant
            n == a@.len() == b@.len(),
            i <= n,
            forall|j: int| 0 <= j < i ==> a@[j] == b@[j],
        decreases n - i,
    {
        if a.get_char(i) != b.get_char(i) {
            return false;
        }
        i += 1;
    }
    proof {
        assert(a@ =~= b@);
    }
    true
}

} // verus!
