//! Rendering a `Value` as source-code literal text: a deterministic, total
//! function. Strings are double-quoted with quotes escaped; dictionary keys
//! are always double-quoted (a bare key such as `2025-01` would be lexically
//! ambiguous or could shadow a built-in identifier), with backslashes and
//! quotes escaped; calendar values render as a constructor call naming only
//! the present fields.

use vstd::prelude::*;

use crate::datetime::Datetime;
use crate::text::{
    chars_to_string, escape_key_chars, escape_quotes_chars, i64_chars, spec_dec, spec_escape_key,
    spec_escape_quotes, spec_int, string_chars, u64_chars,
};
use crate::value::{Value, ValueView};

verus! {

/// The rendering of a calendar value: a constructor call naming only the
/// present fields; an all-absent value falls back to the `none` literal.
pub open spec fn spec_datetime_repr(d: Datetime) -> Seq<char> {
    match (d.date, d.time) {
        (Some(dd), Some(t)) => "datetime(year: "@ + spec_int(dd.year as int) + ", month: "@
            + spec_dec(dd.month as int) + ", day: "@ + spec_dec(dd.day as int) + ", hour: "@
            + spec_dec(t.hour as int) + ", minute: "@ + spec_dec(t.minute as int) + ", second: "@
            + spec_dec(t.second as int) + ")"@,
        (Some(dd), None) => "datetime(year: "@ + spec_int(dd.year as int) + ", month: "@
            + spec_dec(dd.month as int) + ", day: "@ + spec_dec(dd.day as int) + ")"@,
        (None, Some(t)) => "datetime(hour: "@ + spec_dec(t.hour as int) + ", minute: "@ + spec_dec(
            t.minute as int,
        ) + ", second: "@ + spec_dec(t.second as int) + ")"@,
        (None, None) => "none"@,
    }
}

/// The source-literal rendering of a value.
pub open spec fn spec_repr(v: ValueView) -> Seq<char>
    decreases v, 0int,
{
    match v {
        ValueView::Absent => "none"@,
        ValueView::Auto => "auto"@,
        ValueView::Bool(b) => if b {
            "true"@
        } else {
            "false"@
        },
        ValueView::Int(i) => spec_int(i as int),
        ValueView::Float(_bits, txt) => txt,
        ValueView::Str(s) => seq!['"'] + spec_escape_quotes(s) + seq!['"'],
        ValueView::Array(items) => seq!['('] + spec_repr_list(items, items.len() as int) + seq![
            ')',
        ],
        ValueView::Dict(pairs) => seq!['('] + spec_repr_pairs(pairs, pairs.len() as int) + seq![
            ')',
        ],
        ValueView::Datetime(d) => spec_datetime_repr(d),
    }
}

/// The renderings of the first `k` elements, joined with a comma and space.
pub open spec fn spec_repr_list(items: Seq<ValueView>, k: int) -> Seq<char>
    decreases items, k,
{
    if k <= 0 || k > items.len() {
        Seq::empty()
    } else if k == 1 {
        spec_repr(items[0])
    } else {
        spec_repr_list(items, k - 1) + ", "@ + spec_repr(items[k - 1])
    }
}

/// The rendering of one key/value pair: the key always double-quoted and
/// escaped, then a colon and space, then the value's rendering.
pub open spec fn spec_pair_repr(pairs: Seq<(Seq<char>, ValueView)>, j: int) -> Seq<char>
    decreases pairs, 0int,
{
    if 0 <= j < pairs.len() {
        seq!['"'] + spec_escape_key(pairs[j].0) + "\": "@ + spec_repr(pairs[j].1)
    } else {
        Seq::empty()
    }
}

/// The renderings of the first `k` pairs, joined with a comma and space.
pub open spec fn spec_repr_pairs(pairs: Seq<(Seq<char>, ValueView)>, k: int) -> Seq<char>
    decreases pairs, k,
{
    if k <= 0 || k > pairs.len() {
        Seq::empty()
    } else if k == 1 {
        spec_pair_repr(pairs, 0)
    } else {
        spec_repr_pairs(pairs, k - 1) + ", "@ + spec_pair_repr(pairs, k - 1)
    }
}

/// Law: a dictionary pair always renders its key inside double quotes, with
/// backslashes and double quotes escaped, followed by a colon and a space
/// and the value's rendering — never as a bare token.
pub proof fn lemma_dict_key_quoted(pairs: Seq<(Seq<char>, ValueView)>, j: int)
    requires
        0 <= j < pairs.len(),
    ensures
        spec_pair_repr(pairs, j) == seq!['"'] + spec_escape_key(pairs[j].0) + "\": "@ + spec_repr(
            pairs[j].1,
        ),
        spec_pair_repr(pairs, j)[0] == '"',
{
    assert(spec_pair_repr(pairs, j)[0] == '"');
}

fn append_str(out: &mut Vec<char>, s: &str)
    ensures
        final(out)@ == old(out)@ + s@,
{
    let mut cs = string_chars(s);
    out.append(&mut cs);
}

fn append_datetime(out: &mut Vec<char>, d: &Datetime)
    ensures
        final(out)@ == old(out)@ + spec_datetime_repr(*d),
{
    match (&d.date, &d.time) {
        (Some(dd), Some(t)) => {
            append_str(out, "datetime(year: ");
            let mut cs = i64_chars(dd.year as i64);
            out.append(&mut cs);
            append_str(out, ", month: ");
            let mut cs = u64_chars(dd.month as u64);
            out.append(&mut cs);
            append_str(out, ", day: ");
            let mut cs = u64_chars(dd.day as u64);
            out.append(&mut cs);
            append_str(out, ", hour: ");
            let mut cs = u64_chars(t.hour as u64);
            out.append(&mut cs);
            append_str(out, ", minute: ");
            let mut cs = u64_chars(t.minute as u64);
            out.append(&mut cs);
            append_str(out, ", second: ");
            let mut cs = u64_chars(t.second as u64);
            out.append(&mut cs);
            append_str(out, ")");
        },
        (Some(dd), None) => {
            append_str(out, "datetime(year: ");
            let mut cs = i64_chars(dd.year as i64);
            out.append(&mut cs);
            append_str(out, ", month: ");
            let mut cs = u64_chars(dd.month as u64);
            out.append(&mut cs);
            append_str(out, ", day: ");
            let mut cs = u64_chars(dd.day as u64);
            out.append(&mut cs);
            append_str(out, ")");
        },
        (None, Some(t)) => {
            append_str(out, "datetime(hour: ");
            let mut cs = u64_chars(t.hour as u64);
            out.append(&mut cs);
            append_str(out, ", minute: ");
            let mut cs = u64_chars(t.minute as u64);
            out.append(&mut cs);
            append_str(out, ", second: ");
            let mut cs = u64_chars(t.second as u64);
            out.append(&mut cs);
            append_str(out, ")");
        },
        (None, None) => {
            append_str(out, "none");
        },
    }
}

#[verifier::loop_isolation(false)]
fn repr_chars(value: &Value) -> (r: Vec<char>)
    ensures
        r@ == spec_repr(value@),
    decreases *value,
{
    match value {
        Value::Absent => string_chars("none"),
        Value::Auto => string_chars("auto"),
        Value::Bool(b) => {
            if *b {
                string_chars("true")
            } else {
                string_chars("false")
            }
        },
        Value::Int(i) => i64_chars(*i),
        Value::Float(_bits, txt) => string_chars(txt.as_str()),
        Value::Str(s) => {
            let mut out: Vec<char> = Vec::new();
            out.push('"');
            let cs = string_chars(s.as_str());
            let mut esc = escape_quotes_chars(&cs);
            out.append(&mut esc);
            out.push('"');
            out
        },
        Value::Array(items) => {
            let ghost iv = value@->Array_0;
            let mut out: Vec<char> = Vec::new();
            out.push('(');
            let mut i: usize = 0;
            while i < items.len()
                invariant
                    i <= items@.len(),
                    iv.len() == items@.len(),
                    forall|j: int| 0 <= j < items@.len() ==> iv[j] == items@[j]@,
                    out@ == seq!['('] + spec_repr_list(iv, i as int),
                decreases items@.len() - i,
            {
                if i > 0 {
                    append_str(&mut out, ", ");
                }
                proof {
                    assert(decreases_to!(*value => (*value)->Array_0));
                    assert((*value)->Array_0 == *items);
                    assert(decreases_to!(*items => (*items)[i as int]));
                    assert(decreases_to!(*value => (*items)[i as int]));
                }
                let mut cs = repr_chars(&items[i]);
                out.append(&mut cs);
                i = i + 1;
            }
            out.push(')');
            out
        },
        Value::Dict(pairs) => {
            let ghost pv = value@->Dict_0;
            let mut out: Vec<char> = Vec::new();
            out.push('(');
            let mut i: usize = 0;
            while i < pairs.len()
                invariant
                    i <= pairs@.len(),
                    pv.len() == pairs@.len(),
                    forall|j: int|
                        0 <= j < pairs@.len() ==> pv[j] == (pairs@[j].0@, pairs@[j].1@),
                    out@ == seq!['('] + spec_repr_pairs(pv, i as int),
                decreases pairs@.len() - i,
            {
                let ghost prev = out@;
                if i > 0 {
                    append_str(&mut out, ", ");
                }
                out.push('"');
                let kcs = string_chars(pairs[i].0.as_str());
                let mut esc = escape_key_chars(&kcs);
                out.append(&mut esc);
                append_str(&mut out, "\": ");
                proof {
                    assert(decreases_to!(*value => (*value)->Dict_0));
                    assert((*value)->Dict_0 == *pairs);
                    assert(decreases_to!(*pairs => (*pairs)[i as int]));
                    assert(decreases_to!((*pairs)[i as int] => (*pairs)[i as int].1));
                    assert(decreases_to!(*value => (*pairs)[i as int].1));
                }
                let mut cs = repr_chars(&pairs[i].1);
                out.append(&mut cs);
                proof {
                    let j = i as int;
                    assert(pv[j].0 == pairs@[j].0@);
                    assert(pv[j].1 == pairs@[j].1@);
                    if j == 0 {
                        assert(out@ =~= seq!['('] + spec_pair_repr(pv, 0));
                        assert(spec_repr_pairs(pv, 1) == spec_pair_repr(pv, 0));
                    } else {
                        assert(out@ =~= prev + ", "@ + spec_pair_repr(pv, j));
                        assert(out@ =~= seq!['('] + (spec_repr_pairs(pv, j) + ", "@
                            + spec_pair_repr(pv, j)));
                    }
                }
                i = i + 1;
            }
            out.push(')');
            out
        },
        Value::Datetime(d) => {
            let mut out: Vec<char> = Vec::new();
            append_datetime(&mut out, d);
            out
        },
    }
}

/// The source-literal rendering of a value, as text to inject into the
/// assembled compilation unit.
pub fn value_to_typst_repr(value: &Value) -> (r: String)
    ensures
        r@ == spec_repr(value@),
{
    let chars = repr_chars(value);
    chars_to_string(&chars)
}

} // verus!
