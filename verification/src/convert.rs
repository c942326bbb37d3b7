//! Marshalling a dynamically shaped host value into the typed value model.
//!
//! Conversion is a pure recursive function. Three well-known record shapes
//! (calendar date, full timestamp, naive timestamp), recognized by their
//! `__struct__` type tag, become calendar values; any other tagged record is
//! an ordinary mapping with the tag stripped. Every failure carries a path
//! composed outer-to-inner — `[index]` for array elements, `.key` for
//! mapping fields — plus the offending element's resolved type name.

use vstd::prelude::*;

use crate::error::TypstError;
use crate::datetime::{CalendarDate, ClockTime, Datetime, spec_valid_date, spec_valid_time};
use crate::text::{chars_to_string, i64_string, spec_dec, spec_int, string_chars, u64_chars};
use crate::value::{get_term_type_name, spec_term_view, spec_type_name, spec_value_view, HostTerm,
    TermView, Value, ValueView};

verus! {

/// One step of a diagnostic path: an array index or a field name.
#[derive(PartialEq, Debug)]
pub enum PathSeg {
    Index(usize),
    Field(String),
}

/// The mathematical shape of a path step.
pub enum SegView {
    Index(int),
    Field(Seq<char>),
}

impl View for PathSeg {
    type V = SegView;

    open spec fn view(&self) -> SegView {
        match self {
            PathSeg::Index(i) => SegView::Index(*i as int),
            PathSeg::Field(s) => SegView::Field(s@),
        }
    }
}

/// A conversion failure: the path to the offending element, composed
/// outer-to-inner, and a message naming what went wrong there.
#[derive(PartialEq, Debug)]
pub struct ConvError {
    pub path: Vec<PathSeg>,
    pub message: String,
}

/// The mathematical shape of a conversion failure.
pub struct ErrView {
    pub path: Seq<SegView>,
    pub message: Seq<char>,
}

impl View for ConvError {
    type V = ErrView;

    open spec fn view(&self) -> ErrView {
        ErrView { path: Seq::new(self.path@.len(), |i: int| self.path@[i]@), message: self.message@ }
    }
}

/// The rendering of one path step: `[i]` for an index; a field name gains
/// a leading dot unless it opens the path.
pub open spec fn spec_seg(seg: SegView, first: bool) -> Seq<char> {
    match seg {
        SegView::Index(i) => seq!['['] + spec_dec(i) + seq![']'],
        SegView::Field(k) => if first {
            k
        } else {
            seq!['.'] + k
        },
    }
}

/// The rendering of the first `k` path steps.
pub open spec fn spec_path(path: Seq<SegView>, k: int) -> Seq<char>
    decreases k,
{
    if k <= 0 || k > path.len() {
        Seq::empty()
    } else {
        spec_path(path, k - 1) + spec_seg(path[k - 1], k - 1 == 0)
    }
}

/// The full description of a conversion failure: its message, then the
/// rendered path when there is one.
pub open spec fn spec_describe(e: ErrView) -> Seq<char> {
    if e.path.len() == 0 {
        e.message
    } else {
        e.message + " at path '"@ + spec_path(e.path, e.path.len() as int) + "'"@
    }
}

/// A failure one level deeper, seen from the enclosing array or mapping.
pub open spec fn spec_prepend(seg: SegView, e: ErrView) -> ErrView {
    ErrView { path: seq![seg] + e.path, message: e.message }
}

/// The failure for a host value shape that has no typed counterpart.
pub open spec fn spec_unsupported_err(t: TermView) -> ErrView {
    ErrView {
        path: Seq::empty(),
        message: "Unsupported host value type '"@ + spec_type_name(t) + "'"@,
    }
}

/// The failure for a calendar record lacking a required integer field.
pub open spec fn spec_missing_err(kind: Seq<char>, field: Seq<char>) -> ErrView {
    ErrView {
        path: seq![SegView::Field(field)],
        message: kind + " missing "@ + field + " field"@,
    }
}

/// The value of the first pair whose key is `key`, starting at `i`.
pub open spec fn spec_first_key(
    pairs: Seq<(Seq<char>, TermView)>,
    key: Seq<char>,
    i: int,
) -> Option<TermView>
    decreases pairs.len() - i,
{
    if i < 0 || i >= pairs.len() {
        None
    } else if pairs[i].0 == key {
        Some(pairs[i].1)
    } else {
        spec_first_key(pairs, key, i + 1)
    }
}

/// The value of the first pair whose key is `key`.
pub open spec fn spec_lookup_term(
    pairs: Seq<(Seq<char>, TermView)>,
    key: Seq<char>,
) -> Option<TermView> {
    spec_first_key(pairs, key, 0)
}

/// The integer carried by field `key`, when the field is present and holds
/// an integer.
pub open spec fn spec_int_field(
    pairs: Seq<(Seq<char>, TermView)>,
    key: Seq<char>,
) -> Option<i64> {
    match spec_lookup_term(pairs, key) {
        Some(TermView::Int(i)) => Some(i),
        _ => None,
    }
}

/// The record's type tag, when the `__struct__` field holds a name.
pub open spec fn spec_struct_tag(pairs: Seq<(Seq<char>, TermView)>) -> Option<Seq<char>> {
    match spec_lookup_term(pairs, "__struct__"@) {
        Some(TermView::Text(s)) => Some(s),
        Some(TermView::Atom(s)) => Some(s),
        _ => None,
    }
}

/// Conversion of a calendar-date record: requires integer year, month and
/// day fields; the triple is then range-validated, never clamped.
pub open spec fn spec_convert_date(pairs: Seq<(Seq<char>, TermView)>) -> Result<
    ValueView,
    ErrView,
> {
    if spec_int_field(pairs, "year"@) is None {
        Err(spec_missing_err("Date"@, "year"@))
    } else if spec_int_field(pairs, "month"@) is None {
        Err(spec_missing_err("Date"@, "month"@))
    } else if spec_int_field(pairs, "day"@) is None {
        Err(spec_missing_err("Date"@, "day"@))
    } else {
        let y = spec_int_field(pairs, "year"@)->Some_0;
        let m = spec_int_field(pairs, "month"@)->Some_0;
        let d = spec_int_field(pairs, "day"@)->Some_0;
        if spec_valid_date(y as int, m as int, d as int) {
            Ok(
                ValueView::Datetime(
                    Datetime {
                        date: Some(
                            CalendarDate { year: y as i32, month: m as u8, day: d as u8 },
                        ),
                        time: None,
                    },
                ),
            )
        } else {
            Err(
                ErrView {
                    path: Seq::empty(),
                    message: "Invalid date values: year="@ + spec_int(y as int) + ", month="@
                        + spec_int(m as int) + ", day="@ + spec_int(d as int),
                },
            )
        }
    }
}

/// Conversion of a timestamp record: requires integer year, month, day,
/// hour, minute and second fields; every field is range-validated.
pub open spec fn spec_convert_timestamp(pairs: Seq<(Seq<char>, TermView)>) -> Result<
    ValueView,
    ErrView,
> {
    if spec_int_field(pairs, "year"@) is None {
        Err(spec_missing_err("DateTime"@, "year"@))
    } else if spec_int_field(pairs, "month"@) is None {
        Err(spec_missing_err("DateTime"@, "month"@))
    } else if spec_int_field(pairs, "day"@) is None {
        Err(spec_missing_err("DateTime"@, "day"@))
    } else if spec_int_field(pairs, "hour"@) is None {
        Err(spec_missing_err("DateTime"@, "hour"@))
    } else if spec_int_field(pairs, "minute"@) is None {
        Err(spec_missing_err("DateTime"@, "minute"@))
    } else if spec_int_field(pairs, "second"@) is None {
        Err(spec_missing_err("DateTime"@, "second"@))
    } else {
        let y = spec_int_field(pairs, "year"@)->Some_0;
        let m = spec_int_field(pairs, "month"@)->Some_0;
        let d = spec_int_field(pairs, "day"@)->Some_0;
        let h = spec_int_field(pairs, "hour"@)->Some_0;
        let mi = spec_int_field(pairs, "minute"@)->Some_0;
        let s = spec_int_field(pairs, "second"@)->Some_0;
        if spec_valid_date(y as int, m as int, d as int) && spec_valid_time(
            h as int,
            mi as int,
            s as int,
        ) {
            Ok(
                ValueView::Datetime(
                    Datetime {
                        date: Some(
                            CalendarDate { year: y as i32, month: m as u8, day: d as u8 },
                        ),
                        time: Some(
                            ClockTime { hour: h as u8, minute: mi as u8, second: s as u8 },
                        ),
                    },
                ),
            )
        } else {
            Err(ErrView { path: Seq::empty(), message: "Invalid datetime values"@ })
        }
    }
}

/// Conversion of a whole host value.
pub open spec fn spec_convert(t: TermView) -> Result<ValueView, ErrView>
    decreases t, 0int,
{
    match t {
        TermView::Bool(b) => Ok(ValueView::Bool(b)),
        TermView::Int(i) => Ok(ValueView::Int(i)),
        TermView::Float(bits, txt) => Ok(ValueView::Float(bits, txt)),
        TermView::Text(s) => Ok(ValueView::Str(s)),
        TermView::List(items) => match spec_convert_list(items, items.len() as int) {
            Ok(vs) => Ok(ValueView::Array(vs)),
            Err(e) => Err(e),
        },
        TermView::Mapping(pairs) => {
            if spec_struct_tag(pairs) == Some("Elixir.Date"@) {
                spec_convert_date(pairs)
            } else if spec_struct_tag(pairs) == Some("Elixir.DateTime"@) {
                spec_convert_timestamp(pairs)
            } else if spec_struct_tag(pairs) == Some("Elixir.NaiveDateTime"@) {
                spec_convert_timestamp(pairs)
            } else {
                match spec_convert_pairs(pairs, pairs.len() as int) {
                    Ok(ps) => Ok(ValueView::Dict(ps)),
                    Err(e) => Err(e),
                }
            }
        },
        _ => Err(spec_unsupported_err(t)),
    }
}

/// Conversion of the first `k` elements of an array; the first failure
/// wins, annotated with its element index.
pub open spec fn spec_convert_list(items: Seq<TermView>, k: int) -> Result<Seq<ValueView>, ErrView>
    decreases items, k,
{
    if k <= 0 || k > items.len() {
        Ok(Seq::empty())
    } else {
        match spec_convert_list(items, k - 1) {
            Err(e) => Err(e),
            Ok(vs) => match spec_convert(items[k - 1]) {
                Ok(v) => Ok(vs.push(v)),
                Err(e) => Err(spec_prepend(SegView::Index(k - 1), e)),
            },
        }
    }
}

/// Conversion of the first `k` pairs of a mapping, skipping type-tag
/// pairs; the first failure wins, annotated with its field name.
pub open spec fn spec_convert_pairs(pairs: Seq<(Seq<char>, TermView)>, k: int) -> Result<
    Seq<(Seq<char>, ValueView)>,
    ErrView,
>
    decreases pairs, k,
{
    if k <= 0 || k > pairs.len() {
        Ok(Seq::empty())
    } else {
        match spec_convert_pairs(pairs, k - 1) {
            Err(e) => Err(e),
            Ok(vs) => {
                if pairs[k - 1].0 == "__struct__"@ {
                    Ok(vs)
                } else {
                    match spec_convert(pairs[k - 1].1) {
                        Ok(v) => Ok(vs.push((pairs[k - 1].0, v))),
                        Err(e) => Err(spec_prepend(SegView::Field(pairs[k - 1].0), e)),
                    }
                }
            },
        }
    }
}

/// Law: every scalar host value marshals to its own variant, its payload
/// untouched — a boolean is never read as an integer, and 64-bit integers
/// and floats lose no precision (the float's bits and rendered text travel
/// unchanged).
pub proof fn lemma_scalar_round_trip(t: TermView)
    ensures
        t matches TermView::Bool(b) ==> spec_convert(t) == Ok::<ValueView, ErrView>(
            ValueView::Bool(b),
        ),
        t matches TermView::Int(i) ==> spec_convert(t) == Ok::<ValueView, ErrView>(
            ValueView::Int(i),
        ),
        t matches TermView::Float(bits, txt) ==> spec_convert(t) == Ok::<ValueView, ErrView>(
            ValueView::Float(bits, txt),
        ),
        t matches TermView::Text(s) ==> spec_convert(t) == Ok::<ValueView, ErrView>(
            ValueView::Str(s),
        ),
{
}

/// Law: a calendar record missing a required integer field fails, naming
/// exactly the first missing field in declaration order and the record
/// kind, with that field as the failure's path.
pub proof fn lemma_calendar_missing_field(pairs: Seq<(Seq<char>, TermView)>)
    requires
        spec_struct_tag(pairs) == Some("Elixir.Date"@),
    ensures
        spec_int_field(pairs, "year"@) is None ==> spec_convert(TermView::Mapping(pairs))
            == Err::<ValueView, ErrView>(spec_missing_err("Date"@, "year"@)),
        spec_int_field(pairs, "year"@) is Some && spec_int_field(pairs, "month"@) is None
            ==> spec_convert(TermView::Mapping(pairs)) == Err::<ValueView, ErrView>(
            spec_missing_err("Date"@, "month"@),
        ),
        spec_int_field(pairs, "year"@) is Some && spec_int_field(pairs, "month"@) is Some
            && spec_int_field(pairs, "day"@) is None ==> spec_convert(TermView::Mapping(pairs))
            == Err::<ValueView, ErrView>(spec_missing_err("Date"@, "day"@)),
{
}

/// Law: the same, for the two timestamp record kinds, whose required
/// fields extend to hour, minute and second.
pub proof fn lemma_timestamp_missing_field(pairs: Seq<(Seq<char>, TermView)>)
    requires
        spec_struct_tag(pairs) == Some("Elixir.DateTime"@) || spec_struct_tag(pairs) == Some(
            "Elixir.NaiveDateTime"@,
        ),
    ensures
        spec_int_field(pairs, "year"@) is None ==> spec_convert(TermView::Mapping(pairs))
            == Err::<ValueView, ErrView>(spec_missing_err("DateTime"@, "year"@)),
        spec_int_field(pairs, "year"@) is Some && spec_int_field(pairs, "month"@) is None
            ==> spec_convert(TermView::Mapping(pairs)) == Err::<ValueView, ErrView>(
            spec_missing_err("DateTime"@, "month"@),
        ),
        spec_int_field(pairs, "year"@) is Some && spec_int_field(pairs, "month"@) is Some
            && spec_int_field(pairs, "day"@) is None ==> spec_convert(TermView::Mapping(pairs))
            == Err::<ValueView, ErrView>(spec_missing_err("DateTime"@, "day"@)),
        spec_int_field(pairs, "year"@) is Some && spec_int_field(pairs, "month"@) is Some
            && spec_int_field(pairs, "day"@) is Some && spec_int_field(pairs, "hour"@) is None
            ==> spec_convert(TermView::Mapping(pairs)) == Err::<ValueView, ErrView>(
            spec_missing_err("DateTime"@, "hour"@),
        ),
        spec_int_field(pairs, "year"@) is Some && spec_int_field(pairs, "month"@) is Some
            && spec_int_field(pairs, "day"@) is Some && spec_int_field(pairs, "hour"@) is Some
            && spec_int_field(pairs, "minute"@) is None ==> spec_convert(TermView::Mapping(pairs))
            == Err::<ValueView, ErrView>(spec_missing_err("DateTime"@, "minute"@)),
        spec_int_field(pairs, "year"@) is Some && spec_int_field(pairs, "month"@) is Some
            && spec_int_field(pairs, "day"@) is Some && spec_int_field(pairs, "hour"@) is Some
            && spec_int_field(pairs, "minute"@) is Some && spec_int_field(pairs, "second"@)
            is None ==> spec_convert(TermView::Mapping(pairs)) == Err::<ValueView, ErrView>(
            spec_missing_err("DateTime"@, "second"@),
        ),
{
    reveal_strlit("Elixir.Date");
    reveal_strlit("Elixir.DateTime");
    reveal_strlit("Elixir.NaiveDateTime");
    assert("Elixir.Date"@.len() == 11);
    assert("Elixir.DateTime"@.len() == 15);
    assert("Elixir.NaiveDateTime"@.len() == 20);
    assert("Elixir.Date"@ != "Elixir.DateTime"@);
    assert("Elixir.Date"@ != "Elixir.NaiveDateTime"@);
}

/// The element-wise view of a vector of host terms.
pub open spec fn spec_terms_view(ts: Seq<HostTerm>) -> Seq<TermView> {
    Seq::new(ts.len(), |i: int| spec_term_view(ts[i]))
}

/// The element-wise view of a vector of host pairs.
pub open spec fn spec_tpairs_view(ps: Seq<(String, HostTerm)>) -> Seq<(Seq<char>, TermView)> {
    Seq::new(ps.len(), |i: int| (ps[i].0@, spec_term_view(ps[i].1)))
}

/// The element-wise view of a vector of values.
pub open spec fn spec_values_view(vs: Seq<Value>) -> Seq<ValueView> {
    Seq::new(vs.len(), |i: int| spec_value_view(vs[i]))
}

/// The element-wise view of a vector of key/value pairs.
pub open spec fn spec_vpairs_view(ps: Seq<(String, Value)>) -> Seq<(Seq<char>, ValueView)> {
    Seq::new(ps.len(), |i: int| (ps[i].0@, spec_value_view(ps[i].1)))
}

/// Once an array prefix fails, every longer prefix carries the same failure.
proof fn lemma_list_err_stable(items: Seq<TermView>, k: int, n: int)
    requires
        0 < k <= n <= items.len(),
        spec_convert_list(items, k) is Err,
    ensures
        spec_convert_list(items, n) == spec_convert_list(items, k),
    decreases n - k,
{
    if n > k {
        lemma_list_err_stable(items, k, n - 1);
    }
}

/// Once a mapping prefix fails, every longer prefix carries the same failure.
proof fn lemma_pairs_err_stable(pairs: Seq<(Seq<char>, TermView)>, k: int, n: int)
    requires
        0 < k <= n <= pairs.len(),
        spec_convert_pairs(pairs, k) is Err,
    ensures
        spec_convert_pairs(pairs, n) == spec_convert_pairs(pairs, k),
    decreases n - k,
{
    if n > k {
        lemma_pairs_err_stable(pairs, k, n - 1);
    }
}

impl ConvError {
    /// The rendered path to the offending element, such as `[2].year`.
    pub fn path_string(&self) -> (r: String)
        ensures
            r@ == spec_path(self@.path, self@.path.len() as int),
    {
        let mut out: Vec<char> = Vec::new();
        let mut i: usize = 0;
        while i < self.path.len()
            invariant
                i <= self.path@.len(),
                out@ == spec_path(self@.path, i as int),
            decreases self.path@.len() - i,
        {
            match &self.path[i] {
                PathSeg::Index(n) => {
                    out.push('[');
                    let mut cs = u64_chars(*n as u64);
                    out.append(&mut cs);
                    out.push(']');
                },
                PathSeg::Field(k) => {
                    if i > 0 {
                        out.push('.');
                    }
                    let mut cs = string_chars(k.as_str());
                    out.append(&mut cs);
                },
            }
            proof {
                assert(self@.path[i as int] == self.path@[i as int]@);
            }
            i = i + 1;
        }
        chars_to_string(&out)
    }

    /// The full description of the failure: the message, then the rendered
    /// path when there is one.
    pub fn describe(&self) -> (r: String)
        ensures
            r@ == spec_describe(self@),
    {
        if self.path.len() == 0 {
            let mut r = String::new();
            r.append(self.message.as_str());
            r
        } else {
            let mut r = String::new();
            r.append(self.message.as_str());
            r.append(" at path '");
            let p = self.path_string();
            r.append(p.as_str());
            r.append("'");
            r
        }
    }
}

/// A failure one level deeper, seen from the enclosing array or mapping.
fn prepend_seg(seg: PathSeg, e: ConvError) -> (r: ConvError)
    ensures
        r@ == spec_prepend(seg@, e@),
{
    let ghost segv = seg@;
    let ghost ev = e@;
    let ConvError { path, message } = e;
    let mut p: Vec<PathSeg> = Vec::new();
    p.push(seg);
    let mut rest = path;
    p.append(&mut rest);
    let r = ConvError { path: p, message };
    proof {
        assert(r@.path =~= seq![segv] + ev.path);
    }
    r
}

/// The failure for a host value shape that has no typed counterpart.
fn unsupported_error(term: &HostTerm) -> (r: ConvError)
    ensures
        r@ == spec_unsupported_err(term@),
{
    let mut message = "Unsupported host value type '".to_owned();
    message.append(get_term_type_name(term));
    message.append("'");
    let r = ConvError { path: Vec::new(), message };
    proof {
        assert(r@.path =~= Seq::<SegView>::empty());
    }
    r
}

/// The failure for a calendar record lacking a required integer field.
fn missing_field_error(kind: &str, field: &str) -> (r: ConvError)
    ensures
        r@ == spec_missing_err(kind@, field@),
{
    let mut message = kind.to_owned();
    message.append(" missing ");
    message.append(field);
    message.append(" field");
    let mut path: Vec<PathSeg> = Vec::new();
    path.push(PathSeg::Field(field.to_owned()));
    let r = ConvError { path, message };
    proof {
        assert(r@.path =~= seq![SegView::Field(field@)]);
    }
    r
}

/// The value of the first pair whose key is `key`.
#[verifier::loop_isolation(false)]
fn lookup_value<'a>(pairs: &'a Vec<(String, HostTerm)>, key: &str) -> (r: Option<&'a HostTerm>)
    ensures
        (match r {
            Some(t) => spec_lookup_term(spec_tpairs_view(pairs@), key@) == Some(t@),
            None => spec_lookup_term(spec_tpairs_view(pairs@), key@) is None,
        }),
{
    let ghost pv = spec_tpairs_view(pairs@);
    let k = key.to_owned();
    let mut i: usize = 0;
    while i < pairs.len()
        invariant
            i <= pairs@.len(),
            spec_first_key(pv, key@, 0) == spec_first_key(pv, key@, i as int),
        decreases pairs@.len() - i,
    {
        if pairs[i].0 == k {
            proof {
                assert(pv[i as int].0 == key@);
                assert(pv[i as int].1 == spec_term_view(pairs@[i as int].1));
            }
            return Some(&pairs[i].1);
        }
        proof {
            assert(pv[i as int].0 != key@);
        }
        i = i + 1;
    }
    None
}

/// The integer carried by field `key`, when present and integer-valued.
fn int_field(pairs: &Vec<(String, HostTerm)>, key: &str) -> (r: Option<i64>)
    ensures
        r == spec_int_field(spec_tpairs_view(pairs@), key@),
{
    match lookup_value(pairs, key) {
        Some(t) => match t {
            HostTerm::Int(v) => Some(*v),
            _ => None,
        },
        None => None,
    }
}

/// The record's type tag, when the `__struct__` field holds a name.
fn struct_tag(pairs: &Vec<(String, HostTerm)>) -> (r: Option<String>)
    ensures
        (match r {
            Some(s) => spec_struct_tag(spec_tpairs_view(pairs@)) == Some(s@),
            None => spec_struct_tag(spec_tpairs_view(pairs@)) is None,
        }),
{
    match lookup_value(pairs, "__struct__") {
        Some(t) => match t {
            HostTerm::Text(s) => Some(s.clone()),
            HostTerm::Atom(s) => Some(s.clone()),
            _ => None,
        },
        None => None,
    }
}

/// Conversion of a calendar-date record.
fn convert_date_record(pairs: &Vec<(String, HostTerm)>) -> (r: Result<Value, ConvError>)
    ensures
        (match r {
            Ok(v) => spec_convert_date(spec_tpairs_view(pairs@)) == Ok::<ValueView, ErrView>(v@),
            Err(e) => spec_convert_date(spec_tpairs_view(pairs@)) == Err::<ValueView, ErrView>(e@),
        }),
{
    let y = match int_field(pairs, "year") {
        Some(v) => v,
        None => {
            return Err(missing_field_error("Date", "year"));
        },
    };
    let m = match int_field(pairs, "month") {
        Some(v) => v,
        None => {
            return Err(missing_field_error("Date", "month"));
        },
    };
    let d = match int_field(pairs, "day") {
        Some(v) => v,
        None => {
            return Err(missing_field_error("Date", "day"));
        },
    };
    match Datetime::from_ymd(y, m, d) {
        Some(dt) => Ok(Value::Datetime(dt)),
        None => {
            let mut message = "Invalid date values: year=".to_owned();
            let ys = i64_string(y);
            message.append(ys.as_str());
            message.append(", month=");
            let ms = i64_string(m);
            message.append(ms.as_str());
            message.append(", day=");
            let ds = i64_string(d);
            message.append(ds.as_str());
            let r = ConvError { path: Vec::new(), message };
            proof {
                assert(r@.path =~= Seq::<SegView>::empty());
            }
            Err(r)
        },
    }
}

/// Conversion of a timestamp record (full or naive; identical field set).
fn convert_timestamp_record(pairs: &Vec<(String, HostTerm)>) -> (r: Result<Value, ConvError>)
    ensures
        (match r {
            Ok(v) => spec_convert_timestamp(spec_tpairs_view(pairs@)) == Ok::<ValueView, ErrView>(
                v@,
            ),
            Err(e) => spec_convert_timestamp(spec_tpairs_view(pairs@)) == Err::<
                ValueView,
                ErrView,
            >(e@),
        }),
{
    let y = match int_field(pairs, "year") {
        Some(v) => v,
        None => {
            return Err(missing_field_error("DateTime", "year"));
        },
    };
    let m = match int_field(pairs, "month") {
        Some(v) => v,
        None => {
            return Err(missing_field_error("DateTime", "month"));
        },
    };
    let d = match int_field(pairs, "day") {
        Some(v) => v,
        None => {
            return Err(missing_field_error("DateTime", "day"));
        },
    };
    let h = match int_field(pairs, "hour") {
        Some(v) => v,
        None => {
            return Err(missing_field_error("DateTime", "hour"));
        },
    };
    let mi = match int_field(pairs, "minute") {
        Some(v) => v,
        None => {
            return Err(missing_field_error("DateTime", "minute"));
        },
    };
    let sec = match int_field(pairs, "second") {
        Some(v) => v,
        None => {
            return Err(missing_field_error("DateTime", "second"));
        },
    };
    match Datetime::from_ymd_hms(y, m, d, h, mi, sec) {
        Some(dt) => Ok(Value::Datetime(dt)),
        None => {
            let r = ConvError { path: Vec::new(), message: "Invalid datetime values".to_owned() };
            proof {
                assert(r@.path =~= Seq::<SegView>::empty());
            }
            Err(r)
        },
    }
}

/// Converts a host value into the typed value model, or fails with a
/// path-annotated diagnostic. The conversion neither mutates nor retains
/// the host value: the result is an independent owned tree.
#[verifier::loop_isolation(false)]
pub fn term_to_value(term: &HostTerm) -> (r: Result<Value, ConvError>)
    ensures
        (match r {
            Ok(v) => spec_convert(term@) == Ok::<ValueView, ErrView>(v@),
            Err(e) => spec_convert(term@) == Err::<ValueView, ErrView>(e@),
        }),
    decreases *term,
{
    match term {
        HostTerm::Bool(b) => Ok(Value::Bool(*b)),
        HostTerm::Int(i) => Ok(Value::Int(*i)),
        HostTerm::Float(bits, txt) => Ok(Value::Float(*bits, txt.clone())),
        HostTerm::Text(s) => Ok(Value::Str(s.clone())),
        HostTerm::List(items) => {
            let ghost iv = term@->List_0;
            proof {
                assert(iv =~= spec_terms_view(items@));
            }
            let mut out: Vec<Value> = Vec::new();
            proof {
                assert(spec_values_view(out@) =~= Seq::<ValueView>::empty());
            }
            let mut i: usize = 0;
            while i < items.len()
                invariant
                    i <= items@.len(),
                    out@.len() == i,
                    spec_convert_list(iv, i as int) == Ok::<Seq<ValueView>, ErrView>(
                        spec_values_view(out@),
                    ),
                decreases items@.len() - i,
            {
                proof {
                    assert(decreases_to!(*term => (*term)->List_0));
                    assert((*term)->List_0 == *items);
                    assert(decreases_to!(*items => (*items)[i as int]));
                    assert(decreases_to!(*term => (*items)[i as int]));
                }
                let ghost prev = out@;
                match term_to_value(&items[i]) {
                    Ok(v) => {
                        out.push(v);
                        proof {
                            assert(iv[i as int] == items@[i as int]@);
                            assert(spec_values_view(out@) =~= spec_values_view(prev).push(
                                spec_value_view(out@[i as int]),
                            ));
                        }
                    },
                    Err(e) => {
                        let r = prepend_seg(PathSeg::Index(i), e);
                        proof {
                            assert(iv[i as int] == items@[i as int]@);
                            assert(spec_convert_list(iv, i + 1 as int) == Err::<
                                Seq<ValueView>,
                                ErrView,
                            >(r@));
                            lemma_list_err_stable(iv, i + 1 as int, iv.len() as int);
                        }
                        return Err(r);
                    },
                }
                i = i + 1;
            }
            let result = Value::Array(out);
            proof {
                assert(spec_value_view(result)->Array_0 =~= spec_values_view(result->Array_0@));
            }
            Ok(result)
        },
        HostTerm::Mapping(pairs) => {
            let ghost pv = term@->Mapping_0;
            proof {
                assert(pv =~= spec_tpairs_view(pairs@));
            }
            let tag = struct_tag(pairs);
            let is_date: bool;
            let is_timestamp: bool;
            match &tag {
                Some(s) => {
                    let date_tag = "Elixir.Date".to_owned();
                    let dt_tag = "Elixir.DateTime".to_owned();
                    let naive_tag = "Elixir.NaiveDateTime".to_owned();
                    is_date = *s == date_tag;
                    is_timestamp = *s == dt_tag || *s == naive_tag;
                },
                None => {
                    is_date = false;
                    is_timestamp = false;
                },
            }
            if is_date {
                convert_date_record(pairs)
            } else if is_timestamp {
                convert_timestamp_record(pairs)
            } else {
                proof {
                    assert(spec_struct_tag(pv) != Some("Elixir.Date"@));
                    assert(spec_struct_tag(pv) != Some("Elixir.DateTime"@));
                    assert(spec_struct_tag(pv) != Some("Elixir.NaiveDateTime"@));
                }
                let tag_key = "__struct__".to_owned();
                let mut out: Vec<(String, Value)> = Vec::new();
                proof {
                    assert(spec_vpairs_view(out@) =~= Seq::<(Seq<char>, ValueView)>::empty());
                }
                let mut i: usize = 0;
                while i < pairs.len()
                    invariant
                        i <= pairs@.len(),
                        spec_convert_pairs(pv, i as int) == Ok::<
                            Seq<(Seq<char>, ValueView)>,
                            ErrView,
                        >(spec_vpairs_view(out@)),
                    decreases pairs@.len() - i,
                {
                    let ghost prev = out@;
                    if pairs[i].0 == tag_key {
                        proof {
                            assert(pv[i as int].0 == "__struct__"@);
                        }
                    } else {
                        proof {
                            assert(decreases_to!(*term => (*term)->Mapping_0));
                            assert((*term)->Mapping_0 == *pairs);
                            assert(decreases_to!(*pairs => (*pairs)[i as int]));
                            assert(decreases_to!((*pairs)[i as int] => (*pairs)[i as int].1));
                            assert(decreases_to!(*term => (*pairs)[i as int].1));
                        }
                        match term_to_value(&pairs[i].1) {
                            Ok(v) => {
                                let key = pairs[i].0.clone();
                                out.push((key, v));
                                proof {
                                    assert(pv[i as int].1 == pairs@[i as int].1@);
                                    assert(spec_vpairs_view(out@) =~= spec_vpairs_view(prev).push(
                                        (out@[out@.len() - 1].0@, spec_value_view(
                                            out@[out@.len() - 1].1,
                                        )),
                                    ));
                                }
                            },
                            Err(e) => {
                                let r = prepend_seg(PathSeg::Field(pairs[i].0.clone()), e);
                                proof {
                                    assert(pv[i as int].1 == pairs@[i as int].1@);
                                    assert(spec_convert_pairs(pv, i + 1 as int) == Err::<
                                        Seq<(Seq<char>, ValueView)>,
                                        ErrView,
                                    >(r@));
                                    lemma_pairs_err_stable(pv, i + 1 as int, pv.len() as int);
                                }
                                return Err(r);
                            },
                        }
                    }
                    i = i + 1;
                }
                let result = Value::Dict(out);
                proof {
                    assert(spec_value_view(result)->Dict_0 =~= spec_vpairs_view(result->Dict_0@));
                }
                Ok(result)
            }
        },
        HostTerm::Atom(_) => Err(unsupported_error(term)),
        HostTerm::Pid => Err(unsupported_error(term)),
        HostTerm::Reference => Err(unsupported_error(term)),
        HostTerm::Tuple => Err(unsupported_error(term)),
        HostTerm::Function => Err(unsupported_error(term)),
        HostTerm::Unknown => Err(unsupported_error(term)),
    }
}

/// Conversion of the first `k` variables of the top-level bundle; the
/// first failure wins, described with the variable's name opening the path.
pub open spec fn spec_convert_vars(pairs: Seq<(Seq<char>, TermView)>, k: int) -> Result<
    Seq<(Seq<char>, ValueView)>,
    Seq<char>,
>
    decreases pairs, k,
{
    if k <= 0 || k > pairs.len() {
        Ok(Seq::empty())
    } else {
        match spec_convert_vars(pairs, k - 1) {
            Err(m) => Err(m),
            Ok(vs) => match spec_convert(pairs[k - 1].1) {
                Ok(v) => Ok(vs.push((pairs[k - 1].0, v))),
                Err(e) => Err(spec_describe(spec_prepend(SegView::Field(pairs[k - 1].0), e))),
            },
        }
    }
}

/// Conversion of the whole variables bundle: the outermost value must be a
/// mapping; anything else is rejected before any per-variable work.
pub open spec fn spec_vars_dict(t: TermView) -> Result<Seq<(Seq<char>, ValueView)>, Seq<char>> {
    match t {
        TermView::Mapping(pairs) => spec_convert_vars(pairs, pairs.len() as int),
        _ => Err("Expected a map for variables"@),
    }
}

/// Once a variable fails, every longer prefix carries the same failure.
proof fn lemma_vars_err_stable(pairs: Seq<(Seq<char>, TermView)>, k: int, n: int)
    requires
        0 < k <= n <= pairs.len(),
        spec_convert_vars(pairs, k) is Err,
    ensures
        spec_convert_vars(pairs, n) == spec_convert_vars(pairs, k),
    decreases n - k,
{
    if n > k {
        lemma_vars_err_stable(pairs, k, n - 1);
    }
}

/// Converts the top-level variables bundle into an ordered dictionary.
/// A non-mapping input, or any failing variable, is an invalid-input error
/// whose message describes the failure and its path.
#[verifier::loop_isolation(false)]
pub fn terms_to_dict(term: &HostTerm) -> (r: Result<Vec<(String, Value)>, TypstError>)
    ensures
        (match r {
            Ok(d) => spec_vars_dict(term@) == Ok::<Seq<(Seq<char>, ValueView)>, Seq<char>>(
                spec_vpairs_view(d@),
            ),
            Err(e) => ({
                &&& e matches TypstError::InvalidInput(m)
                &&& spec_vars_dict(term@) == Err::<Seq<(Seq<char>, ValueView)>, Seq<char>>(
                    e.spec_message(),
                )
            }),
        }),
{
    match term {
        HostTerm::Mapping(pairs) => {
            let ghost pv = term@->Mapping_0;
            proof {
                assert(pv =~= spec_tpairs_view(pairs@));
            }
            let mut out: Vec<(String, Value)> = Vec::new();
            proof {
                assert(spec_vpairs_view(out@) =~= Seq::<(Seq<char>, ValueView)>::empty());
            }
            let mut i: usize = 0;
            while i < pairs.len()
                invariant
                    i <= pairs@.len(),
                    spec_convert_vars(pv, i as int) == Ok::<
                        Seq<(Seq<char>, ValueView)>,
                        Seq<char>,
                    >(spec_vpairs_view(out@)),
                decreases pairs@.len() - i,
            {
                let ghost prev = out@;
                proof {
                    assert(decreases_to!(*term => (*term)->Mapping_0));
                    assert((*term)->Mapping_0 == *pairs);
                    assert(decreases_to!(*pairs => (*pairs)[i as int]));
                    assert(decreases_to!((*pairs)[i as int] => (*pairs)[i as int].1));
                    assert(decreases_to!(*term => (*pairs)[i as int].1));
                }
                match term_to_value(&pairs[i].1) {
                    Ok(v) => {
                        let key = pairs[i].0.clone();
                        out.push((key, v));
                        proof {
                            assert(pv[i as int].1 == pairs@[i as int].1@);
                            assert(spec_vpairs_view(out@) =~= spec_vpairs_view(prev).push(
                                (out@[out@.len() - 1].0@, spec_value_view(out@[out@.len() - 1].1)),
                            ));
                        }
                    },
                    Err(e) => {
                        let annotated = prepend_seg(PathSeg::Field(pairs[i].0.clone()), e);
                        let message = annotated.describe();
                        proof {
                            assert(pv[i as int].1 == pairs@[i as int].1@);
                            assert(spec_convert_vars(pv, i + 1 as int) == Err::<
                                Seq<(Seq<char>, ValueView)>,
                                Seq<char>,
                            >(message@));
                            lemma_vars_err_stable(pv, i + 1 as int, pv.len() as int);
                        }
                        return Err(TypstError::InvalidInput(message));
                    },
                }
                i = i + 1;
            }
            Ok(out)
        },
        _ => Err(TypstError::InvalidInput("Expected a map for variables".to_owned())),
    }
}

} // verus!
