//! The typed value model and the host-side dynamic value model.
//!
//! `Value` is the closed tagged union the marshaller produces and the
//! renderer consumes. `HostTerm` is what the host boundary hands the
//! marshaller: the shape of a dynamically typed host value, already read
//! into plain data. Floating-point numbers travel as their IEEE 754 bit
//! pattern together with the canonical decimal text the host boundary
//! rendered for them, so nothing of their precision is lost.

use vstd::prelude::*;

use crate::datetime::Datetime;

verus! {

/// The engine-facing typed value.
#[derive(PartialEq, Debug)]
pub enum Value {
    /// The absence marker (rendered as the `none` literal).
    Absent,
    /// The auto marker (rendered as the `auto` literal).
    Auto,
    Bool(bool),
    Int(i64),
    /// IEEE 754 bits of a 64-bit float, with its canonical decimal text.
    Float(u64, String),
    Str(String),
    Array(Vec<Value>),
    /// Ordered-insertion mapping with unique string keys.
    Dict(Vec<(String, Value)>),
    Datetime(Datetime),
}

/// The mathematical shape of a `Value`.
pub enum ValueView {
    Absent,
    Auto,
    Bool(bool),
    Int(i64),
    Float(u64, Seq<char>),
    Str(Seq<char>),
    Array(Seq<ValueView>),
    Dict(Seq<(Seq<char>, ValueView)>),
    Datetime(Datetime),
}

pub open spec fn spec_value_view(v: Value) -> ValueView
    decreases v,
{
    match v {
        Value::Absent => ValueView::Absent,
        Value::Auto => ValueView::Auto,
        Value::Bool(b) => ValueView::Bool(b),
        Value::Int(i) => ValueView::Int(i),
        Value::Float(bits, txt) => ValueView::Float(bits, txt@),
        Value::Str(s) => ValueView::Str(s@),
        Value::Array(items) => ValueView::Array(
            Seq::new(
                items@.len(),
                |i: int|
                    if 0 <= i < items@.len() {
                        spec_value_view(items[i])
                    } else {
                        ValueView::Absent
                    },
            ),
        ),
        Value::Dict(pairs) => ValueView::Dict(
            Seq::new(
                pairs@.len(),
                |i: int|
                    if 0 <= i < pairs@.len() {
                        (pairs[i].0@, spec_value_view(pairs[i].1))
                    } else {
                        (Seq::empty(), ValueView::Absent)
                    },
            ),
        ),
        Value::Datetime(d) => ValueView::Datetime(d),
    }
}

impl View for Value {
    type V = ValueView;

    open spec fn view(&self) -> ValueView {
        spec_value_view(*self)
    }
}

/// A dynamically shaped host value, read into plain data at the host
/// boundary. The shapes that cannot be converted only carry enough to name
/// their type in a diagnostic.
#[derive(PartialEq, Debug)]
pub enum HostTerm {
    Bool(bool),
    Int(i64),
    /// IEEE 754 bits of a 64-bit float, with its canonical decimal text.
    Float(u64, String),
    Text(String),
    List(Vec<HostTerm>),
    /// A keyed map in its host iteration order.
    Mapping(Vec<(String, HostTerm)>),
    /// An atom that is neither a boolean nor a number.
    Atom(String),
    Pid,
    Reference,
    Tuple,
    Function,
    Unknown,
}

/// The mathematical shape of a `HostTerm`.
pub enum TermView {
    Bool(bool),
    Int(i64),
    Float(u64, Seq<char>),
    Text(Seq<char>),
    List(Seq<TermView>),
    Mapping(Seq<(Seq<char>, TermView)>),
    Atom(Seq<char>),
    Pid,
    Reference,
    Tuple,
    Function,
    Unknown,
}

pub open spec fn spec_term_view(t: HostTerm) -> TermView
    decreases t,
{
    match t {
        HostTerm::Bool(b) => TermView::Bool(b),
        HostTerm::Int(i) => TermView::Int(i),
        HostTerm::Float(bits, txt) => TermView::Float(bits, txt@),
        HostTerm::Text(s) => TermView::Text(s@),
        HostTerm::List(items) => TermView::List(
            Seq::new(
                items@.len(),
                |i: int|
                    if 0 <= i < items@.len() {
                        spec_term_view(items[i])
                    } else {
                        TermView::Unknown
                    },
            ),
        ),
        HostTerm::Mapping(pairs) => TermView::Mapping(
            Seq::new(
                pairs@.len(),
                |i: int|
                    if 0 <= i < pairs@.len() {
                        (pairs[i].0@, spec_term_view(pairs[i].1))
                    } else {
                        (Seq::empty(), TermView::Unknown)
                    },
            ),
        ),
        HostTerm::Atom(s) => TermView::Atom(s@),
        HostTerm::Pid => TermView::Pid,
        HostTerm::Reference => TermView::Reference,
        HostTerm::Tuple => TermView::Tuple,
        HostTerm::Function => TermView::Function,
        HostTerm::Unknown => TermView::Unknown,
    }
}

impl View for HostTerm {
    type V = TermView;

    open spec fn view(&self) -> TermView {
        spec_term_view(*self)
    }
}

/// The human-readable name of a host value's type, used in diagnostics.
pub open spec fn spec_type_name(t: TermView) -> Seq<char> {
    match t {
        TermView::Bool(_) => "atom"@,
        TermView::Int(_) => "integer"@,
        TermView::Float(_, _) => "float"@,
        TermView::Text(_) => "binary"@,
        TermView::List(_) => "list"@,
        TermView::Mapping(_) => "map"@,
        TermView::Atom(_) => "atom"@,
        TermView::Pid => "pid"@,
        TermView::Reference => "reference"@,
        TermView::Tuple => "tuple"@,
        TermView::Function => "function"@,
        TermView::Unknown => "unknown"@,
    }
}

/// The human-readable name of a host value's type.
pub fn get_term_type_name(term: &HostTerm) -> (r: &'static str)
    ensures
        r@ == spec_type_name(term@),
{
    match term {
        HostTerm::Bool(_) => "atom",
        HostTerm::Int(_) => "integer",
        HostTerm::Float(_, _) => "float",
        HostTerm::Text(_) => "binary",
        HostTerm::List(_) => "list",
        HostTerm::Mapping(_) => "map",
        HostTerm::Atom(_) => "atom",
        HostTerm::Pid => "pid",
        HostTerm::Reference => "reference",
        HostTerm::Tuple => "tuple",
        HostTerm::Function => "function",
        HostTerm::Unknown => "unknown",
    }
}

} // verus!
