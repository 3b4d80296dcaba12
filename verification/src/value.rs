//! Typed property values and their declared data types.
//!
//! A property value carries the parsed payload of a value or target message.
//! Values whose native representation the verifier cannot reason about are
//! held as plain data: a float as its IEEE-754 bit pattern, a color, or a
//! JSON document as its canonical text, a date or duration as milliseconds.
use vstd::prelude::*;

verus! {

/// The data types a property can declare for its values.
#[derive(Clone, Copy, PartialEq, Eq, Structural, Debug)]
pub enum HomieDataType {
    Integer,
    Float,
    Boolean,
    String,
    Enum,
    Color,
    Datetime,
    Duration,
    JSON,
}

/// Spec-level shape of a property value.
pub enum ValueView {
    Empty,
    Str(Seq<char>),
    Int(i64),
    FloatBits(u64),
    Bool(bool),
    EnumStr(Seq<char>),
    Color(Seq<char>),
    DateTime(i64),
    Duration(i64),
    Json(Seq<char>),
}

/// A parsed property value, semantically typed per the property's declared
/// data type.
#[derive(Debug)]
pub enum HomieValue {
    /// An empty value, the state before anything was received.
    Empty,
    /// A string payload.
    String(String),
    /// A 64-bit signed integer.
    Integer(i64),
    /// A float, held as its IEEE-754 bit pattern.
    Float(u64),
    /// A boolean.
    Bool(bool),
    /// One value out of the enumeration the property's format declares.
    Enum(String),
    /// A color in its canonical text form (`rgb,..`, `hsv,..` or `xyz,..`).
    Color(String),
    /// A point in time as milliseconds since the Unix epoch.
    DateTime(i64),
    /// A duration as milliseconds.
    Duration(i64),
    /// A JSON object or array in its canonical text form.
    JSON(String),
}

impl View for HomieValue {
    type V = ValueView;

    open spec fn view(&self) -> ValueView {
        match self {
            HomieValue::Empty => ValueView::Empty,
            HomieValue::String(s) => ValueView::Str(s@),
            HomieValue::Integer(i) => ValueView::Int(*i),
            HomieValue::Float(b) => ValueView::FloatBits(*b),
            HomieValue::Bool(b) => ValueView::Bool(*b),
            HomieValue::Enum(s) => ValueView::EnumStr(s@),
            HomieValue::Color(s) => ValueView::Color(s@),
            HomieValue::DateTime(t) => ValueView::DateTime(*t),
            HomieValue::Duration(d) => ValueView::Duration(*d),
            HomieValue::JSON(s) => ValueView::Json(s@),
        }
    }
}

impl Clone for HomieValue {
    fn clone(&self) -> (r: Self)
        ensures
            r@ == self@,
    {
        match self {
            HomieValue::Empty => HomieValue::Empty,
            HomieValue::String(s) => HomieValue::String(s.clone()),
            HomieValue::Integer(i) => HomieValue::Integer(*i),
            HomieValue::Float(b) => HomieValue::Float(*b),
            HomieValue::Bool(b) => HomieValue::Bool(*b),
            HomieValue::Enum(s) => HomieValue::Enum(s.clone()),
            HomieValue::Color(s) => HomieValue::Color(s.clone()),
            HomieValue::DateTime(t) => HomieValue::DateTime(*t),
            HomieValue::Duration(d) => HomieValue::Duration(*d),
            HomieValue::JSON(s) => HomieValue::JSON(s.clone()),
        }
    }
}

impl HomieValue {
    /// Deep equality of two values: same shape and same content.
    pub fn same_value(&self, other: &Self) -> (r: bool)
        ensures
            r == (self@ == other@),
    {
        match (self, other) {
            (HomieValue::Empty, HomieValue::Empty) => true,
            (HomieValue::String(a), HomieValue::String(b)) => *a == *b,
            (HomieValue::Integer(a), HomieValue::Integer(b)) => *a == *b,
            (HomieValue::Float(a), HomieValue::Float(b)) => *a == *b,
            (HomieValue::Bool(a), HomieValue::Bool(b)) => *a == *b,
            (HomieValue::Enum(a), HomieValue::Enum(b)) => *a == *b,
            (HomieValue::Color(a), HomieValue::Color(b)) => *a == *b,
            (HomieValue::DateTime(a), HomieValue::DateTime(b)) => *a == *b,
            (HomieValue::Duration(a), HomieValue::Duration(b)) => *a == *b,
            (HomieValue::JSON(a), HomieValue::JSON(b)) => *a == *b,
            _ => false,
        }
    }
}

impl PartialEq for HomieValue {
    fn eq(&self, other: &Self) -> (r: bool) {
        self.same_value(other)
    }
}

impl vstd::std_specs::cmp::PartialEqSpecImpl for HomieValue {
    open spec fn obeys_eq_spec() -> bool {
        true
    }

    open spec fn eq_spec(&self, other: &Self) -> bool {
        self@ == other@
    }
}

} // verus!
