//! The host runtime's tagged values, as far as attribute records use them.
//!
//! The hosting editor keeps every datum in a tagged representation.  An
//! attribute record only ever hands it five shapes: the null sentinel,
//! the true sentinel, a byte string, a non-negative integer, and a
//! timestamp built from whole seconds and nanoseconds.  `Value` models
//! exactly those shapes; the caller lowers each one into the host's own
//! constructors.  Splitting an oversized integer into high and low
//! halves, and encoding a timestamp as the host's calendar value, are
//! the host's business: `Value` carries the numbers unchanged.

use vstd::prelude::*;

verus! {

/// One host value as an attribute record slot holds it.
#[derive(Debug, PartialEq, Eq)]
pub enum Value {
    /// The null sentinel: "absent", and the type slot of a plain file.
    Nil,
    /// The true sentinel: "affirmative, no further information".
    True,
    /// A byte string, as the host stores text.
    Text(Vec<u8>),
    /// A non-negative integer; the host splits it further if it must.
    Nat(u64),
    /// A timestamp of whole seconds and nanoseconds within the second.
    Time { secs: i64, nanos: i64 },
}

/// The mathematical shape of a `Value`: text becomes a byte sequence.
pub enum ValueModel {
    Nil,
    True,
    Text(Seq<u8>),
    Nat(u64),
    Time { secs: i64, nanos: i64 },
}

impl View for Value {
    type V = ValueModel;

    open spec fn view(&self) -> ValueModel {
        match self {
            Value::Nil => ValueModel::Nil,
            Value::True => ValueModel::True,
            Value::Text(b) => ValueModel::Text(b@),
            Value::Nat(n) => ValueModel::Nat(*n),
            Value::Time { secs, nanos } => ValueModel::Time { secs: *secs, nanos: *nanos },
        }
    }
}

/// The model of an optional byte string: the bytes as a sequence.
pub open spec fn opt_bytes(o: Option<Vec<u8>>) -> Option<Seq<u8>> {
    match o {
        Some(b) => Some(b@),
        None => None,
    }
}

/// The model of a list of byte strings: each taken to its sequence.
pub open spec fn texts_model(ns: Seq<Vec<u8>>) -> Seq<Seq<u8>> {
    ns.map_values(|n: Vec<u8>| n@)
}

/// The model of a whole record: each slot taken to its model.
pub open spec fn record_model(rec: Seq<Value>) -> Seq<ValueModel> {
    rec.map_values(|v: Value| v@)
}

/// A slot that the host will read as an integer, never negative.
pub open spec fn is_nonneg_integer(v: ValueModel) -> bool {
    match v {
        ValueModel::Nat(n) => n >= 0,
        _ => false,
    }
}

/// A slot that the host will read as a string.
pub open spec fn is_text(v: ValueModel) -> bool {
    v is Text
}

/// Reads a timestamp slot back as the seconds and nanoseconds that
/// built it; `None` on any other shape.
pub open spec fn time_parts(v: ValueModel) -> Option<(i64, i64)> {
    match v {
        ValueModel::Time { secs, nanos } => Some((secs, nanos)),
        _ => None,
    }
}

} // verus!
