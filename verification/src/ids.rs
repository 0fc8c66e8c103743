//! Resolution of numeric uids and gids into owner and group fields.
//!
//! The operating system's user and group databases are read by the
//! caller; the outcome of one lookup — the name found, or nothing —
//! comes in as a plain optional byte string.  Resolution never fails:
//! when numeric ids were asked for, no lookup is consulted at all, and
//! when a name was asked for but the database had none, or an empty
//! one, the field falls back to the numeric id.

use vstd::prelude::*;

use crate::idformat::IdFormat;
use crate::value::opt_bytes;
use crate::value::ValueModel;

verus! {

/// An owner or group field of a record: a name, or the numeric id.
#[derive(Debug, PartialEq, Eq)]
pub enum IdField {
    /// The name the database gave for the id.
    Named(Vec<u8>),
    /// The raw id, either as requested or as the fallback.
    Numeric(u32),
}

impl IdField {
    /// The record slot this field becomes in the host.
    pub open spec fn model(&self) -> ValueModel {
        match self {
            IdField::Named(n) => ValueModel::Text(n@),
            IdField::Numeric(id) => ValueModel::Nat(*id as u64),
        }
    }
}

/// Whether a lookup outcome carries a usable name: present, non-empty.
pub open spec fn lookup_found(name: Option<Seq<u8>>) -> bool {
    match name {
        Some(n) => n.len() > 0,
        None => false,
    }
}

/// The field an id resolves to, given the format and what one database
/// lookup returned.
pub open spec fn spec_resolve(id: u32, format: IdFormat, name: Option<Seq<u8>>) -> ValueModel {
    if format is Named && lookup_found(name) {
        ValueModel::Text(name->0)
    } else {
        ValueModel::Nat(id as u64)
    }
}

/// Resolves a uid.  `name` is what the caller's passwd lookup by `uid`
/// returned; with `IdFormat::Numeric` the caller passes `None` and no
/// database is consulted.  A missing or empty entry falls back to the
/// numeric id, so resolution never fails.
pub fn resolve_user(uid: u32, format: IdFormat, name: Option<Vec<u8>>) -> (f: IdField)
    ensures
        f.model() == spec_resolve(uid, format, opt_bytes(name)),
        f is Named <==> format is Named && lookup_found(opt_bytes(name)),
{
    match format {
        IdFormat::Numeric => IdField::Numeric(uid),
        IdFormat::Named => match name {
            Some(n) => {
                if n.len() > 0 {
                    IdField::Named(n)
                } else {
                    IdField::Numeric(uid)
                }
            },
            None => IdField::Numeric(uid),
        },
    }
}

/// Resolves a gid against the group database, by the same rule as
/// `resolve_user`.
pub fn resolve_group(gid: u32, format: IdFormat, name: Option<Vec<u8>>) -> (f: IdField)
    ensures
        f.model() == spec_resolve(gid, format, opt_bytes(name)),
        f is Named <==> format is Named && lookup_found(opt_bytes(name)),
{
    match format {
        IdFormat::Numeric => IdField::Numeric(gid),
        IdFormat::Named => match name {
            Some(n) => {
                if n.len() > 0 {
                    IdField::Named(n)
                } else {
                    IdField::Numeric(gid)
                }
            },
            None => IdField::Numeric(gid),
        },
    }
}

} // verus!
