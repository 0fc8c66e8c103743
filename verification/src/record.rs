//! Lowering a settled probe into the twelve-slot attribute record.
//!
//! Slot by slot: the type (link target, true sentinel for a directory,
//! null sentinel otherwise), the link count, owner and group fields,
//! the access, modification and attribute-change times, the size, the
//! ten-character permission-mode string, a reserved slot kept at the
//! true sentinel for backward compatibility, the inode and the device.
//! The mode string is delegated: the host's own formatter produces it,
//! and it arrives here as bytes.  A record is built per query and never
//! mutated.

use vstd::prelude::*;

use crate::ids::IdField;
use crate::stat::FileKind;
use crate::stat::RawStat;
use crate::value::record_model;
use crate::value::Value;
use crate::value::ValueModel;

verus! {

/// How many slots a record has.
pub const RECORD_LEN: usize = 12;

/// The type slot: the target of a symbolic link, the true sentinel for
/// a directory, and the null sentinel for everything else.
pub open spec fn type_model(raw: RawStat) -> ValueModel {
    match raw.link_target {
        Some(t) => ValueModel::Text(t@),
        None => if raw.kind is Directory {
            ValueModel::True
        } else {
            ValueModel::Nil
        },
    }
}

/// The whole record a probe outcome lowers to, slot for slot.  The
/// owner and group slots come in already resolved.
pub open spec fn spec_record(raw: RawStat, user: ValueModel, group: ValueModel, mode: Seq<u8>) -> Seq<
    ValueModel,
> {
    seq![
        type_model(raw),
        ValueModel::Nat(raw.st.nlink),
        user,
        group,
        ValueModel::Time { secs: raw.st.atime_s, nanos: raw.st.atime_ns },
        ValueModel::Time { secs: raw.st.mtime_s, nanos: raw.st.mtime_ns },
        ValueModel::Time { secs: raw.st.ctime_s, nanos: raw.st.ctime_ns },
        ValueModel::Nat(raw.st.size),
        ValueModel::Text(mode),
        ValueModel::True,
        ValueModel::Nat(raw.st.ino),
        ValueModel::Nat(raw.st.dev),
    ]
}

/// A byte-for-byte copy.
pub(crate) fn copy_bytes(src: &Vec<u8>) -> (r: Vec<u8>)
    ensures
        r@ == src@,
{
    let r = src.clone();
    proof {
        assert(r@ =~= src@);
    }
    r
}

/// The host value an owner or group field becomes.
pub(crate) fn id_value(f: &IdField) -> (v: Value)
    ensures
        v@ == f.model(),
{
    match f {
        IdField::Named(n) => Value::Text(copy_bytes(n)),
        IdField::Numeric(id) => Value::Nat(*id as u64),
    }
}

/// Builds the twelve-slot record for one settled probe, with the owner
/// and group fields already resolved and the host-formatted mode
/// string in hand.
pub fn to_record(raw: &RawStat, user: &IdField, group: &IdField, mode: &Vec<u8>) -> (rec: Vec<
    Value,
>)
    ensures
        rec@.len() == RECORD_LEN,
        record_model(rec@) == spec_record(*raw, user.model(), group.model(), mode@),
{
    let mut rec: Vec<Value> = Vec::new();
    match &raw.link_target {
        Some(t) => rec.push(Value::Text(copy_bytes(t))),
        None => {
            if raw.kind == FileKind::Directory {
                rec.push(Value::True);
            } else {
                rec.push(Value::Nil);
            }
        },
    }
    rec.push(Value::Nat(raw.st.nlink));
    rec.push(id_value(user));
    rec.push(id_value(group));
    rec.push(Value::Time { secs: raw.st.atime_s, nanos: raw.st.atime_ns });
    rec.push(Value::Time { secs: raw.st.mtime_s, nanos: raw.st.mtime_ns });
    rec.push(Value::Time { secs: raw.st.ctime_s, nanos: raw.st.ctime_ns });
    rec.push(Value::Nat(raw.st.size));
    rec.push(Value::Text(copy_bytes(mode)));
    rec.push(Value::True);
    rec.push(Value::Nat(raw.st.ino));
    rec.push(Value::Nat(raw.st.dev));
    proof {
        assert(record_model(rec@) =~~= spec_record(*raw, user.model(), group.model(), mode@));
    }
    rec
}

} // verus!
