//! The public query pipeline, as far as it is decidable from data.
//!
//! A single-file query runs: normalize the name, ask the handler
//! registry, and — only when no handler claimed the path — probe,
//! resolve ids and lower the record.  The registry itself and every
//! system call belong to the caller; what stands here is each decision
//! on the way.  `plan_query` rules on the handler short-circuit: when
//! a handler is registered the plan never asks for a probe or an id
//! lookup, and it fixes the legacy calling convention of one argument
//! when the caller omitted the id format and two when it supplied
//! one.  `file_attributes_core` turns the reported probe and lookup
//! outcomes into the record, or into the null sentinel when the entry
//! was not accessible.

use vstd::prelude::*;

use crate::idformat::IdFormat;
use crate::ids::resolve_group;
use crate::ids::resolve_user;
use crate::ids::spec_resolve;
use crate::record::spec_record;
use crate::record::to_record;
use crate::record::RECORD_LEN;
use crate::stat::probe;
use crate::stat::spec_probe;
use crate::stat::StatFields;
use crate::value::opt_bytes;
use crate::value::record_model;
use crate::value::Value;

verus! {

/// What a query does after the handler registry has answered.
#[derive(Debug, Clone, Copy, PartialEq, Eq, Structural)]
pub enum Dispatch {
    /// Forward the whole call to the registered handler, and touch the
    /// filesystem and the id databases not at all.  `pass_format` is
    /// whether the handler receives the caller's id-format argument as
    /// a second positional argument.
    Handler { pass_format: bool },
    /// No handler claimed the path: probe the filesystem.
    Probe,
}

/// Rules on the handler short-circuit.  `handler_present` is whether
/// the registry returned a handler for the normalized path, and
/// `format_supplied` whether the caller gave an id-format argument at
/// all.  A present handler is always taken, with the one- or
/// two-argument convention; only an absent one lets the probe run.
pub fn plan_query(handler_present: bool, format_supplied: bool) -> (d: Dispatch)
    ensures
        handler_present ==> d == (Dispatch::Handler { pass_format: format_supplied }),
        !handler_present ==> d == Dispatch::Probe,
{
    if handler_present {
        Dispatch::Handler { pass_format: format_supplied }
    } else {
        Dispatch::Probe
    }
}

/// Builds the record for one path from reported outcomes alone:
/// `lstat` and `link` from the probe's two reads, `uname` and `gname`
/// from the id lookups (passed as `None` when numeric ids were asked
/// for), and `mode` from the host's mode-string formatter.  Returns
/// `None` — lowered to the null sentinel — exactly when the probe
/// settles on `NotAccessible`; every accessible entry is owed its
/// twelve-slot record.
pub fn file_attributes_core(
    lstat: Option<StatFields>,
    link: Option<Vec<u8>>,
    format: IdFormat,
    uname: Option<Vec<u8>>,
    gname: Option<Vec<u8>>,
    mode: &Vec<u8>,
) -> (r: Option<Vec<Value>>)
    ensures
        r is Some <==> spec_probe(lstat, link) is Some,
        match spec_probe(lstat, link) {
            Some(raw) => match r {
                Some(rec) => {
                    &&& rec@.len() == RECORD_LEN
                    &&& record_model(rec@) == spec_record(
                        raw,
                        spec_resolve(raw.st.uid, format, opt_bytes(uname)),
                        spec_resolve(raw.st.gid, format, opt_bytes(gname)),
                        mode@,
                    )
                },
                None => false,
            },
            None => r is None,
        },
{
    match probe(lstat, link) {
        Err(_) => None,
        Ok(raw) => {
            let user = resolve_user(raw.st.uid, format, uname);
            let group = resolve_group(raw.st.gid, format, gname);
            Some(to_record(&raw, &user, &group, mode))
        },
    }
}

} // verus!
