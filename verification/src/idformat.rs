//! The caller's choice between numeric and named owner and group slots.
//!
//! The host hands the choice over as an optional symbol or string.  One
//! spelling is significant: the word `string`, compared without regard
//! to ASCII case, asks for names.  Anything else — the absent value,
//! the word `integer`, or any misspelling — falls back to numeric ids.
//! That forgiving reading is deliberate and kept.

use vstd::prelude::*;

verus! {

/// How the owner and group slots of a record are to be rendered.
#[derive(Debug, Clone, Copy, PartialEq, Eq, Structural)]
pub enum IdFormat {
    /// Raw numeric ids, read from no database.
    Numeric,
    /// Login and group names where the databases know the id.
    Named,
}

/// A byte with ASCII upper case folded to lower case.
pub open spec fn lower_byte(c: u8) -> u8 {
    if 65 <= c && c <= 90 {
        (c + 32) as u8
    } else {
        c
    }
}

/// Whether `s` spells the word `string`, ignoring ASCII case.
pub open spec fn spells_string(s: Seq<u8>) -> bool {
    &&& s.len() == 6
    &&& lower_byte(s[0]) == 115
    &&& lower_byte(s[1]) == 116
    &&& lower_byte(s[2]) == 114
    &&& lower_byte(s[3]) == 105
    &&& lower_byte(s[4]) == 110
    &&& lower_byte(s[5]) == 103
}

/// The format an optional id-format argument selects.
pub open spec fn spec_id_format(arg: Option<Seq<u8>>) -> IdFormat {
    match arg {
        Some(s) => if spells_string(s) {
            IdFormat::Named
        } else {
            IdFormat::Numeric
        },
        None => IdFormat::Numeric,
    }
}

fn lower_byte_exec(c: u8) -> (r: u8)
    ensures
        r == lower_byte(c),
{
    if 65 <= c && c <= 90 {
        c + 32
    } else {
        c
    }
}

/// Reads the caller's id-format argument.  Only the word `string`, in
/// any ASCII case, selects named ids; everything else, the absent
/// argument included, selects numeric ids.
pub fn parse_id_format(arg: Option<&Vec<u8>>) -> (f: IdFormat)
    ensures
        f == spec_id_format(match arg {
            Some(s) => Some(s@),
            None => None,
        }),
{
    match arg {
        None => IdFormat::Numeric,
        Some(s) => {
            if s.len() == 6
                && lower_byte_exec(s[0]) == 115
                && lower_byte_exec(s[1]) == 116
                && lower_byte_exec(s[2]) == 114
                && lower_byte_exec(s[3]) == 105
                && lower_byte_exec(s[4]) == 110
                && lower_byte_exec(s[5]) == 103
            {
                IdFormat::Named
            } else {
                IdFormat::Numeric
            }
        },
    }
}

} // verus!
