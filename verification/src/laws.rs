//! The record's guarantees, stated once and proved for every input.
//!
//! Each law here speaks over the spec functions that the executable
//! functions' own contracts use, so it holds of every record the
//! library builds: of every settled probe, every resolved id pair and
//! every mode string, not of chosen examples.

use vstd::prelude::*;

use crate::idformat::IdFormat;
use crate::ids::lookup_found;
use crate::ids::spec_resolve;
use crate::path::collapse;
use crate::path::collapse_from;
use crate::path::is_dot;
use crate::path::is_dotdot;
use crate::path::plain_component;
use crate::path::spec_prefixed;
use crate::path::split_path;
use crate::path::step;
use crate::record::spec_record;
use crate::stat::RawStat;
use crate::users::spec_users;
use crate::value::is_nonneg_integer;
use crate::value::is_text;
use crate::value::time_parts;
use crate::value::ValueModel;

verus! {

/// For every accessible entry that is not a symbolic link, the type
/// slot is one of the two sentinels: the true sentinel exactly for a
/// directory, the null sentinel for everything else — never a string.
pub proof fn lemma_type_slot_non_symlink(
    raw: RawStat,
    user: ValueModel,
    group: ValueModel,
    mode: Seq<u8>,
)
    requires
        raw.wf(),
        !(raw.kind is Symlink),
    ensures
        spec_record(raw, user, group, mode)[0] == ValueModel::True || spec_record(
            raw,
            user,
            group,
            mode,
        )[0] == ValueModel::Nil,
        spec_record(raw, user, group, mode)[0] == ValueModel::True <==> raw.kind is Directory,
{
}

/// For every symbolic link, the type slot is a non-empty string and
/// is exactly the stored link target.
pub proof fn lemma_type_slot_symlink(raw: RawStat, user: ValueModel, group: ValueModel, mode: Seq<u8>)
    requires
        raw.wf(),
        raw.kind is Symlink,
    ensures
        spec_record(raw, user, group, mode)[0] matches ValueModel::Text(t) && t
            == raw.link_target->0@ && t.len() > 0,
{
}

/// For every record, the link count, size, inode and device slots are
/// non-negative integers.
pub proof fn lemma_numeric_slots_nonneg(
    raw: RawStat,
    user: ValueModel,
    group: ValueModel,
    mode: Seq<u8>,
)
    ensures
        is_nonneg_integer(spec_record(raw, user, group, mode)[1]),
        is_nonneg_integer(spec_record(raw, user, group, mode)[7]),
        is_nonneg_integer(spec_record(raw, user, group, mode)[10]),
        is_nonneg_integer(spec_record(raw, user, group, mode)[11]),
{
}

/// Under the numeric id format, the owner and group slots are
/// integers — the raw ids — whatever any database lookup returned.
pub proof fn lemma_numeric_format_ids(
    raw: RawStat,
    uid: u32,
    gid: u32,
    uname: Option<Seq<u8>>,
    gname: Option<Seq<u8>>,
    mode: Seq<u8>,
)
    ensures
        spec_record(
            raw,
            spec_resolve(uid, IdFormat::Numeric, uname),
            spec_resolve(gid, IdFormat::Numeric, gname),
            mode,
        )[2] == ValueModel::Nat(uid as u64),
        spec_record(
            raw,
            spec_resolve(uid, IdFormat::Numeric, uname),
            spec_resolve(gid, IdFormat::Numeric, gname),
            mode,
        )[3] == ValueModel::Nat(gid as u64),
{
}

/// Under the named id format, the owner slot is a string or an
/// integer; it is the integer — the raw id — exactly when the lookup
/// found nothing usable, and otherwise it is the name found.  The
/// group slot behaves the same way.
pub proof fn lemma_named_format_ids(
    raw: RawStat,
    uid: u32,
    gid: u32,
    uname: Option<Seq<u8>>,
    gname: Option<Seq<u8>>,
    mode: Seq<u8>,
)
    ensures
        is_text(
            spec_record(
                raw,
                spec_resolve(uid, IdFormat::Named, uname),
                spec_resolve(gid, IdFormat::Named, gname),
                mode,
            )[2],
        ) || is_nonneg_integer(
            spec_record(
                raw,
                spec_resolve(uid, IdFormat::Named, uname),
                spec_resolve(gid, IdFormat::Named, gname),
                mode,
            )[2],
        ),
        lookup_found(uname) ==> spec_record(
            raw,
            spec_resolve(uid, IdFormat::Named, uname),
            spec_resolve(gid, IdFormat::Named, gname),
            mode,
        )[2] == ValueModel::Text(uname->0),
        !lookup_found(uname) ==> spec_record(
            raw,
            spec_resolve(uid, IdFormat::Named, uname),
            spec_resolve(gid, IdFormat::Named, gname),
            mode,
        )[2] == ValueModel::Nat(uid as u64),
        lookup_found(gname) ==> spec_record(
            raw,
            spec_resolve(uid, IdFormat::Named, uname),
            spec_resolve(gid, IdFormat::Named, gname),
            mode,
        )[3] == ValueModel::Text(gname->0),
        !lookup_found(gname) ==> spec_record(
            raw,
            spec_resolve(uid, IdFormat::Named, uname),
            spec_resolve(gid, IdFormat::Named, gname),
            mode,
        )[3] == ValueModel::Nat(gid as u64),
{
}

/// The reserved slot is the true sentinel in every record.
pub proof fn lemma_reserved_slot(raw: RawStat, user: ValueModel, group: ValueModel, mode: Seq<u8>)
    ensures
        spec_record(raw, user, group, mode)[9] == ValueModel::True,
{
}

/// The three time slots decode back to exactly the seconds and
/// nanoseconds the metadata snapshot reported: access, modification
/// and attribute-change time, in that order, losslessly.
pub proof fn lemma_time_round_trip(raw: RawStat, user: ValueModel, group: ValueModel, mode: Seq<u8>)
    ensures
        time_parts(spec_record(raw, user, group, mode)[4]) == Some(
            (raw.st.atime_s, raw.st.atime_ns),
        ),
        time_parts(spec_record(raw, user, group, mode)[5]) == Some(
            (raw.st.mtime_s, raw.st.mtime_ns),
        ),
        time_parts(spec_record(raw, user, group, mode)[6]) == Some(
            (raw.st.ctime_s, raw.st.ctime_ns),
        ),
{
}

/// The user listing is never empty: either the enumerated names stand,
/// or the login name stands alone.
pub proof fn lemma_users_nonempty(ns: Seq<Seq<u8>>, login: Seq<u8>)
    ensures
        spec_users(ns, login).len() >= 1,
{
}

proof fn lemma_collapse_from_plain(stack: Seq<Seq<u8>>, cs: Seq<Seq<u8>>, i: int)
    requires
        forall|k: int| 0 <= k < stack.len() ==> plain_component(#[trigger] stack[k]),
    ensures
        forall|k: int|
            0 <= k < collapse_from(stack, cs, i).len() ==> plain_component(
                #[trigger] collapse_from(stack, cs, i)[k],
            ),
    decreases cs.len() - i,
{
    if 0 <= i < cs.len() {
        let pushed = step(stack, cs[i]);
        assert forall|k: int| 0 <= k < pushed.len() implies plain_component(
            #[trigger] pushed[k],
        ) by {
            if !(cs[i].len() == 0 || is_dot(cs[i])) && !is_dotdot(cs[i]) && k == stack.len() {
                assert(pushed[k] == cs[i]);
            }
        }
        lemma_collapse_from_plain(pushed, cs, i + 1);
        assert(collapse_from(stack, cs, i) == collapse_from(pushed, cs, i + 1));
    } else {
        assert(collapse_from(stack, cs, i) == stack);
    }
}

/// Normalization resolves everything it promises to: in the canonical
/// form of any name, no empty, `.` or `..` component survives — while
/// symbolic links, which collapsing never reads, stay unresolved.
pub proof fn lemma_expand_canonical(name: Seq<u8>, dir: Seq<u8>, home: Seq<u8>)
    ensures
        forall|k: int|
            0 <= k < collapse(split_path(spec_prefixed(name, dir, home))).len()
                ==> plain_component(
                #[trigger] collapse(split_path(spec_prefixed(name, dir, home)))[k],
            ),
{
    lemma_collapse_from_plain(
        Seq::<Seq<u8>>::empty(),
        split_path(spec_prefixed(name, dir, home)),
        0,
    );
}

} // verus!
