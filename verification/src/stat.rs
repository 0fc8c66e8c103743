//! The symlink-sensitive metadata probe.
//!
//! The caller performs two reads on the path and reports both outcomes
//! here as plain data: a link-mode metadata read (one that does not
//! follow a final symbolic link), and a link-read.  The probe decides
//! what the record will describe.  A successful link-read settles it:
//! the entry is a symbolic link, the target is recorded, and the
//! numeric fields describe the link itself.  Otherwise the metadata's
//! own classification stands.  Any failure to read the entry — and any
//! inconsistent pair of outcomes, as when the two reads raced a
//! rename — collapses to `NotAccessible`, which the entry point turns
//! into the null sentinel rather than an error signal.

use vstd::prelude::*;

verus! {

/// The coarse classification of a directory entry.  The type slot of a
/// record only needs the three-way split between symbolic links,
/// directories and everything else, so sockets, pipes and devices all
/// fall under `Other`.
#[derive(Debug, Clone, Copy, PartialEq, Eq, Structural)]
pub enum FileKind {
    Regular,
    Directory,
    Symlink,
    Other,
}

/// One native metadata snapshot, lowered to uniform plain fields.  The
/// caller fills it from a link-mode metadata read; nothing here has
/// followed a final symbolic link.
#[derive(Debug, Clone, Copy, PartialEq, Eq, Structural)]
pub struct StatFields {
    /// What the snapshot's mode bits classify the entry as.
    pub kind: FileKind,
    /// Number of hard links.
    pub nlink: u64,
    /// Owning user id.
    pub uid: u32,
    /// Owning group id.
    pub gid: u32,
    /// Last access time: whole seconds, then nanoseconds.
    pub atime_s: i64,
    pub atime_ns: i64,
    /// Last content-modification time.
    pub mtime_s: i64,
    pub mtime_ns: i64,
    /// Last attribute-change time.
    pub ctime_s: i64,
    pub ctime_ns: i64,
    /// Size in bytes.
    pub size: u64,
    /// Inode number.
    pub ino: u64,
    /// Device number of the containing filesystem.
    pub dev: u64,
}

/// The settled outcome of a probe: the snapshot, plus the decision
/// whether the record describes a symbolic link and where it points.
#[derive(Debug, PartialEq, Eq)]
pub struct RawStat {
    /// The final classification; `Symlink` exactly when a link-read
    /// succeeded.
    pub kind: FileKind,
    /// The link target, present exactly for a symbolic link.
    pub link_target: Option<Vec<u8>>,
    /// The metadata fields, describing the link itself for a symbolic
    /// link and the entry otherwise.
    pub st: StatFields,
}

impl RawStat {
    /// Well-formedness: the target is recorded if and only if the
    /// entry is a symbolic link, and a recorded target is non-empty.
    pub open spec fn wf(&self) -> bool {
        &&& self.kind is Symlink <==> self.link_target is Some
        &&& match self.link_target {
            Some(t) => t@.len() > 0,
            None => true,
        }
    }
}

/// Why a probe produced no record.
#[derive(Debug, Clone, Copy, PartialEq, Eq, Structural)]
pub enum AttrError {
    /// The entry could not be read: missing, permission denied, a
    /// link-resolution failure, or outcomes that contradict each
    /// other.
    NotAccessible,
}

/// What a probe settles on, given the two reported outcomes.  `None`
/// stands for `NotAccessible`.
pub open spec fn spec_probe(lstat: Option<StatFields>, link: Option<Vec<u8>>) -> Option<RawStat> {
    match lstat {
        None => None,
        Some(st) => match link {
            Some(t) => if t@.len() > 0 {
                Some(RawStat { kind: FileKind::Symlink, link_target: Some(t), st })
            } else {
                None
            },
            None => if st.kind is Symlink {
                None
            } else {
                Some(RawStat { kind: st.kind, link_target: None, st })
            },
        },
    }
}

/// Settles the probe of one path.  `lstat` is the link-mode metadata
/// read's outcome, `link` the link-read's; `None` reports that the
/// respective read failed.  Succeeds if and only if the metadata read
/// succeeded and the two outcomes agree on whether the entry is a
/// symbolic link; a successful link-read makes the record describe the
/// link itself, with the target kept verbatim.
pub fn probe(lstat: Option<StatFields>, link: Option<Vec<u8>>) -> (r: Result<RawStat, AttrError>)
    ensures
        match spec_probe(lstat, link) {
            Some(raw) => r == Result::<RawStat, AttrError>::Ok(raw),
            None => r == Result::<RawStat, AttrError>::Err(AttrError::NotAccessible),
        },
        r matches Ok(raw) ==> raw.wf(),
{
    match lstat {
        None => Err(AttrError::NotAccessible),
        Some(st) => match link {
            Some(t) => {
                if t.len() > 0 {
                    Ok(RawStat { kind: FileKind::Symlink, link_target: Some(t), st })
                } else {
                    Err(AttrError::NotAccessible)
                }
            },
            None => {
                if st.kind == FileKind::Symlink {
                    Err(AttrError::NotAccessible)
                } else {
                    Ok(RawStat { kind: st.kind, link_target: None, st })
                }
            },
        },
    }
}

} // verus!
