//! File-attribute records for a directory-editor runtime.
//!
//! Given a path, the library produces the classic twelve-slot attribute
//! record: file type, link count, owner and group (numeric or named),
//! three nanosecond-precise timestamps, size, permission-mode string,
//! inode and device.  The record keeps the legacy shape consumed by the
//! hosting editor: a symbolic link's type slot carries the link target,
//! a directory's carries the true sentinel, and anything else gets the
//! null sentinel.
//!
//! The library itself performs no system calls.  The caller reads the
//! link, the metadata and the user and group databases, and hands the
//! plain outcomes to the verified functions here, which decide how the
//! probe is classified, how ids resolve, and what stands in each slot
//! of the record.

pub mod idformat;
pub mod ids;
pub mod laws;
pub mod path;
pub mod query;
pub mod record;
pub mod stat;
pub mod users;
pub mod value;

pub use idformat::IdFormat;
pub use ids::IdField;
pub use query::Dispatch;
pub use stat::AttrError;
pub use stat::FileKind;
pub use stat::RawStat;
pub use stat::StatFields;
pub use value::Value;
pub use value::ValueModel;
