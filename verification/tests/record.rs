use dired_attrs::query::file_attributes_core;
use dired_attrs::record::to_record;
use dired_attrs::stat::probe;
use dired_attrs::AttrError;
use dired_attrs::FileKind;
use dired_attrs::IdField;
use dired_attrs::IdFormat;
use dired_attrs::StatFields;
use dired_attrs::Value;

fn sample_stat(kind: FileKind) -> StatFields {
    StatFields {
        kind,
        nlink: 1,
        uid: 0,
        gid: 0,
        atime_s: 1_700_000_000,
        atime_ns: 123_456_789,
        mtime_s: 1_700_000_001,
        mtime_ns: 500,
        ctime_s: 1_700_000_002,
        ctime_ns: 999_999_999,
        size: 4096,
        ino: 42,
        dev: 7,
    }
}

#[test]
fn regular_file_record_with_integer_format() {
    let st = sample_stat(FileKind::Regular);
    let mode = b"-rw-r--r--".to_vec();
    let rec = file_attributes_core(Some(st), None, IdFormat::Numeric, None, None, &mode)
        .expect("an accessible entry is owed a record");
    assert_eq!(rec.len(), 12);
    assert_eq!(rec[0], Value::Nil);
    assert_eq!(rec[1], Value::Nat(1));
    assert_eq!(rec[2], Value::Nat(0));
    assert_eq!(rec[3], Value::Nat(0));
    assert_eq!(rec[7], Value::Nat(4096));
    let m = match &rec[8] {
        Value::Text(m) => m.clone(),
        other => panic!("mode slot must be a string, got {:?}", other),
    };
    assert_eq!(m.len(), 10);
    assert_eq!(m[0], b'-');
    assert_eq!(rec[9], Value::True);
    assert_eq!(rec[10], Value::Nat(42));
    assert_eq!(rec[11], Value::Nat(7));
}

#[test]
fn directory_record_type_slot_is_true_sentinel() {
    let st = sample_stat(FileKind::Directory);
    let mode = b"drwxr-xr-x".to_vec();
    let rec =
        file_attributes_core(Some(st), None, IdFormat::Numeric, None, None, &mode).unwrap();
    assert_eq!(rec[0], Value::True);
}

#[test]
fn symlink_record_carries_target_even_when_target_is_missing() {
    // A link to a path that does not exist still yields a full record
    // whose type slot is the target string, not the null sentinel.
    let st = sample_stat(FileKind::Symlink);
    let mode = b"lrwxrwxrwx".to_vec();
    let rec = file_attributes_core(
        Some(st),
        Some(b"/tmp/target".to_vec()),
        IdFormat::Numeric,
        None,
        None,
        &mode,
    )
    .unwrap();
    assert_eq!(rec[0], Value::Text(b"/tmp/target".to_vec()));
    assert_eq!(rec.len(), 12);
}

#[test]
fn symlink_numeric_slots_describe_the_link_itself() {
    // The snapshot comes from a link-mode read, so link count, size,
    // inode and device belong to the link, not to its target.
    let st = StatFields { nlink: 1, size: 11, ino: 77, dev: 3, ..sample_stat(FileKind::Symlink) };
    let mode = b"lrwxrwxrwx".to_vec();
    let rec = file_attributes_core(
        Some(st),
        Some(b"/tmp/target".to_vec()),
        IdFormat::Numeric,
        None,
        None,
        &mode,
    )
    .unwrap();
    assert_eq!(rec[1], Value::Nat(1));
    assert_eq!(rec[7], Value::Nat(11));
    assert_eq!(rec[10], Value::Nat(77));
    assert_eq!(rec[11], Value::Nat(3));
}

#[test]
fn missing_entry_yields_null_sentinel() {
    let mode = Vec::new();
    let r = file_attributes_core(None, None, IdFormat::Numeric, None, None, &mode);
    assert!(r.is_none());
}

#[test]
fn time_slots_keep_seconds_and_nanoseconds() {
    let st = sample_stat(FileKind::Regular);
    let mode = b"-rw-r--r--".to_vec();
    let rec =
        file_attributes_core(Some(st), None, IdFormat::Numeric, None, None, &mode).unwrap();
    assert_eq!(rec[4], Value::Time { secs: 1_700_000_000, nanos: 123_456_789 });
    assert_eq!(rec[5], Value::Time { secs: 1_700_000_001, nanos: 500 });
    assert_eq!(rec[6], Value::Time { secs: 1_700_000_002, nanos: 999_999_999 });
}

#[test]
fn named_format_uses_found_name_and_falls_back_to_id() {
    let st = StatFields { uid: 0, gid: 12345, ..sample_stat(FileKind::Regular) };
    let mode = b"-rw-r--r--".to_vec();
    // The passwd lookup knows uid 0; the group lookup found nothing.
    let rec = file_attributes_core(
        Some(st),
        None,
        IdFormat::Named,
        Some(b"root".to_vec()),
        None,
        &mode,
    )
    .unwrap();
    assert_eq!(rec[2], Value::Text(b"root".to_vec()));
    assert_eq!(rec[3], Value::Nat(12345));
}

#[test]
fn named_format_empty_database_name_falls_back_to_id() {
    let st = sample_stat(FileKind::Regular);
    let mode = b"-rw-r--r--".to_vec();
    let rec = file_attributes_core(
        Some(st),
        None,
        IdFormat::Named,
        Some(Vec::new()),
        Some(Vec::new()),
        &mode,
    )
    .unwrap();
    assert_eq!(rec[2], Value::Nat(0));
    assert_eq!(rec[3], Value::Nat(0));
}

#[test]
fn probe_classifies_and_rejects_inconsistent_outcomes() {
    let st = sample_stat(FileKind::Directory);
    let raw = probe(Some(st), None).unwrap();
    assert_eq!(raw.kind, FileKind::Directory);
    assert_eq!(raw.link_target, None);

    // A successful link-read settles the entry as a symbolic link.
    let st = sample_stat(FileKind::Symlink);
    let raw = probe(Some(st), Some(b"x".to_vec())).unwrap();
    assert_eq!(raw.kind, FileKind::Symlink);
    assert_eq!(raw.link_target, Some(b"x".to_vec()));

    // A metadata snapshot that claims a symlink without a readable
    // target cannot make a well-formed record.
    let st = sample_stat(FileKind::Symlink);
    assert_eq!(probe(Some(st), None), Err(AttrError::NotAccessible));

    // An empty link target likewise.
    let st = sample_stat(FileKind::Symlink);
    assert_eq!(probe(Some(st), Some(Vec::new())), Err(AttrError::NotAccessible));

    // No metadata, no record.
    assert_eq!(probe(None, None), Err(AttrError::NotAccessible));
}

#[test]
fn to_record_places_resolved_fields() {
    let st = sample_stat(FileKind::Regular);
    let raw = probe(Some(st), None).unwrap();
    let user = IdField::Named(b"alice".to_vec());
    let group = IdField::Numeric(100);
    let mode = b"-r--r--r--".to_vec();
    let rec = to_record(&raw, &user, &group, &mode);
    assert_eq!(rec[2], Value::Text(b"alice".to_vec()));
    assert_eq!(rec[3], Value::Nat(100));
    assert_eq!(rec[8], Value::Text(b"-r--r--r--".to_vec()));
}
