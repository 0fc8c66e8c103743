use dired_attrs::idformat::parse_id_format;
use dired_attrs::ids::resolve_group;
use dired_attrs::ids::resolve_user;
use dired_attrs::query::plan_query;
use dired_attrs::users::get_users;
use dired_attrs::Dispatch;
use dired_attrs::IdField;
use dired_attrs::IdFormat;

#[test]
fn only_the_word_string_selects_named_ids() {
    assert_eq!(parse_id_format(None), IdFormat::Numeric);
    assert_eq!(parse_id_format(Some(&b"string".to_vec())), IdFormat::Named);
    assert_eq!(parse_id_format(Some(&b"STRING".to_vec())), IdFormat::Named);
    assert_eq!(parse_id_format(Some(&b"StRiNg".to_vec())), IdFormat::Named);
    assert_eq!(parse_id_format(Some(&b"integer".to_vec())), IdFormat::Numeric);
    assert_eq!(parse_id_format(Some(&b"strings".to_vec())), IdFormat::Numeric);
    assert_eq!(parse_id_format(Some(&b"strin".to_vec())), IdFormat::Numeric);
    assert_eq!(parse_id_format(Some(&b"".to_vec())), IdFormat::Numeric);
}

#[test]
fn numeric_format_never_consults_a_lookup() {
    assert_eq!(
        resolve_user(12, IdFormat::Numeric, Some(b"root".to_vec())),
        IdField::Numeric(12)
    );
    assert_eq!(resolve_group(0, IdFormat::Numeric, None), IdField::Numeric(0));
}

#[test]
fn named_format_takes_the_name_and_falls_back() {
    assert_eq!(
        resolve_user(0, IdFormat::Named, Some(b"root".to_vec())),
        IdField::Named(b"root".to_vec())
    );
    assert_eq!(resolve_user(12345, IdFormat::Named, None), IdField::Numeric(12345));
    assert_eq!(resolve_user(5, IdFormat::Named, Some(Vec::new())), IdField::Numeric(5));
    assert_eq!(
        resolve_group(20, IdFormat::Named, Some(b"staff".to_vec())),
        IdField::Named(b"staff".to_vec())
    );
}

#[test]
fn registered_handler_short_circuits_the_probe() {
    // With a handler present the plan never reaches the filesystem,
    // and the id-format argument decides the calling convention.
    assert_eq!(plan_query(true, false), Dispatch::Handler { pass_format: false });
    assert_eq!(plan_query(true, true), Dispatch::Handler { pass_format: true });
    assert_eq!(plan_query(false, false), Dispatch::Probe);
    assert_eq!(plan_query(false, true), Dispatch::Probe);
}

#[test]
fn enumerated_users_pass_through_in_order() {
    let names = vec![b"root".to_vec(), b"nobody".to_vec(), b"alice".to_vec()];
    let out = get_users(names.clone(), b"me".to_vec());
    assert_eq!(out, names);
}

#[test]
fn empty_enumeration_yields_the_login_name() {
    let out = get_users(Vec::new(), b"me".to_vec());
    assert_eq!(out, vec![b"me".to_vec()]);
}

#[test]
fn user_listing_is_a_function_of_its_inputs() {
    // Two runs over the same database contents give the same answer.
    let names = vec![b"root".to_vec(), b"alice".to_vec()];
    let a = get_users(names.clone(), b"me".to_vec());
    let b = get_users(names, b"me".to_vec());
    assert_eq!(a, b);
    assert!(!a.is_empty());
}
