use dired_attrs::path::expand_file_name;
use dired_attrs::path::query_with_parent_path;
use dired_attrs::path::split_dir_file;

fn expand(name: &[u8], dir: &[u8], home: &[u8]) -> Vec<u8> {
    expand_file_name(&name.to_vec(), &dir.to_vec(), &home.to_vec())
}

#[test]
fn relative_name_goes_under_default_directory() {
    assert_eq!(expand(b"hostname", b"/etc", b"/root"), b"/etc/hostname".to_vec());
}

#[test]
fn absolute_name_stands() {
    assert_eq!(expand(b"/etc/hostname", b"/anywhere", b"/root"), b"/etc/hostname".to_vec());
}

#[test]
fn dot_and_empty_components_collapse() {
    assert_eq!(expand(b"a/./b//c", b"/base", b"/root"), b"/base/a/b/c".to_vec());
    assert_eq!(expand(b"/a/", b"/base", b"/root"), b"/a".to_vec());
}

#[test]
fn dotdot_collapses_textually() {
    assert_eq!(expand(b"/a/b/../c", b"/base", b"/root"), b"/a/c".to_vec());
    assert_eq!(expand(b"../..", b"/a/b", b"/root"), b"/".to_vec());
}

#[test]
fn dotdot_above_the_root_stays_at_the_root() {
    assert_eq!(expand(b"/..", b"/base", b"/root"), b"/".to_vec());
    assert_eq!(expand(b"/../x", b"/base", b"/root"), b"/x".to_vec());
}

#[test]
fn tilde_expands_to_home() {
    assert_eq!(expand(b"~", b"/base", b"/home/u"), b"/home/u".to_vec());
    assert_eq!(expand(b"~/notes", b"/base", b"/home/u"), b"/home/u/notes".to_vec());
}

#[test]
fn tilde_user_is_left_as_a_relative_name() {
    assert_eq!(expand(b"~alice", b"/base", b"/home/u"), b"/base/~alice".to_vec());
}

#[test]
fn root_default_directory_makes_no_double_slash() {
    assert_eq!(expand(b"x", b"/", b"/root"), b"/x".to_vec());
}

#[test]
fn parent_and_name_join_with_one_separator() {
    assert_eq!(query_with_parent_path(&b"/d".to_vec(), &b"f".to_vec()), b"/d/f".to_vec());
    assert_eq!(query_with_parent_path(&b"".to_vec(), &b"f".to_vec()), b"/f".to_vec());
}

#[test]
fn dir_file_split_at_the_last_separator() {
    assert_eq!(split_dir_file(&b"/a/b.c".to_vec()), (b"/a".to_vec(), b"b.c".to_vec()));
    assert_eq!(split_dir_file(&b"/x".to_vec()), (b"/".to_vec(), b"x".to_vec()));
    assert_eq!(split_dir_file(&b"noslash".to_vec()), (b"".to_vec(), b"noslash".to_vec()));
    assert_eq!(split_dir_file(&b"/a/b/".to_vec()), (b"/a/b".to_vec(), b"".to_vec()));
}
