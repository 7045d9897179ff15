use copywave::paths::{join_path, parent_of, single_file_destination, temp_path_for,
    tree_file_destination};
use copywave::steps::{failure_cleanup, plan_copy};

#[test]
fn staging_path_appends_tmp_suffix() {
    assert_eq!(temp_path_for("dest/file.txt"), "dest/file.txt.tmp");
    assert_eq!(temp_path_for("noext"), "noext.tmp");
}

#[test]
fn join_uses_separator() {
    assert_eq!(join_path("out", "sub/b.txt"), "out/sub/b.txt");
}

#[test]
fn single_file_into_existing_directory() {
    let d = single_file_destination("out", true, "f.bin");
    assert_eq!(d, "out/f.bin");
}

#[test]
fn single_file_to_fresh_path_is_verbatim() {
    let d = single_file_destination("target/renamed.bin", false, "f.bin");
    assert_eq!(d, "target/renamed.bin");
}

#[test]
fn tree_files_keep_subtree_structure() {
    let d = tree_file_destination("backup", "sub/b.txt");
    assert_eq!(d, "backup/sub/b.txt");
}

#[test]
fn protected_plan_stages_then_renames() {
    let plan = plan_copy("out/a.txt", false);
    assert_eq!(plan.write_path, "out/a.txt.tmp");
    assert!(plan.rename_to_destination);
    assert_ne!(plan.write_path, "out/a.txt");
}

#[test]
fn fast_plan_writes_destination_directly() {
    let plan = plan_copy("out/a.txt", true);
    assert_eq!(plan.write_path, "out/a.txt");
    assert!(!plan.rename_to_destination);
}

#[test]
fn failed_protected_copy_removes_exactly_its_staging_file() {
    let plan = plan_copy("out/a.txt", false);
    let cleanup = failure_cleanup("out/a.txt", false);
    assert_eq!(cleanup.as_deref(), Some(plan.write_path.as_str()));
}

#[test]
fn failed_fast_copy_has_nothing_to_clean() {
    assert_eq!(failure_cleanup("out/a.txt", true), None);
}

#[test]
fn parent_is_everything_before_last_separator() {
    assert_eq!(parent_of("a/b/c"), Some("a/b".to_string()));
    assert_eq!(parent_of("a/b"), Some("a".to_string()));
    assert_eq!(parent_of("dir/"), Some("dir".to_string()));
}

#[test]
fn bare_name_has_no_parent() {
    assert_eq!(parent_of("name"), None);
    assert_eq!(parent_of(""), None);
}
