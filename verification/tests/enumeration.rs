use copywave::aggregate::total_size;
use copywave::paths::tree_file_destination;
use copywave::tree::{collect_files, FsTree};

fn file(name: &str, size: u64) -> FsTree {
    FsTree::File { name: name.to_string(), size }
}

fn dir(name: &str, entries: Vec<FsTree>) -> FsTree {
    FsTree::Dir { name: name.to_string(), entries }
}

#[test]
fn single_file_root_lists_itself() {
    let root = file("f.bin", 1000);
    let files = collect_files(&root);
    assert_eq!(files.len(), 1);
    assert_eq!(files[0].rel_path, "f.bin");
    assert_eq!(files[0].size, 1000);
}

#[test]
fn directory_with_nested_subdirectory() {
    let root = dir("src", vec![file("a.txt", 3), dir("sub", vec![file("b.txt", 0)])]);
    let files = collect_files(&root);
    assert_eq!(files.len(), 2);
    assert_eq!(files[0].rel_path, "a.txt");
    assert_eq!(files[0].size, 3);
    assert_eq!(files[1].rel_path, "sub/b.txt");
    assert_eq!(files[1].size, 0);
    let sizes: Vec<Option<u64>> = files.iter().map(|f| Some(f.size)).collect();
    assert_eq!(total_size(&sizes), 3);
}

#[test]
fn empty_directory_lists_nothing() {
    let root = dir("empty", vec![]);
    let files = collect_files(&root);
    assert_eq!(files.len(), 0);
}

#[test]
fn depth_first_keeps_one_subtree_contiguous() {
    let root = dir(
        "top",
        vec![
            dir("one", vec![file("a", 1), dir("inner", vec![file("b", 2)])]),
            dir("two", vec![file("c", 3)]),
            file("d", 4),
        ],
    );
    let files = collect_files(&root);
    let rels: Vec<&str> = files.iter().map(|f| f.rel_path.as_str()).collect();
    assert_eq!(rels, vec!["one/a", "one/inner/b", "two/c", "d"]);
}

#[test]
fn root_directory_name_is_not_part_of_relative_paths() {
    let root = dir("rootname", vec![file("x", 9)]);
    let files = collect_files(&root);
    assert_eq!(files[0].rel_path, "x");
}

#[test]
fn distinct_sources_land_on_distinct_destinations() {
    let root = dir(
        "d",
        vec![file("a", 1), dir("s", vec![file("a", 2)])],
    );
    let files = collect_files(&root);
    let dests: Vec<String> = files
        .iter()
        .map(|f| tree_file_destination("out", &f.rel_path))
        .collect();
    assert_eq!(dests, vec!["out/a", "out/s/a"]);
    assert_ne!(dests[0], dests[1]);
}

#[test]
fn unreadable_metadata_counts_as_zero() {
    let sizes: Vec<Option<u64>> = vec![Some(3), None, Some(4)];
    assert_eq!(total_size(&sizes), 7);
}

#[test]
fn total_of_no_files_is_zero() {
    let sizes: Vec<Option<u64>> = vec![];
    assert_eq!(total_size(&sizes), 0);
}

#[test]
fn large_sizes_sum_exactly() {
    let sizes: Vec<Option<u64>> = vec![Some(u64::MAX), Some(u64::MAX), Some(1)];
    assert_eq!(total_size(&sizes), 2 * (u64::MAX as u128) + 1);
}
