use time_rs::fs_model::{FsDirEntry, FsNode};
use time_rs::progress::{label_and_mode, DisplayMode, ProgressNode};
use time_rs::reaper::reap_model;

fn destroy_node() -> ProgressNode {
    let mode = DisplayMode::WithThroughputAndPercentage;
    let files = label_and_mode("files".to_string(), mode);
    let mut node = ProgressNode::new("test".to_string());
    node.init(Some(0), Some(files));
    node
}

fn file(name: &str) -> FsDirEntry {
    FsDirEntry { name: name.to_string(), node: FsNode::File }
}

fn dir(name: &str, entries: Vec<FsDirEntry>) -> FsDirEntry {
    FsDirEntry { name: name.to_string(), node: FsNode::Dir(entries) }
}

#[test]
fn remove_folder_empty_directory() {
    let tree = FsNode::Dir(vec![]);
    let root = "/tmp/empty_dir".to_string();
    let mut progress = destroy_node();

    let (walk, removed) = reap_model(&root, &tree, &mut progress);

    assert!(walk.finished);
    assert!(!walk.failed);
    assert_eq!(removed, vec!["/tmp/empty_dir".to_string()]);
    assert_eq!(progress.current, 1);
    assert_eq!(progress.max_value, Some(0));
}

#[test]
fn remove_folder_with_files() {
    let tree = FsNode::Dir(vec![file("file1.txt"), file("file2.txt")]);
    let root = "/tmp/dir_with_files".to_string();
    let mut progress = destroy_node();

    let (walk, removed) = reap_model(&root, &tree, &mut progress);

    assert!(walk.finished);
    assert_eq!(
        removed,
        vec![
            "/tmp/dir_with_files/file1.txt".to_string(),
            "/tmp/dir_with_files/file2.txt".to_string(),
            "/tmp/dir_with_files".to_string(),
        ]
    );
    assert_eq!(progress.current, 3);
    assert_eq!(progress.max_value, Some(2));
}

#[test]
fn remove_folder_nested_directories() {
    // nested/level1/file_at_level1.txt, nested/level1/level2/file_at_level2.txt,
    // nested/sibling/sibling_file.txt
    let tree = FsNode::Dir(vec![
        dir(
            "level1",
            vec![file("file_at_level1.txt"), dir("level2", vec![file("file_at_level2.txt")])],
        ),
        dir("sibling", vec![file("sibling_file.txt")]),
    ]);
    let root = "/tmp/nested".to_string();
    let mut progress = destroy_node();

    let (walk, removed) = reap_model(&root, &tree, &mut progress);

    assert!(walk.finished);
    // Children strictly precede their directory, in entry order.
    assert_eq!(
        removed,
        vec![
            "/tmp/nested/level1/file_at_level1.txt".to_string(),
            "/tmp/nested/level1/level2/file_at_level2.txt".to_string(),
            "/tmp/nested/level1/level2".to_string(),
            "/tmp/nested/level1".to_string(),
            "/tmp/nested/sibling/sibling_file.txt".to_string(),
            "/tmp/nested/sibling".to_string(),
            "/tmp/nested".to_string(),
        ]
    );
    assert_eq!(progress.current, 7);
    // Entries encountered: 2 at the root, 2 in level1, 1 in level2, 1 in sibling.
    assert_eq!(progress.max_value, Some(6));
}

#[test]
fn remove_folder_updates_progress_correctly() {
    // progress_test/file1.txt and progress_test/sub/file2.txt.
    let tree = FsNode::Dir(vec![file("file1.txt"), dir("sub", vec![file("file2.txt")])]);
    let root = "/tmp/progress_test".to_string();
    let mut progress = destroy_node();

    let (walk, removed) = reap_model(&root, &tree, &mut progress);

    assert!(walk.finished);
    assert_eq!(removed.last(), Some(&"/tmp/progress_test".to_string()));
    // The root read finds 2 entries, the read of sub finds 1: max = 2 + 1 = 3.
    assert_eq!(progress.max_value, Some(3));
}

#[test]
fn remove_folder_extends_base_maximum() {
    // A walk extends whatever maximum the node already declares.
    let tree = FsNode::Dir(vec![file("a")]);
    let root = "/tmp/base".to_string();
    let mut progress = destroy_node();
    progress.set_max(Some(10));
    progress.inc();

    let (walk, _removed) = reap_model(&root, &tree, &mut progress);

    assert!(walk.finished);
    assert_eq!(progress.max_value, Some(11));
    assert_eq!(progress.current, 3);
}
