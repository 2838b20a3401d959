use time_rs::error::Error;
use time_rs::progress::{label_and_mode, DisplayMode, ProgressNode};

#[test]
fn progress_node_counts_and_extends() {
    let mut node = ProgressNode::new("work".to_string());
    assert_eq!(node.current, 0);
    assert_eq!(node.max(), None);

    let unit = label_and_mode("files".to_string(), DisplayMode::Plain);
    node.init(Some(2), Some(unit));
    assert_eq!(node.max(), Some(2));

    node.inc();
    node.inc();
    assert_eq!(node.current, 2);

    // Work discovered incrementally: the maximum is raised first.
    node.set_max(Some(3));
    node.inc();
    assert_eq!(node.current, 3);
    assert_eq!(node.max(), Some(3));
}

#[test]
fn progress_children_keep_creation_order() {
    let mut node = ProgressNode::new("clone".to_string());
    let first = node.add_child("fetch".to_string());
    let second = node.add_child("checkout".to_string());

    assert_eq!(first, 0);
    assert_eq!(second, 1);
    assert_eq!(node.children.len(), 2);
    assert_eq!(node.children[0].label, "fetch");
    assert_eq!(node.children[1].label, "checkout");
    assert_eq!(node.children[0].current, 0);
}

#[test]
fn progress_done_attaches_message_and_keeps_counting() {
    let mut node = ProgressNode::new("destroying repo".to_string());
    node.inc();
    node.done("destroyed".to_string());
    assert_eq!(node.completion.as_deref(), Some("destroyed"));

    // Logical completion does not freeze the counter.
    node.inc();
    assert_eq!(node.current, 2);
    assert_eq!(node.completion.as_deref(), Some("destroyed"));
}

#[test]
fn error_prefixes_are_distinct_and_stable() {
    let errors = vec![
        Error::NoDataDirectoryConfigured,
        Error::FilesystemIO("detail".to_string()),
        Error::EngineInitializationFailed("detail".to_string()),
        Error::EngineCloneSetupFailed("detail".to_string()),
        Error::EngineFetchFailed("detail".to_string()),
        Error::EngineCheckoutFailed("detail".to_string()),
        Error::UrlParseFailed("detail".to_string()),
        Error::DestructiveOperationRequiresConfirmation("detail".to_string()),
        Error::BackgroundTaskJoinFailed("detail".to_string()),
    ];

    let mut prefixes: Vec<&'static str> = errors.iter().map(|e| e.message_prefix()).collect();
    prefixes.sort_unstable();
    let len_before = prefixes.len();
    prefixes.dedup();
    assert_eq!(prefixes.len(), len_before);
}

#[test]
fn error_prefix_does_not_leak_engine_text() {
    let e = Error::UrlParseFailed("not-a-valid-url".to_string());
    assert_eq!(e.message_prefix(), "URL parsing failed");

    let e = Error::DestructiveOperationRequiresConfirmation("repo destroy".to_string());
    assert_eq!(e.message_prefix(), "destructive operation, confirmation required");
}
