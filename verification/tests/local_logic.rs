use file_storage::local::{LocalFileStorage, RemoveTreeOutcome, remove_tree_result};

#[test]
fn resolve_concatenates_root_and_path() {
    let st = LocalFileStorage { root_path: String::from("/var/data") };
    assert_eq!(st.resolve("a/b.txt"), "/var/data/a/b.txt");
}

#[test]
fn resolve_with_empty_root_stays_relative_to_separator() {
    let st = LocalFileStorage { root_path: String::new() };
    assert_eq!(st.resolve("notes.md"), "/notes.md");
}

#[test]
fn resolve_does_not_normalize_separators() {
    let st = LocalFileStorage { root_path: String::from("/root/") };
    assert_eq!(st.resolve("/a"), "/root///a");
}

#[test]
fn remove_tree_missing_is_a_successful_noop() {
    assert!(remove_tree_result(RemoveTreeOutcome::Removed).is_ok());
    assert!(remove_tree_result(RemoveTreeOutcome::Missing).is_ok());
}

#[test]
fn remove_tree_propagates_host_failures() {
    match remove_tree_result(RemoveTreeOutcome::Failed(String::from("permission denied"))) {
        Err(e) => assert_eq!(e.message(), "permission denied"),
        Ok(()) => panic!("a host failure must be propagated"),
    }
}
