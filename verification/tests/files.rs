use lsp_proxy::files::{FileNode, extension_str, get_root_uri, is_ignored};

#[test]
fn nodes_are_tagged_directory_or_by_extension() {
    let dir = FileNode::new("/ws/test-java-repo/src".to_string(), "src".to_string(), true);
    assert_eq!(dir.file_type, "directory");
    assert_eq!(dir.name, "src");
    assert_eq!(dir.path, "/ws/test-java-repo/src");
    assert!(dir.children.is_empty());

    let file = FileNode::new(
        "/ws/test-java-repo/src/Hello.java".to_string(),
        "Hello.java".to_string(),
        false,
    );
    assert_eq!(file.file_type, "java");
    assert_eq!(file.name, "Hello.java");
}

#[test]
fn extensions_follow_the_last_dot() {
    assert_eq!(extension_str("archive.tar.gz"), "gz");
    assert_eq!(extension_str("Hello.java"), "java");
    assert_eq!(extension_str(".hidden"), "");
    assert_eq!(extension_str("noext"), "");
    assert_eq!(extension_str("trailing."), "");
}

#[test]
fn children_are_appended_and_found_by_name() {
    let mut root = FileNode::new("/ws".to_string(), "ws".to_string(), true);
    root.add_child(FileNode::new("/ws/src".to_string(), "src".to_string(), true));
    root.add_child(FileNode::new(
        "/ws/src/Hello.java".to_string(),
        "Hello.java".to_string(),
        false,
    ));
    assert_eq!(root.children.len(), 2);
    assert_eq!(root.find_child("src"), Some(0));
    assert_eq!(root.find_child("Hello.java"), Some(1));
    assert_eq!(root.find_child("Terro.java"), None);
}

#[test]
fn dot_entries_and_class_files_are_ignored() {
    assert!(is_ignored(".git"));
    assert!(is_ignored(".settings"));
    assert!(is_ignored("Hello.class"));
    assert!(!is_ignored("Hello.java"));
    assert!(!is_ignored("src"));
}

#[test]
fn root_uri_is_a_file_uri() {
    assert_eq!(get_root_uri("tmp/workspace"), "file:///tmp/workspace");
    assert_eq!(get_root_uri(""), "file:///");
}
