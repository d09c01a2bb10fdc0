use lsp_proxy::file_sync::{FileSyncType, Workspace};
use lsp_proxy::intercept::{apply_intercepted, intercept_notification, parent_dir};

#[test]
fn two_content_changes_apply_in_order() {
    let text = r#"{"method":"textDocument/didChange","params":{"textDocument":{"uri":"file:///tmp/ws/Hello.java","version":2},"contentChanges":[{"text":"first version"},{"text":"second version"}]}}"#;
    let cmds = intercept_notification(text);
    assert_eq!(cmds.len(), 2);
    assert_eq!(cmds[0].0, "/tmp/ws/Hello.java");
    assert_eq!(cmds[1].0, "/tmp/ws/Hello.java");
    assert!(matches!(cmds[0].1.reason, FileSyncType::Update));
    assert_eq!(cmds[0].1.name, "Hello.java");
    assert_eq!(cmds[0].1.text.as_deref(), Some("first version"));
    assert_eq!(cmds[1].1.text.as_deref(), Some("second version"));

    let mut ws = Workspace::new();
    ws.set_file("/tmp/ws/Hello.java".to_string(), "original".to_string());
    apply_intercepted(&mut ws, cmds);
    assert_eq!(ws.file_text("/tmp/ws/Hello.java").unwrap(), "second version");
}

#[test]
fn create_event_targets_the_containing_directory() {
    let text = r#"{"method":"workspace/didCreateFiles","params":{"files":[{"uri":"file:///tmp/ws/New.java"}]}}"#;
    let cmds = intercept_notification(text);
    assert_eq!(cmds.len(), 1);
    assert_eq!(cmds[0].0, "/tmp/ws");
    assert!(matches!(cmds[0].1.reason, FileSyncType::New));
    assert_eq!(cmds[0].1.name, "New.java");

    let mut ws = Workspace::new();
    ws.add_dir("/tmp/ws".to_string());
    apply_intercepted(&mut ws, cmds);
    assert_eq!(ws.file_text("/tmp/ws/New.java").unwrap(), "");
}

#[test]
fn delete_event_targets_the_file_itself() {
    let text = r#"{"method":"workspace/didDeleteFiles","params":{"files":[{"uri":"file:///tmp/ws/Old.java"}]}}"#;
    let cmds = intercept_notification(text);
    assert_eq!(cmds.len(), 1);
    assert_eq!(cmds[0].0, "/tmp/ws/Old.java");
    assert!(matches!(cmds[0].1.reason, FileSyncType::Delete));

    let mut ws = Workspace::new();
    ws.set_file("/tmp/ws/Old.java".to_string(), "old".to_string());
    apply_intercepted(&mut ws, cmds);
    assert!(!ws.has_file("/tmp/ws/Old.java"));
}

#[test]
fn malformed_text_yields_no_commands() {
    assert!(intercept_notification("{not json at all").is_empty());
    assert!(intercept_notification("").is_empty());
}

#[test]
fn unrecognized_methods_yield_no_commands() {
    assert!(intercept_notification(r#"{"method":"textDocument/didOpen","params":{}}"#).is_empty());
    assert!(intercept_notification(r#"{"method":"initialize","params":{}}"#).is_empty());
    // prefix matches are not enough: the three names are matched exactly
    assert!(
        intercept_notification(r#"{"method":"workspace/didRenameFiles","params":{}}"#).is_empty()
    );
    // a non-string method is skipped too
    assert!(intercept_notification(r#"{"method":42,"params":{}}"#).is_empty());
}

#[test]
fn unparsable_params_yield_no_commands() {
    let text = r#"{"method":"textDocument/didChange","params":{"wrong":"shape"}}"#;
    assert!(intercept_notification(text).is_empty());
    let text = r#"{"method":"textDocument/didChange"}"#;
    assert!(intercept_notification(text).is_empty());
}

#[test]
fn unmappable_uris_are_skipped() {
    let text = r#"{"method":"workspace/didCreateFiles","params":{"files":[{"uri":"not a uri"},{"uri":"file:///tmp/ws/Ok.java"}]}}"#;
    let cmds = intercept_notification(text);
    assert_eq!(cmds.len(), 1);
    assert_eq!(cmds[0].1.name, "Ok.java");
}

#[test]
fn parent_dir_drops_the_leaf() {
    assert_eq!(parent_dir("/tmp/ws/Hello.java"), "/tmp/ws");
    assert_eq!(parent_dir("noslash"), "");
}
