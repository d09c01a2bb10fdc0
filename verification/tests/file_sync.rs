use lsp_proxy::file_sync::{
    FileSyncCommand, FileSyncError, FileSyncType, IoFailure, Workspace, map_io_err,
};

fn update(name: &str, text: Option<&str>) -> FileSyncCommand {
    FileSyncCommand {
        reason: FileSyncType::Update,
        name: name.to_string(),
        text: text.map(|t| t.to_string()),
    }
}

#[test]
fn check_update_file_works() {
    let initial_contents = "Hello World!";
    let expected_contents = "Hello World!!! \n How do?";
    let mut ws = Workspace::new();
    ws.set_file("/tmp/test.txt".to_string(), initial_contents.to_string());

    ws.handle_file_sync("/tmp/test.txt", update("test.txt", Some(expected_contents)))
        .expect("Error in updating file!");

    let actual_contents = ws.file_text("/tmp/test.txt").expect("could not read test file!");
    assert_eq!(actual_contents, expected_contents);
    assert_eq!(expected_contents.len(), actual_contents.len());
}

#[test]
fn update_with_absent_text_is_a_no_op() {
    let mut ws = Workspace::new();
    ws.set_file("/tmp/a.txt".to_string(), "before".to_string());
    let r = ws.handle_file_sync("/tmp/a.txt", update("a.txt", None));
    assert!(r.is_ok());
    assert_eq!(ws.file_text("/tmp/a.txt").unwrap(), "before");
}

#[test]
fn update_of_missing_file_is_not_found() {
    let mut ws = Workspace::new();
    let r = ws.handle_file_sync("/tmp/missing.txt", update("missing.txt", Some("x")));
    match r {
        Err(e @ FileSyncError::NotFound) => assert_eq!(e.status_code(), 404),
        _ => panic!("expected NotFound"),
    }
    assert!(!ws.has_file("/tmp/missing.txt"));
}

#[test]
fn create_makes_an_empty_file_in_a_directory() {
    let mut ws = Workspace::new();
    ws.add_dir("/tmp/dir".to_string());
    let cmd = FileSyncCommand {
        reason: FileSyncType::New,
        name: "Newfile.txt".to_string(),
        text: Some("Hello World!".to_string()),
    };
    ws.handle_file_sync("/tmp/dir", cmd).expect("Error in creating file!");
    // the text plays no part in creation: the file starts empty
    assert_eq!(ws.file_text("/tmp/dir/Newfile.txt").unwrap(), "");
}

#[test]
fn create_outside_a_directory_is_a_bad_request() {
    let mut ws = Workspace::new();
    let cmd = FileSyncCommand {
        reason: FileSyncType::New,
        name: "Newfile.txt".to_string(),
        text: None,
    };
    let r = ws.handle_file_sync("/tmp/nodir", cmd);
    match r {
        Err(e @ FileSyncError::BadClientData { .. }) => {
            assert_eq!(e.status_code(), 400);
            assert_eq!(
                e.message(),
                "Sync unsuccessful: Cannot create new file in non-directory."
            );
        }
        _ => panic!("expected BadClientData"),
    }
    assert!(!ws.has_file("/tmp/nodir/Newfile.txt"));
}

#[test]
fn delete_removes_a_tracked_file() {
    let mut ws = Workspace::new();
    ws.set_file("/tmp/x.txt".to_string(), "x".to_string());
    let cmd = FileSyncCommand {
        reason: FileSyncType::Delete,
        name: "x.txt".to_string(),
        text: None,
    };
    ws.handle_file_sync("/tmp/x.txt", cmd).expect("delete failed");
    assert!(!ws.has_file("/tmp/x.txt"));
}

#[test]
fn delete_of_missing_path_is_not_found() {
    let mut ws = Workspace::new();
    let cmd = FileSyncCommand {
        reason: FileSyncType::Delete,
        name: "x.txt".to_string(),
        text: None,
    };
    let r = ws.handle_file_sync("/tmp/x.txt", cmd);
    assert!(matches!(r, Err(FileSyncError::NotFound)));
}

#[test]
fn io_failures_are_classified() {
    let e = map_io_err(IoFailure { not_found: true, message: "gone".to_string() });
    assert!(matches!(e, FileSyncError::NotFound));
    assert_eq!(e.status_code(), 404);
    assert_eq!(e.message(), "Sync unsuccessful: file not found");

    let e = map_io_err(IoFailure { not_found: false, message: "disk on fire".to_string() });
    assert_eq!(e.status_code(), 500);
    assert_eq!(e.message(), "Sync unsuccessful: internal error disk on fire");
}

#[test]
fn timeout_maps_to_gateway_timeout() {
    let e = FileSyncError::Timeout;
    assert_eq!(e.status_code(), 504);
    assert_eq!(e.message(), "Sync unsuccessful: timeout");
}
