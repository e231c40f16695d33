use folio::files::{
    check_create, check_delete, deleted_reply, expiry_removes, io_failure_reply, refusal_reply,
    upsert_outcome, written_reply, Entry, FileError, FileResponse, IoStep, ValidatedPath, Written,
};

#[test]
fn create_on_free_path_proceeds() {
    assert_eq!(check_create(Entry::Missing), Ok(()));
    let reply = written_reply(Written::Created);
    assert_eq!(reply.status, 201);
    assert_eq!(reply.body.message(), "file created successfully");
}

#[test]
fn second_create_conflicts() {
    // After a first create the path holds a file.
    assert_eq!(check_create(Entry::File), Err(FileError::AlreadyExists));
    assert_eq!(check_create(Entry::Directory), Err(FileError::AlreadyExists));
    let reply = refusal_reply(FileError::AlreadyExists, "test.txt");
    assert_eq!(reply.status, 409);
    assert_eq!(reply.body.message(), "file already exists: test.txt");
}

#[test]
fn upsert_reports_created_then_updated() {
    assert_eq!(upsert_outcome(Entry::Missing), Written::Created);
    assert_eq!(upsert_outcome(Entry::File), Written::Updated);
    let reply = written_reply(Written::Updated);
    assert_eq!(reply.status, 200);
    assert_eq!(reply.body.message(), "file updated successfully");
}

#[test]
fn delete_checks_what_is_there() {
    assert_eq!(check_delete(Entry::File), Ok(()));
    assert_eq!(check_delete(Entry::Missing), Err(FileError::NotFound));
    assert_eq!(check_delete(Entry::Directory), Err(FileError::NotAFile));
    let reply = deleted_reply();
    assert_eq!(reply.status, 200);
    assert_eq!(reply.body.message(), "file deleted successfully");
}

#[test]
fn delete_refusals_have_their_statuses() {
    let missing = refusal_reply(FileError::NotFound, "nonexistent.txt");
    assert_eq!(missing.status, 404);
    assert_eq!(missing.body.message(), "file not found: nonexistent.txt");
    let dir = refusal_reply(FileError::NotAFile, "testdir");
    assert_eq!(dir.status, 400);
    assert_eq!(dir.body.message(), "path is not a file: testdir");
}

#[test]
fn every_error_has_a_status() {
    assert_eq!(FileError::PathInvalid.status(), 400);
    assert_eq!(FileError::AlreadyExists.status(), 409);
    assert_eq!(FileError::NotFound.status(), 404);
    assert_eq!(FileError::NotAFile.status(), 400);
    assert_eq!(FileError::IoFailure.status(), 500);
    assert_eq!(FileError::SchedulerDispatchFailure.status(), 500);
    assert_eq!(refusal_reply(FileError::IoFailure, "x").body.message(), "input/output failure: x");
    assert_eq!(
        refusal_reply(FileError::SchedulerDispatchFailure, "x").body.message(),
        "failed to schedule expiry: x"
    );
}

#[test]
fn expiry_delete_is_idempotent() {
    assert!(expiry_removes(Entry::File));
    assert!(!expiry_removes(Entry::Missing));
}

#[test]
fn io_failures_name_the_step() {
    let r = io_failure_reply(IoStep::CreateDirectories, "denied");
    assert_eq!(r.status, 500);
    assert_eq!(r.body.message(), "failed to create directories: denied");
    assert_eq!(io_failure_reply(IoStep::SaveFile, "full").body.message(), "failed to save file: full");
    assert_eq!(io_failure_reply(IoStep::DeleteFile, "busy").body.message(), "failed to delete file: busy");
}

#[test]
fn validated_path_refuses_dot_dot() {
    assert_eq!(ValidatedPath::from_path("a/b/../c/test.txt").err(), Some(FileError::PathInvalid));
    assert_eq!(ValidatedPath::from_path("../escape.txt").err(), Some(FileError::PathInvalid));
    assert_eq!(ValidatedPath::from_path("a..b").err(), Some(FileError::PathInvalid));
    let ok = ValidatedPath::from_path("a/c/test.txt").ok().unwrap();
    assert_eq!(ok.as_str(), "a/c/test.txt");
    assert_eq!(ValidatedPath::from_path("").ok().unwrap().as_str(), "");
    let reply = refusal_reply(FileError::PathInvalid, "a/../b");
    assert_eq!(reply.status, 400);
    assert_eq!(reply.body.message(), "path contains '..'");
}

#[test]
fn response_keeps_its_message() {
    assert_eq!(FileResponse::new("hi".to_string()).message(), "hi");
}

#[test]
fn delete_file_success() {
    // The file was created first, so the path holds a file.
    assert_eq!(check_delete(Entry::File), Ok(()));
    assert_eq!(deleted_reply().status, 200);
    // Afterwards nothing is there, and a second delete is refused.
    assert_eq!(check_delete(Entry::Missing), Err(FileError::NotFound));
}

#[test]
fn delete_file_not_found() {
    let e = check_delete(Entry::Missing).unwrap_err();
    let response = refusal_reply(e, "nonexistent.txt");
    assert_eq!(response.status, 404);
}

#[test]
fn rejects_parent_directory_traversal() {
    // The decoded request path `../escape.txt` lands in the uploads directory
    // itself, and a file that does not exist there yet is created.
    let config = folio::config::Folio {
        web_path: String::new(),
        uploads_path: String::from("/tmp/uploads"),
        garbage_collection_pattern: vec![],
    };
    let full = config.build_full_upload_path("/srv", "../escape.txt");
    assert_eq!(full, "/tmp/uploads/escape.txt");
    assert_eq!(check_create(Entry::Missing), Ok(()));
    assert_eq!(written_reply(Written::Created).status, 201);
}

#[test]
fn traversal_request_is_refused_or_contained() {
    let requested = "a/b/../c/test.txt";
    let refused = ValidatedPath::from_path(requested);
    assert_eq!(refused.err(), Some(FileError::PathInvalid));
    assert_eq!(refusal_reply(FileError::PathInvalid, requested).status, 400);
    // Even past that check, resolution keeps it below the uploads directory.
    let config = folio::config::Folio {
        web_path: String::new(),
        uploads_path: String::from("/files"),
        garbage_collection_pattern: vec![],
    };
    let full = config.build_full_upload_path("/", requested);
    assert!(full.starts_with("/files/"));
    assert!(!full.contains(".."));
}
