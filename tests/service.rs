use vividmark::diagnostics::{IoErrorKind, IoFailure};
use vividmark::naming::PathStyle;
use vividmark::service::{exists_as_file, finish_read, save_step, SaveAction, SaveEvent, SavePhase};

fn failure(kind: IoErrorKind, kind_name: &str, description: &str) -> IoFailure {
    IoFailure::new(kind, kind_name.to_string(), description.to_string())
}

#[test]
fn read_returns_content_unchanged_with_name() {
    let content = "# Title\n\nline two\r\n  ✓ done\n".to_string();
    let r = finish_read(PathStyle::Posix, "/a/b/notes.md".to_string(), Ok(content.clone())).unwrap();
    assert_eq!(r.path, "/a/b/notes.md");
    assert_eq!(r.content, content);
    assert_eq!(r.name, "notes.md");
}

#[test]
fn read_names_by_platform_style() {
    let posix = finish_read(PathStyle::Posix, "dir/a\\b.md".to_string(), Ok("x".to_string())).unwrap();
    assert_eq!(posix.name, "a\\b.md");
    let windows = finish_read(PathStyle::Windows, "dir/a\\b.md".to_string(), Ok("x".to_string())).unwrap();
    assert_eq!(windows.name, "b.md");
}

#[test]
fn read_of_empty_file_returns_empty_content() {
    let r = finish_read(PathStyle::Posix, "empty.md".to_string(), Ok(String::new())).unwrap();
    assert_eq!(r.content, "");
    assert_eq!(r.name, "empty.md");
}

#[test]
fn read_of_path_without_segment_gets_default_name() {
    let r = finish_read(PathStyle::Posix, "/docs/".to_string(), Ok("x".to_string())).unwrap();
    assert_eq!(r.name, "Untitled.md");
}

#[test]
fn read_of_missing_file_fails_with_read_message() {
    let e = failure(IoErrorKind::NotFound, "NotFound", "No such file or directory (os error 2)");
    let r = finish_read(PathStyle::Posix, "/nope/missing.md".to_string(), Err(e));
    let msg = r.unwrap_err();
    assert!(msg.contains("Failed to read file"));
    assert_eq!(msg, "Failed to read file: No such file or directory (os error 2)");
}

#[test]
fn read_of_invalid_utf8_fails() {
    let e = failure(IoErrorKind::InvalidData, "InvalidData", "stream did not contain valid UTF-8");
    let r = finish_read(PathStyle::Posix, "/a/bin.md".to_string(), Err(e));
    assert_eq!(r.unwrap_err(), "Failed to read file: stream did not contain valid UTF-8");
}

#[test]
fn exists_only_for_regular_files() {
    assert!(exists_as_file(true, true));
    assert!(!exists_as_file(true, false));
    assert!(!exists_as_file(false, false));
}

fn expect_finish_ok(action: SaveAction) {
    match action {
        SaveAction::Finish(Ok(r)) => {
            assert!(r.success);
            assert!(r.error.is_none());
        }
        other => panic!("expected a successful finish, got {:?}", other),
    }
}

#[test]
fn save_creates_missing_parents_then_writes() {
    let (phase, action) =
        save_step(SavePhase::ProbingParent, SaveEvent::ParentProbed(Some("/tmp/x/y".to_string())));
    assert_eq!(phase, SavePhase::CreatingParent);
    match action {
        SaveAction::CreateParent(dir) => assert_eq!(dir, "/tmp/x/y"),
        other => panic!("expected directory creation, got {:?}", other),
    }
    let (phase, action) = save_step(phase, SaveEvent::ParentCreated(Ok(())));
    assert_eq!(phase, SavePhase::Writing);
    assert!(matches!(action, SaveAction::Write));
    let (phase, action) = save_step(phase, SaveEvent::Written(Ok(())));
    assert_eq!(phase, SavePhase::Finished);
    expect_finish_ok(action);
}

#[test]
fn save_with_present_parent_writes_at_once() {
    let (phase, action) = save_step(SavePhase::ProbingParent, SaveEvent::ParentProbed(None));
    assert_eq!(phase, SavePhase::Writing);
    assert!(matches!(action, SaveAction::Write));
}

#[test]
fn save_twice_finishes_each_time_with_a_write() {
    for _ in 0..2 {
        let (phase, action) = save_step(SavePhase::ProbingParent, SaveEvent::ParentProbed(None));
        assert!(matches!(action, SaveAction::Write));
        let (phase, action) = save_step(phase, SaveEvent::Written(Ok(())));
        assert_eq!(phase, SavePhase::Finished);
        expect_finish_ok(action);
    }
}

#[test]
fn save_stops_when_directories_cannot_be_created() {
    let e = failure(IoErrorKind::Other, "NotADirectory", "Not a directory (os error 20)");
    let (phase, action) = save_step(SavePhase::CreatingParent, SaveEvent::ParentCreated(Err(e)));
    assert_eq!(phase, SavePhase::Finished);
    match action {
        SaveAction::Finish(Err(msg)) => {
            assert_eq!(msg, "Failed to create directory: Not a directory (os error 20)")
        }
        other => panic!("expected a directory error, got {:?}", other),
    }
}

#[test]
fn save_reports_write_failure() {
    let e = failure(IoErrorKind::PermissionDenied, "PermissionDenied", "Permission denied (os error 13)");
    let (phase, action) = save_step(SavePhase::Writing, SaveEvent::Written(Err(e)));
    assert_eq!(phase, SavePhase::Finished);
    match action {
        SaveAction::Finish(Err(msg)) => {
            assert_eq!(msg, "Failed to save file: Permission denied (os error 13)")
        }
        other => panic!("expected a write error, got {:?}", other),
    }
}
