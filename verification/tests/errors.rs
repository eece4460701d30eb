use file_batches::cursor::{FilesBatchIterator, Step};
use file_batches::error::{file_error_text, DirectoryAccessError, FileReadError};
use file_batches::item::FileData;

#[test]
fn directory_error_message_names_path_and_reason() {
    let e = DirectoryAccessError {
        path: "/no/such/dir".to_string(),
        reason: "No such file or directory (os error 2)".to_string(),
    };
    assert_eq!(e.message(), "Error reading directory /no/such/dir: No such file or directory (os error 2)");
}

#[test]
fn file_error_message_quotes_the_path() {
    let e = FileReadError {
        path: "/d/b.bin".to_string(),
        reason: "Permission denied (os error 13)".to_string(),
    };
    assert_eq!(e.message(), "Error reading file \"/d/b.bin\": Permission denied (os error 13)");
}

#[test]
fn file_error_message_escapes_what_the_quotes_need() {
    let e = FileReadError { path: "/d/a \"b\"\n".to_string(), reason: "Is a directory (os error 21)".to_string() };
    assert_eq!(e.message(), "Error reading file \"/d/a \\\"b\\\"\\n\": Is a directory (os error 21)");
}

#[test]
fn file_error_text_joins_its_parts() {
    assert_eq!(file_error_text("<p>", "why"), "Error reading file <p>: why");
    assert_eq!(file_error_text("", ""), "Error reading file : ");
}

#[test]
fn failed_step_carries_the_message_parts() {
    let mut it = FilesBatchIterator::<FileData>::from_paths(vec!["/d/x".to_string()], None);
    match it.supply(Err("Is a directory (os error 21)".to_string())) {
        Step::Failed(e) => {
            assert_eq!(e.path, "/d/x");
            assert_eq!(e.reason, "Is a directory (os error 21)");
            assert_eq!(e.message(), "Error reading file \"/d/x\": Is a directory (os error 21)");
        }
        other => panic!("expected a failure, got {other:?}"),
    }
}
