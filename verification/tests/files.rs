use nixary::editor::EditorError;
use nixary::files::{default_file, load_outcome, picked_file, save_outcome};

#[test]
fn default_file_is_the_crate_main_source() {
    assert_eq!(default_file("/home/me/project"), "/home/me/project/src/main.rs");
}

#[test]
fn a_picked_file_is_its_path() {
    assert_eq!(
        picked_file(Some("/tmp/a.txt".to_string())),
        Ok("/tmp/a.txt".to_string())
    );
}

#[test]
fn a_dismissed_dialog_is_dialog_closed() {
    assert_eq!(picked_file(None), Err(EditorError::DialogClosed));
}

#[test]
fn a_successful_read_keeps_path_and_text() {
    assert_eq!(
        load_outcome("/tmp/a.txt".to_string(), Ok("contents".to_string())),
        Ok(("/tmp/a.txt".to_string(), "contents".to_string()))
    );
}

#[test]
fn a_failed_read_is_io_failed() {
    assert_eq!(
        load_outcome("/tmp/a.txt".to_string(), Err("not found".to_string())),
        Err(EditorError::IoFailed("not found".to_string()))
    );
}

#[test]
fn a_successful_write_keeps_the_path() {
    assert_eq!(
        save_outcome("/tmp/a.txt".to_string(), Ok(())),
        Ok("/tmp/a.txt".to_string())
    );
}

#[test]
fn a_failed_write_is_io_failed() {
    assert_eq!(
        save_outcome("/tmp/a.txt".to_string(), Err("read-only".to_string())),
        Err(EditorError::IoFailed("read-only".to_string()))
    );
}
