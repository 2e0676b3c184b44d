//! Mapping the raw outcomes of file operations to the editor's messages.
//!
//! The runtime performs dialogs, reads and writes; each step hands its raw
//! outcome to one of these functions, which decide what the editor learns
//! from it. A dialog yields the chosen path or nothing; a read yields the
//! text or the text of the OS error kind; a write yields the error kind's
//! text when it fails.

use vstd::prelude::*;

verus! {

use crate::editor::EditorError;

/// The path of the file the editor opens at startup, relative to the
/// directory that holds the crate's manifest.
pub fn default_file(manifest_dir: &str) -> (p: String)
    ensures
        p@ == manifest_dir@ + "/src/main.rs"@,
{
    let mut p = manifest_dir.to_owned();
    p.append("/src/main.rs");
    p
}

/// What a file dialog's answer means: the chosen path, or `DialogClosed`
/// when the user dismissed the dialog.
pub fn picked_file(choice: Option<String>) -> (r: Result<String, EditorError>)
    ensures
        match choice {
            Some(path) => r == Ok::<String, EditorError>(path),
            None => r == Err::<String, EditorError>(EditorError::DialogClosed),
        },
{
    match choice {
        Some(path) => Ok(path),
        None => Err(EditorError::DialogClosed),
    }
}

/// What reading a file at `path` produced: on success the path together
/// with the text that was read, on failure the error kind as `IoFailed`.
pub fn load_outcome(path: String, read: Result<String, String>) -> (r: Result<
    (String, String),
    EditorError,
>)
    ensures
        match read {
            Ok(text) => r == Ok::<(String, String), EditorError>((path, text)),
            Err(kind) => r == Err::<(String, String), EditorError>(EditorError::IoFailed(kind)),
        },
{
    match read {
        Ok(text) => Ok((path, text)),
        Err(kind) => Err(EditorError::IoFailed(kind)),
    }
}

/// What writing to `path` produced: on success the path that now holds the
/// buffer, on failure the error kind as `IoFailed`.
pub fn save_outcome(path: String, write: Result<(), String>) -> (r: Result<String, EditorError>)
    ensures
        match write {
            Ok(_) => r == Ok::<String, EditorError>(path),
            Err(kind) => r == Err::<String, EditorError>(EditorError::IoFailed(kind)),
        },
{
    match write {
        Ok(_) => Ok(path),
        Err(kind) => Err(EditorError::IoFailed(kind)),
    }
}

} // verus!
