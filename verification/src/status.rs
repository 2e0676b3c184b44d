//! The text shown in the editor's status bar.
//!
//! The left side of the bar describes the file: the message of the last
//! failed operation if one is recorded — the text of the I/O error kind,
//! or a fixed caption for a dismissed dialog — else the path of the
//! current file, else the caption for a file that was never saved. The
//! right side shows the cursor position, written one-based as
//! `line:column`.

use vstd::prelude::*;

verus! {

use crate::decimal::decimal;
use crate::decimal::append_decimal;
use crate::editor::EditorError;
use crate::editor::EditorState;

/// What the status bar says about the file in state `s`: the message of
/// the recorded error, if any, else the file's path, else the caption for
/// a file that was never saved.
pub open spec fn status_of(s: EditorState) -> Seq<char> {
    match s.error {
        Some(EditorError::IoFailed(kind)) => kind@,
        Some(EditorError::DialogClosed) => "Dialog dismissed"@,
        None => match s.path {
            Some(path) => path@,
            None => "New File"@,
        },
    }
}

/// The file description on the left of the status bar.
pub fn status_text(s: &EditorState) -> (t: String)
    ensures
        t@ == status_of(*s),
{
    match &s.error {
        Some(EditorError::IoFailed(kind)) => kind.clone(),
        Some(EditorError::DialogClosed) => String::from_str("Dialog dismissed"),
        None => match &s.path {
            Some(path) => path.clone(),
            None => String::from_str("New File"),
        },
    }
}

/// What the cursor caption says for a cursor on `line`, `column` (both
/// counted from zero): the two numbers one-based, separated by a colon.
pub open spec fn caption_of(line: nat, column: nat) -> Seq<char> {
    decimal(line + 1) + ":"@ + decimal(column + 1)
}

/// The cursor caption on the right of the status bar.
pub fn cursor_caption(line: usize, column: usize) -> (t: String)
    requires
        line < usize::MAX,
        column < usize::MAX,
    ensures
        t@ == caption_of(line as nat, column as nat),
{
    let mut t = String::new();
    append_decimal(&mut t, line + 1);
    t.append(":");
    append_decimal(&mut t, column + 1);
    proof {
        assert(t@ =~= caption_of(line as nat, column as nat));
    }
    t
}

} // verus!
