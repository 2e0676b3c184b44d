//! The editor's state and its message-driven transitions.

use vstd::prelude::*;

verus! {

/// Why a file operation produced no result: the user dismissed the native
/// dialog, or the operating system refused the read or write. The string
/// carried by `IoFailed` is the text that describes the OS error kind.
#[derive(Debug, Clone, PartialEq, Eq)]
pub enum EditorError {
    DialogClosed,
    IoFailed(String),
}

/// A file operation the runtime must start after a transition.
///
/// `Load` reads the file at the given path. `Browse` lets the user pick a
/// file, then reads it. `SaveTo` writes the given text to the given path,
/// asking the user for a destination first when no path is known.
#[derive(Debug, Clone, PartialEq, Eq)]
pub enum Task {
    Load(String),
    Browse,
    SaveTo(Option<String>, String),
}

/// Everything the editor reacts to: the three toolbar actions, an edit of
/// the buffer (carrying the buffer's text after the edit was applied), and
/// the outcome of a finished file operation. A successful load reports the
/// path that was read and the text found there; a successful save reports
/// the path that was written.
#[derive(Debug, PartialEq, Eq)]
pub enum Message {
    New,
    Open,
    Save,
    Edit(String),
    FileOpened(Result<(String, String), EditorError>),
    FileSaved(Result<String, EditorError>),
}

/// The whole state of the editor.
#[derive(Debug, Clone, PartialEq, Eq)]
pub struct EditorState {
    /// The path of the file being edited, once one is known.
    pub path: Option<String>,
    /// The text buffer.
    pub buffer: String,
    /// The error of the last failed operation. The next edit (or `New`)
    /// clears it and the next failure replaces it; a successful operation
    /// leaves it as it is.
    pub error: Option<EditorError>,
}

/// The transition relation of the editor: for a state `pre` and a message
/// `m`, which states `post` and which started operations `t` a correct
/// transition may produce.
///
/// * `New` clears the path, the buffer and the error.
/// * `Open` leaves the state alone and starts a `Browse` operation.
/// * `Save` leaves the state alone and starts a `SaveTo` operation with
///   the current path and buffer.
/// * `Edit` replaces the buffer and clears the error.
/// * A successful load sets the path and the buffer; a successful save
///   sets the path; a failure of either records the error and changes
///   nothing else.
pub open spec fn step(pre: EditorState, m: Message, post: EditorState, t: Option<Task>) -> bool {
    match m {
        Message::New => {
            &&& post.path is None
            &&& post.buffer@ == Seq::<char>::empty()
            &&& post.error is None
            &&& t is None
        },
        Message::Open => {
            &&& post == pre
            &&& t == Some(Task::Browse)
        },
        Message::Save => {
            &&& post == pre
            &&& t == Some(Task::SaveTo(pre.path, pre.buffer))
        },
        Message::Edit(text) => {
            &&& post.path == pre.path
            &&& post.buffer == text
            &&& post.error is None
            &&& t is None
        },
        Message::FileOpened(outcome) => match outcome {
            Ok((path, text)) => {
                &&& post.path == Some(path)
                &&& post.buffer == text
                &&& post.error == pre.error
                &&& t is None
            },
            Err(e) => {
                &&& post.path == pre.path
                &&& post.buffer == pre.buffer
                &&& post.error == Some(e)
                &&& t is None
            },
        },
        Message::FileSaved(outcome) => match outcome {
            Ok(path) => {
                &&& post.path == Some(path)
                &&& post.buffer == pre.buffer
                &&& post.error == pre.error
                &&& t is None
            },
            Err(e) => {
                &&& post.path == pre.path
                &&& post.buffer == pre.buffer
                &&& post.error == Some(e)
                &&& t is None
            },
        },
    }
}

impl EditorState {
    /// The state the editor starts in, together with the operation that
    /// loads the startup file: no path and no error, the buffer holding
    /// the given placeholder text until the load finishes.
    pub fn new(initial_text: String, startup_path: String) -> (r: (EditorState, Task))
        ensures
            r.0.path is None,
            r.0.buffer == initial_text,
            r.0.error is None,
            r.1 == Task::Load(startup_path),
    {
        (
            EditorState { path: None, buffer: initial_text, error: None },
            Task::Load(startup_path),
        )
    }

    /// Apply one message to the state and return the file operation, if
    /// any, that the runtime must start.
    pub fn update(&mut self, message: Message) -> (t: Option<Task>)
        ensures
            step(*old(self), message, *final(self), t),
    {
        match message {
            Message::New => {
                self.path = None;
                self.buffer = String::new();
                self.error = None;
                None
            },
            Message::Open => Some(Task::Browse),
            Message::Save => {
                let path = match &self.path {
                    Some(p) => Some(p.clone()),
                    None => None,
                };
                Some(Task::SaveTo(path, self.buffer.clone()))
            },
            Message::Edit(text) => {
                self.buffer = text;
                self.error = None;
                None
            },
            Message::FileOpened(Ok((path, text))) => {
                self.path = Some(path);
                self.buffer = text;
                None
            },
            Message::FileOpened(Err(e)) => {
                self.error = Some(e);
                None
            },
            Message::FileSaved(Ok(path)) => {
                self.path = Some(path);
                None
            },
            Message::FileSaved(Err(e)) => {
                self.error = Some(e);
                None
            },
        }
    }

    /// The window title.
    pub fn title(&self) -> (t: String)
        ensures
            t@ == "Nixary Editor"@,
    {
        String::from_str("Nixary Editor")
    }
}

} // verus!
