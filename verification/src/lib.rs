//! Core logic of a small text editor.
//!
//! The editor keeps three pieces of state: the path of the file being
//! edited (if one is known), the text buffer, and the error of the last
//! failed file operation (if any). Everything the editor does is a state
//! transition driven by a message; a transition may in addition ask the
//! surrounding runtime to start one file operation. The runtime performs
//! the operation (dialogs, reading, writing) and reports its outcome back
//! as another message.
//!
//! This crate holds the state, the transition function, the mapping from
//! raw operation outcomes to messages, and the text shown in the status
//! bar. Widgets, dialogs and file I/O live outside it: they hand plain
//! values in and take plain values back.

pub mod decimal;
pub mod editor;
pub mod files;
pub mod status;
