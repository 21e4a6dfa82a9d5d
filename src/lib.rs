//! A small text editor's document logic: the state machine that owns the
//! buffer, the file path, the last error and the highlighting theme, and
//! the decisions around opening and saving files.

pub mod files;
pub mod toolkit;
pub mod editor;
