//! Core of a terminal note-taking program: the selectable lists, the note
//! store, and the state machine that interprets one key press at a time.
//!
//! Everything here works on plain values. Drawing the panes, reading keys
//! from the terminal and writing the notes to disk belong to the program
//! around this library.

pub mod app;
pub mod clock;
pub mod key;
pub mod machine;
pub mod note;
pub mod panes;
pub mod stateful_list;
pub mod text;
