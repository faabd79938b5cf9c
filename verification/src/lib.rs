//! Decision logic of a two-pane scratch-buffer front-end for an external diff
//! viewer: key dispatch, the event-loop state machine, external command lines,
//! screen layout and the content of each frame.
//!
//! The crate performs no input or output. A shell around it owns the terminal,
//! the scratch files and the child processes; it asks [`machine::step`] what to
//! do next and reports back what happened.

pub mod command;
pub mod keys;
pub mod layout;
pub mod machine;
pub mod safety;
pub mod view;
