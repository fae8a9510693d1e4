//! Completion-system front ends.

pub mod clock;
pub mod compadd;
pub mod cursor;
pub mod in_editor;
