//! Verified core of the zshrs in-editor completion service and the
//! crate-root dispatch hooks.

pub mod compsys;
pub mod daemon;
pub mod hooks;

pub use hooks::{register_native_command, set_stryke_handler, try_stryke_dispatch};
