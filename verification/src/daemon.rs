//! Built-in dispatch surface used when the daemon is not linked in.

pub mod builtins;
