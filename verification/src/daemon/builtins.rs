//! Daemon-builtin dispatch when no daemon is linked: no name is a
//! daemon builtin and nothing is dispatched.

use vstd::prelude::*;

verus! {

/// The names the daemon serves as builtins: none without a daemon.
pub const ZSHRS_BUILTIN_NAMES: [&'static str; 0] = [];

/// Whether `name` is a builtin served by the daemon. With no daemon
/// linked in, no name is.
pub fn is_zshrs_builtin(_name: &str) -> (r: bool)
    ensures
        !r,
{
    false
}

/// Dispatch `name` with `argv` to the daemon if it serves it. With no
/// daemon linked in, nothing is handled.
pub fn try_dispatch(_name: &str, _argv: &[String]) -> (r: Option<i32>)
    ensures
        r is None,
{
    None
}

/// Run the daemon builtin `name` with `args`. With no daemon linked in,
/// nothing runs.
pub fn dispatch(_name: &str, _args: &[String]) -> (r: Option<i32>)
    ensures
        r is None,
{
    None
}

} // verus!
