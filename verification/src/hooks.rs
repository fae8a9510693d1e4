//! Hooks the linking binary fills: the handler for `@`-prefixed lines and
//! the native commands it contributes.

use vstd::prelude::*;

verus! {

/// The slot for the `@`-prefix handler. A thin binary leaves it empty;
/// a fat binary registers its runtime once at startup.
pub struct StrykeHook<F> {
    handler: Option<F>,
}

impl<F> StrykeHook<F> {
    /// An empty slot.
    pub fn new() -> (r: Self)
        ensures
            r.registered() is None,
    {
        StrykeHook { handler: None }
    }

    /// The registered handler, if any.
    pub closed spec fn registered(&self) -> Option<F> {
        self.handler
    }
}

/// The slot after registering `f` in a slot holding `h`: the first
/// registration stays, a later one is ignored.
pub open spec fn after_registration<F>(h: Option<F>, f: F) -> Option<F> {
    match h {
        Some(_) => h,
        None => Some(f),
    }
}

/// Register a handler for `@`-prefixed lines. Only the first
/// registration takes effect.
pub fn set_stryke_handler<F>(hook: &mut StrykeHook<F>, f: F) where
    F: Fn(&str) -> i32 + Send + Sync + 'static,

    ensures
        final(hook).registered() == after_registration(old(hook).registered(), f),
{
    if hook.handler.is_none() {
        hook.handler = Some(f);
    }
}

/// Try to dispatch a line starting with `@` to the registered handler:
/// `Some(exit_code)` from the handler when one is registered, `None`
/// when none is.
pub fn try_stryke_dispatch<F>(hook: &StrykeHook<F>, code: &str) -> (r: Option<i32>) where
    F: Fn(&str) -> i32,

    requires
        hook.registered() matches Some(f) ==> f.requires((code,)),
    ensures
        hook.registered() is None ==> r is None,
        hook.registered() matches Some(f) ==> r matches Some(v) && f.ensures((code,), v),
{
    match &hook.handler {
        Some(f) => Some(f(code)),
        None => None,
    }
}

/// Registering twice keeps the first handler: once a handler is in the
/// slot, no later registration replaces it.
pub proof fn lemma_first_registration_wins<F>(h: Option<F>, f: F, g: F)
    ensures
        after_registration(after_registration(h, f), g) == after_registration(h, f),
        h is None ==> after_registration(after_registration(h, f), g) == Some(f),
{
}

/// The native commands the linking binary contributed, in registration
/// order.
pub struct NativeCommands<F> {
    entries: Vec<(String, F)>,
}

/// The handler registered last under `name` among `entries`.
pub open spec fn latest<F>(entries: Seq<(String, F)>, name: Seq<char>) -> Option<F>
    decreases entries.len(),
{
    if entries.len() == 0 {
        None
    } else if entries.last().0@ == name {
        Some(entries.last().1)
    } else {
        latest(entries.drop_last(), name)
    }
}

impl<F> NativeCommands<F> {
    /// A table with no native command.
    pub fn new() -> (r: Self)
        ensures
            forall|name: Seq<char>| #[trigger] r.handler(name) is None,
    {
        NativeCommands { entries: Vec::new() }
    }

    /// The registrations, in order.
    pub closed spec fn registrations(&self) -> Seq<(String, F)> {
        self.entries@
    }

    /// The handler `name` dispatches to: the one registered last under it.
    pub open spec fn handler(&self, name: Seq<char>) -> Option<F> {
        latest(self.registrations(), name)
    }

    /// The handler for `name`, if one was registered.
    pub fn native_command(&self, name: &str) -> (r: Option<&F>)
        ensures
            match self.handler(name@) {
                Some(f) => r matches Some(g) && *g == f,
                None => r is None,
            },
    {
        let mut i: usize = self.entries.len();
        assert(self.entries@.take(i as int) =~= self.entries@);
        while i > 0
            invariant
                i <= self.entries@.len(),
                latest(self.entries@, name@) == latest(self.entries@.take(i as int), name@),
            decreases i,
        {
            let ghost pre = self.entries@.take(i as int);
            assert(pre.last() == self.entries@[i - 1]);
            assert(pre.drop_last() =~= self.entries@.take(i - 1));
            if self.entries[i - 1].0 == name.to_owned() {
                return Some(&self.entries[i - 1].1);
            }
            i = i - 1;
        }
        None
    }
}

/// Register a native command contributed by the linking binary: from now
/// on `name` dispatches in-process to `f`, replacing an earlier
/// registration under the same name; other names are unaffected.
pub fn register_native_command<F>(table: &mut NativeCommands<F>, name: &str, f: F) where
    F: Fn(&[String]) -> i32 + Send + Sync + 'static,

    ensures
        final(table).handler(name@) == Some(f),
        forall|other: Seq<char>|
            other != name@ ==> #[trigger] final(table).handler(other) == old(table).handler(other),
{
    table.entries.push((name.to_owned(), f));
    proof {
        assert(table.entries@.drop_last() =~= old(table).entries@);
    }
}

} // verus!
