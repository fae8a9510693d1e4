use zsh::daemon::builtins::{dispatch, is_zshrs_builtin, try_dispatch, ZSHRS_BUILTIN_NAMES};
use zsh::hooks::{NativeCommands, StrykeHook};
use zsh::{register_native_command, set_stryke_handler, try_stryke_dispatch};

fn first(_: &str) -> i32 {
    1
}

fn second(_: &str) -> i32 {
    2
}

fn git_v1(_: &[String]) -> i32 {
    10
}

fn git_v2(argv: &[String]) -> i32 {
    20 + argv.len() as i32
}

fn arb(_: &[String]) -> i32 {
    30
}

#[test]
fn no_stryke_handler_means_not_handled() {
    let hook: StrykeHook<fn(&str) -> i32> = StrykeHook::new();
    assert_eq!(try_stryke_dispatch(&hook, "@print 1"), None);
}

#[test]
fn registered_stryke_handler_runs_on_the_line() {
    let mut hook = StrykeHook::new();
    set_stryke_handler(&mut hook, |code: &str| code.len() as i32);
    assert_eq!(try_stryke_dispatch(&hook, "@abc"), Some(4));
}

#[test]
fn first_stryke_handler_wins() {
    let mut hook: StrykeHook<fn(&str) -> i32> = StrykeHook::new();
    set_stryke_handler(&mut hook, first);
    set_stryke_handler(&mut hook, second);
    assert_eq!(try_stryke_dispatch(&hook, "@x"), Some(1));
}

#[test]
fn native_commands_dispatch_to_the_latest_registration() {
    let mut table: NativeCommands<fn(&[String]) -> i32> = NativeCommands::new();
    assert!(table.native_command("git").is_none());
    register_native_command(&mut table, "git", git_v1);
    register_native_command(&mut table, "arb", arb);
    let argv = vec!["status".to_string()];
    assert_eq!((table.native_command("git").expect("registered"))(&argv), 10);
    register_native_command(&mut table, "git", git_v2);
    assert_eq!((table.native_command("git").expect("registered"))(&argv), 21);
    assert_eq!((table.native_command("arb").expect("registered"))(&argv), 30);
    assert!(table.native_command("gi").is_none());
}

#[test]
fn daemon_builtins_are_absent_without_a_daemon() {
    let argv = vec!["x".to_string()];
    assert!(ZSHRS_BUILTIN_NAMES.is_empty());
    assert!(!is_zshrs_builtin("zd"));
    assert_eq!(try_dispatch("zd", &argv), None);
    assert_eq!(dispatch("zd", &argv), None);
}
