use devx_cmd::{Action, BinOrUtf8, Cmd, Launch, Stdio};
use std::path::PathBuf;

fn path(text: &str) -> PathBuf {
    PathBuf::from(text)
}

fn paths(texts: &[&str]) -> Vec<PathBuf> {
    texts.iter().map(|text| path(text)).collect()
}

fn launch(cmd: &Cmd) -> Launch {
    match cmd.spawn().action() {
        Action::Spawn(launch) => launch,
        _ => panic!("a session starts with its process"),
    }
}

fn args(cmd: &Cmd) -> Vec<PathBuf> {
    launch(cmd).args
}

#[test]
fn new_command_has_the_defaults() {
    let cmd = Cmd::new(path("cargo"));
    assert!(cmd.echoes_cmd());
    assert!(cmd.echoes_err());
    assert_eq!(cmd.stdin_data(), None);
    let launch = launch(&cmd);
    assert_eq!(launch.bin, path("cargo"));
    assert!(launch.args.is_empty());
    assert_eq!(cmd.arg_count(), 0);
    assert_eq!(launch.current_dir, None);
    assert_eq!(launch.stdin, Stdio::Null);
    assert_eq!(launch.stdout, Stdio::Inherit);
    assert_eq!(launch.stderr, Stdio::Inherit);
}

#[test]
fn builder_calls_chain() {
    let mut cmd = Cmd::new(path("cargo"));
    cmd.arg(path("metadata"))
        .arg2(path("--color"), path("never"))
        .args(paths(&["--verbose", "--no-deps", "--all-features"]))
        .replace_arg(3, path("--quiet"))
        .echo_cmd(false)
        .echo_err(false)
        .stdin("Hi".to_string())
        .stdin_bytes(vec![0, 1, 2]);
    assert_eq!(
        args(&cmd),
        paths(&["metadata", "--color", "never", "--quiet", "--no-deps", "--all-features"]),
    );
    assert!(!cmd.echoes_cmd());
    assert!(!cmd.echoes_err());
    assert_eq!(cmd.stdin_data(), Some(vec![0, 1, 2]));
    assert_eq!(
        cmd.to_string(),
        "cargo metadata --color never --quiet --no-deps --all-features\n\
         stdin <<< [bytes]: [0, 1, 2]",
    );
}

#[test]
fn last_stdin_stays() {
    let mut cmd = Cmd::new(path("cat"));
    cmd.stdin_bytes(vec![1]).stdin("b".to_string());
    assert_eq!(cmd.stdin_data(), Some(vec![b'b']));
    cmd.stdin("c".to_string());
    assert_eq!(cmd.stdin_data(), Some(vec![b'c']));
    assert_eq!(launch(&cmd).stdin, Stdio::Piped);
}

#[test]
fn last_binary_directory_and_logging_stay() {
    let mut cmd = Cmd::new(path("a"));
    cmd.bin(path("b")).bin(path("c"));
    cmd.current_dir(path("d")).current_dir(path("e"));
    cmd.echo_cmd(false).echo_cmd(true).echo_err(false).echo_err(true);
    let launch = launch(&cmd);
    assert_eq!(launch.bin, path("c"));
    assert_eq!(launch.current_dir, Some(path("e")));
    assert!(cmd.echoes_cmd() && cmd.echoes_err());
}

#[test]
fn arg2_is_two_times_arg() {
    let mut one = Cmd::new(path("x"));
    one.arg2(path("a"), path("b"));
    let mut two = Cmd::new(path("x"));
    two.arg(path("a")).arg(path("b"));
    assert_eq!(args(&one), args(&two));
    assert_eq!(args(&one), paths(&["a", "b"]));
}

#[test]
fn args_append_wherever_they_are_split() {
    let mut one = Cmd::new(path("x"));
    one.args(paths(&["a", "b", "c"])).args(vec![]);
    let mut two = Cmd::new(path("x"));
    two.args(paths(&["a"])).args(paths(&["b"])).arg(path("c"));
    assert_eq!(args(&one), args(&two));
    assert_eq!(args(&one), paths(&["a", "b", "c"]));
}

#[test]
fn replaced_argument_leaves_the_others() {
    let mut cmd = Cmd::new(path("x"));
    cmd.args(paths(&["a", "b", "c"])).replace_arg(1, path("z"));
    assert_eq!(args(&cmd), paths(&["a", "z", "c"]));
    assert_eq!(cmd.arg_count(), 3);
}

#[test]
fn changed_clone_leaves_the_command() {
    let mut cmd = Cmd::new(path("x"));
    cmd.arg(path("a")).stdin("in".to_string()).current_dir(path("d"));
    let mut copy = cmd.clone();
    copy.arg(path("b")).bin(path("y")).echo_cmd(false).stdin_bytes(vec![7]);
    assert_eq!(cmd.to_string(), "x a\n(at d)\nstdin <<< [utf8]: in");
    assert!(cmd.echoes_cmd());
    assert_eq!(copy.to_string(), "y a b\n(at d)\nstdin <<< [bytes]: [7]");
    assert!(!copy.echoes_cmd());
    cmd.arg(path("c"));
    assert_eq!(args(&copy), paths(&["a", "b"]));
}

#[test]
fn cloned_data_is_the_same() {
    let data = BinOrUtf8::Bin(vec![1, 2]);
    assert_eq!(data.clone().as_ref(), data.as_ref());
    assert_eq!(BinOrUtf8::Utf8("a".to_string()).clone().to_string(), "[utf8]: a");
}

#[test]
fn settings_can_be_made_in_any_order() {
    let mut one = Cmd::new(path("x"));
    one.bin(path("y")).current_dir(path("d")).stdin("in".to_string()).arg(path("a"));
    one.echo_cmd(false).echo_err(false);
    let mut other = Cmd::new(path("x"));
    other.echo_err(false).echo_cmd(false);
    other.arg(path("a")).stdin("in".to_string()).current_dir(path("d")).bin(path("y"));
    assert_eq!(one.to_string(), "y a\n(at d)\nstdin <<< [utf8]: in");
    assert_eq!(one.to_string(), other.to_string());
    assert_eq!(one.echoes_cmd(), other.echoes_cmd());
    assert_eq!(one.echoes_err(), other.echoes_err());
}
