use devx_cmd::search::wants_extension;
use devx_cmd::{Cmd, Search};
use std::path::PathBuf;

fn path(text: &str) -> PathBuf {
    PathBuf::from(text)
}

/// Looks at the paths in turn, and tells which were looked at and what was found.
fn look(search: Search, files: &[&str]) -> (Vec<PathBuf>, Option<Cmd>) {
    let mut probed = Vec::new();
    let mut search = search;
    while let Some(probe) = search.probe() {
        let is_file = files.iter().any(|file| path(file) == probe);
        probed.push(probe);
        match search.answer(is_file) {
            Ok(cmd) => return (probed, Some(cmd)),
            Err(rest) => search = rest,
        }
    }
    (probed, None)
}

fn found(search: Search, files: &[&str]) -> Option<String> {
    look(search, files).1.map(|cmd| cmd.to_string())
}

#[test]
fn file_at_the_path_is_found() {
    let (probed, cmd) = look(Cmd::try_at(path("bin/x"), ""), &["bin/x"]);
    assert_eq!(probed, vec![path("bin/x")]);
    let cmd = match cmd {
        Some(cmd) => cmd,
        None => panic!("a command expected"),
    };
    assert_eq!(cmd.to_string(), "bin/x");
    assert!(cmd.echoes_cmd() && cmd.echoes_err());
}

#[test]
fn nothing_is_found_where_there_is_no_file() {
    let (probed, cmd) = look(Cmd::try_at(path("bin/x"), ""), &["x"]);
    assert_eq!(probed, vec![path("bin/x")]);
    assert!(cmd.is_none());
}

#[test]
fn path_without_extension_is_retried_with_one() {
    let (probed, _) = look(Cmd::try_at(path("bin/x"), "exe"), &[]);
    assert_eq!(probed, vec![path("bin/x"), path("bin/x.exe")]);
    assert_eq!(
        found(Cmd::try_at(path("bin/x"), "exe"), &["bin/x.exe"]),
        Some("bin/x.exe".to_string()),
    );
    assert_eq!(
        found(Cmd::try_at(path("bin/x"), "exe"), &["bin/x.exe", "bin/x"]),
        Some("bin/x".to_string()),
    );
}

#[test]
fn path_with_extension_is_not_retried() {
    let (probed, cmd) = look(Cmd::try_at(path("bin/x.sh"), "exe"), &["bin/x.exe"]);
    assert_eq!(probed, vec![path("bin/x.sh")]);
    assert!(cmd.is_none());
}

#[test]
fn extension_is_wanted_where_binaries_have_one_and_the_path_has_none() {
    assert!(wants_extension("exe", &None));
    assert!(!wants_extension("", &None));
    assert!(!wants_extension("exe", &Some(path("sh"))));
    assert!(!wants_extension("exe", &Some(path(""))));
}

#[test]
fn first_directory_with_the_binary_is_taken() {
    let dirs = Some(vec![path("/usr/local/bin"), path("/usr/bin/"), path("/bin")]);
    let search = Cmd::lookup_in_path("ls", &dirs, "");
    assert_eq!(found(search, &["/bin/ls", "/usr/bin/ls"]), Some("/usr/bin/ls".to_string()));
    let (probed, cmd) = look(Cmd::lookup_in_path("ls", &dirs, ""), &["ls"]);
    assert_eq!(probed, vec![path("/usr/local/bin/ls"), path("/usr/bin/ls"), path("/bin/ls")]);
    assert!(cmd.is_none());
}

#[test]
fn directories_are_tried_one_after_the_other() {
    let dirs = Some(vec![path("a"), path("b")]);
    let (probed, _) = look(Cmd::lookup_in_path("x", &dirs, "exe"), &[]);
    assert_eq!(probed, vec![path("a/x"), path("a/x.exe"), path("b/x"), path("b/x.exe")]);
    assert_eq!(
        found(Cmd::lookup_in_path("x", &dirs, "exe"), &["b/x", "a/x.exe"]),
        Some("a/x.exe".to_string()),
    );
}

#[test]
fn nothing_is_found_in_no_directory() {
    let (probed, cmd) = look(Cmd::lookup_in_path("x", &Some(vec![]), ""), &["x"]);
    assert!(probed.is_empty());
    assert!(cmd.is_none());
}

#[test]
fn nothing_is_found_where_path_is_not_set() {
    for exe_extension in ["", "exe"] {
        let (probed, cmd) = look(Cmd::lookup_in_path("x", &None, exe_extension), &["x", "x.exe"]);
        assert!(probed.is_empty());
        assert!(cmd.is_none());
    }
}

#[test]
fn finished_search_stays_finished() {
    let search = match Cmd::try_at(path("x"), "").answer(false) {
        Ok(_) => panic!("nothing was there"),
        Err(rest) => rest,
    };
    assert!(search.probe().is_none());
    match search.answer(true) {
        Ok(_) => panic!("nothing was asked"),
        Err(rest) => assert!(rest.probe().is_none()),
    }
}
