use devx_cmd::cmd::command_text;
use devx_cmd::message::{kill_text, line_text, output_text};
use devx_cmd::text::{push_blank_led, push_byte_list, push_decimal};
use devx_cmd::{BinOrUtf8, Cause, Cmd, Error};
use std::path::PathBuf;

fn decimal(n: u32) -> String {
    let mut out = String::from("n=");
    push_decimal(&mut out, n);
    out
}

#[test]
fn decimal_notation_is_that_of_std() {
    for n in [0, 1, 9, 10, 11, 99, 100, 101, 1000, 65535, 123456789, u32::MAX] {
        assert_eq!(decimal(n), format!("n={}", n));
    }
}

#[test]
fn byte_list_is_that_of_std() {
    let lists: Vec<Vec<u8>> = vec![vec![], vec![7], vec![0, 1, 2], vec![255, 10, 100, 9]];
    for bytes in lists {
        let mut out = String::from("> ");
        push_byte_list(&mut out, &bytes);
        assert_eq!(out, format!("> {:?}", bytes));
    }
}

#[test]
fn words_are_led_by_blanks() {
    let mut out = String::from("ls");
    push_blank_led(&mut out, &vec!["-l".to_string(), "".to_string(), "a b".to_string()]);
    assert_eq!(out, "ls -l  a b");
}

#[test]
fn data_is_shown_with_its_kind() {
    assert_eq!(BinOrUtf8::Bin(vec![0, 1, 2]).to_string(), "[bytes]: [0, 1, 2]");
    assert_eq!(BinOrUtf8::Bin(vec![]).to_string(), "[bytes]: []");
    assert_eq!(BinOrUtf8::Utf8("Hi\n".to_string()).to_string(), "[utf8]: Hi\n");
}

#[test]
fn data_passes_a_pipe_as_its_bytes() {
    assert_eq!(BinOrUtf8::Bin(vec![255, 0]).as_ref(), &[255, 0]);
    assert_eq!(BinOrUtf8::Utf8("\u{e9}!".to_string()).as_ref(), &[0xc3, 0xa9, b'!']);
}

#[test]
fn text_is_captured_only_from_utf8() {
    match BinOrUtf8::capture(vec![0xc3, 0xa9], true) {
        Some(BinOrUtf8::Utf8(text)) => assert_eq!(text, "\u{e9}"),
        _ => panic!("text expected"),
    }
    assert!(BinOrUtf8::capture(vec![0xc3], true).is_none());
    assert!(BinOrUtf8::capture(vec![b'a', 0xff], true).is_none());
    match BinOrUtf8::capture(vec![0xc3], false) {
        Some(BinOrUtf8::Bin(bytes)) => assert_eq!(bytes, vec![0xc3]),
        _ => panic!("bytes expected"),
    }
}

#[test]
fn command_is_shown_on_up_to_three_lines() {
    let args = vec!["-c".to_string(), "x".to_string()];
    assert_eq!(command_text("sh", &args, &None, &None), "sh -c x");
    assert_eq!(
        command_text(
            "sh",
            &args,
            &Some("/tmp".to_string()),
            &Some(BinOrUtf8::Utf8("in".to_string())),
        ),
        "sh -c x\n(at /tmp)\nstdin <<< [utf8]: in",
    );
    assert_eq!(
        command_text("sh", &vec![], &None, &Some(BinOrUtf8::Bin(vec![1]))),
        "sh\nstdin <<< [bytes]: [1]",
    );
}

#[test]
fn command_shows_the_texts_of_its_paths() {
    let mut cmd = Cmd::new(PathBuf::from("/bin/ls"));
    cmd.arg2(PathBuf::from("-l"), PathBuf::from("\u{e9}"));
    assert_eq!(cmd.to_string(), "/bin/ls -l \u{e9}");
    cmd.current_dir(PathBuf::from("/tmp/x")).stdin("Hi".to_string());
    assert_eq!(cmd.to_string(), "/bin/ls -l \u{e9}\n(at /tmp/x)\nstdin <<< [utf8]: Hi");
}

#[test]
fn binary_is_named_by_its_first_component() {
    assert_eq!(Cmd::new(PathBuf::from("ls")).bin_name(), Some("ls".to_string()));
    assert_eq!(Cmd::new(PathBuf::from("target/debug/x")).bin_name(), Some("target".to_string()));
    assert_eq!(Cmd::new(PathBuf::from("./x")).bin_name(), Some(".".to_string()));
    assert_eq!(Cmd::new(PathBuf::from("")).bin_name(), None);
}

#[test]
fn kill_line_shows_process_and_binary() {
    assert_eq!(kill_text(4021, "sleep"), "[KILL 4021] sleep");
}

#[test]
fn output_line_shows_binary_and_data() {
    assert_eq!(output_text("cat", &BinOrUtf8::Bin(vec![9])), "[STDOUT cat] [bytes]: [9]");
    assert_eq!(
        output_text("cat", &BinOrUtf8::Utf8("foo".to_string())),
        "[STDOUT cat] [utf8]: foo",
    );
}

#[test]
fn line_shows_process_binary_and_text() {
    assert_eq!(line_text(0, "cat", "a  b"), "[0 cat] a  b");
}

#[test]
fn causes_are_shown() {
    assert_eq!(Cause::Io("broken pipe".to_string()).to_string(), "broken pipe");
    assert_eq!(Cause::NotUtf8.to_string(), "stream did not contain valid UTF-8");
    assert_eq!(
        Cause::ExitStatus("exit status: 1".to_string()).to_string(),
        "Non-zero exit code: exit status: 1",
    );
}

#[test]
fn failure_shows_cause_and_command() {
    let mut cmd = Cmd::new(PathBuf::from("ls"));
    cmd.echo_err(false);
    let error = Error::Cmd(cmd, Cause::Io("not found".to_string()));
    assert_eq!(error.to_string(), "not found\nCommand: ls");
    assert!(!error.is_echoed());
}
