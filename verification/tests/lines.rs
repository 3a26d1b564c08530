use devx_cmd::{ChildProcess, Cmd, Event, LineStep, Outcome, Step};
use std::path::PathBuf;

fn process(cmd: &Cmd, id: u32) -> ChildProcess {
    let mut step = cmd.spawn_piped().resume(Event::Started(id));
    loop {
        step = match step {
            Step::Perform(session) => session.resume(Event::Done),
            Step::Finish(Ok(Outcome::Child(child))) => return child,
            _ => panic!("a process expected"),
        };
    }
}

#[test]
fn lines_are_handed_out_and_logged() {
    let cmd = Cmd::new(PathBuf::from("cat"));
    let lines = match process(&cmd, 12).stdout_lines() {
        Ok(lines) => lines,
        Err(_) => panic!("lines expected"),
    };
    match lines.next(Some(Ok("fn foo".to_string()))) {
        LineStep::Line(line, log) => {
            assert_eq!(line, "fn foo");
            assert_eq!(log, Some("[12 cat] fn foo".to_string()));
        }
        _ => panic!("a line expected"),
    }
    assert!(matches!(lines.next(None), LineStep::End));
}

#[test]
fn lines_of_a_quiet_command_are_not_logged() {
    let mut cmd = Cmd::new(PathBuf::from("cat"));
    cmd.echo_cmd(false);
    let lines = match process(&cmd, 12).stdout_lines() {
        Ok(lines) => lines,
        Err(_) => panic!("lines expected"),
    };
    match lines.next(Some(Ok("".to_string()))) {
        LineStep::Line(line, log) => {
            assert_eq!(line, "");
            assert_eq!(log, None);
        }
        _ => panic!("a line expected"),
    }
}

#[test]
fn unreadable_line_is_a_panic() {
    let lines = match process(&Cmd::new(PathBuf::from("cat")), 1).stdout_lines() {
        Ok(lines) => lines,
        Err(_) => panic!("lines expected"),
    };
    match lines.next(Some(Err("reset".to_string()))) {
        LineStep::Panic(message) => assert_eq!(message, "Unexpected io error: reset"),
        _ => panic!("a panic expected"),
    }
}

#[test]
fn lines_need_a_name_to_show() {
    let mut cmd = Cmd::new(PathBuf::from(""));
    cmd.echo_cmd(false);
    match process(&cmd, 1).stdout_lines() {
        Ok(_) => panic!("no lines expected"),
        Err(message) => assert_eq!(message, "Binary name must not be empty"),
    }
}
