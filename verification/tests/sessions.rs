use devx_cmd::{
    Action, Cause, ChildProcess, Cmd, Error, Event, ExitStatus, Outcome, Session, Step, Stdio,
};
use std::path::PathBuf;

/// What the system is made to answer.
struct World {
    spawn: Result<u32, &'static str>,
    write: Result<(), &'static str>,
    output: Result<Vec<u8>, &'static str>,
    wait: Result<(bool, &'static str), &'static str>,
    try_wait: Result<bool, &'static str>,
    kill: Result<(), &'static str>,
    reap: Result<(), &'static str>,
}

fn world() -> World {
    World {
        spawn: Ok(7),
        write: Ok(()),
        output: Ok(b"foo\n".to_vec()),
        wait: Ok((true, "exit status: 0")),
        try_wait: Ok(false),
        kill: Ok(()),
        reap: Ok(()),
    }
}

fn failed(message: &str) -> Event {
    Event::Failed(message.to_string())
}

fn exited(success: bool, text: &str) -> Event {
    Event::Exited(ExitStatus { success, text: text.to_string() })
}

fn done(answer: &Result<(), &'static str>) -> Event {
    match answer {
        Ok(()) => Event::Done,
        Err(message) => failed(message),
    }
}

/// Takes the actions of a session, and tells which they were and how it ended.
fn drive(session: Session, world: &World) -> (Vec<String>, Step) {
    let mut taken = Vec::new();
    let mut session = session;
    loop {
        let action = session.action();
        let event = match &action {
            Action::Spawn(launch) => {
                taken.push(format!(
                    "spawn {} stdin={:?} stdout={:?} stderr={:?}",
                    launch.bin.display(),
                    launch.stdin,
                    launch.stdout,
                    launch.stderr,
                ));
                match &world.spawn {
                    Ok(id) => Event::Started(*id),
                    Err(message) => failed(message),
                }
            }
            Action::Log(line) => {
                taken.push(format!("log {}", line));
                Event::Done
            }
            Action::WriteStdin(bytes) => {
                taken.push(format!("write {:?}", bytes));
                done(&world.write)
            }
            Action::ReadStdout => {
                taken.push("read".to_string());
                match &world.output {
                    Ok(bytes) => Event::Output(bytes.clone()),
                    Err(message) => failed(message),
                }
            }
            Action::TryWait => {
                taken.push("try_wait".to_string());
                match &world.try_wait {
                    Ok(true) => Event::Running,
                    Ok(false) => exited(true, "exit status: 0"),
                    Err(message) => failed(message),
                }
            }
            Action::Kill => {
                taken.push("kill".to_string());
                done(&world.kill)
            }
            Action::Wait => {
                taken.push("wait".to_string());
                match &world.wait {
                    Ok((success, text)) => exited(*success, text),
                    Err(message) => failed(message),
                }
            }
            Action::Reap => {
                taken.push("reap".to_string());
                match &world.reap {
                    Ok(()) => exited(false, "signal: 9 (SIGKILL)"),
                    Err(message) => failed(message),
                }
            }
        };
        match session.resume(event) {
            Step::Perform(next) => session = next,
            step => return (taken, step),
        }
    }
}

fn quiet(bin: &str) -> Cmd {
    let mut cmd = Cmd::new(PathBuf::from(bin));
    cmd.echo_cmd(false).echo_err(false);
    cmd
}

fn child(step: Step) -> ChildProcess {
    match step {
        Step::Finish(Ok(Outcome::Child(child))) => child,
        _ => panic!("a process expected"),
    }
}

fn error(step: Step) -> Error {
    match step {
        Step::Finish(Err(error)) => error,
        _ => panic!("a failure expected"),
    }
}

fn message(step: Step) -> String {
    match step {
        Step::Panic(message) => message,
        _ => panic!("a panic expected"),
    }
}

fn is_unit(step: &Step) -> bool {
    matches!(step, Step::Finish(Ok(Outcome::Unit)))
}

const INHERITED: &str = "spawn ls stdin=Null stdout=Inherit stderr=Inherit";
const PIPED: &str = "spawn ls stdin=Null stdout=Piped stderr=Inherit";

#[test]
fn run_starts_and_waits() {
    let (taken, end) = drive(quiet("ls").run(), &world());
    assert_eq!(taken, vec![INHERITED, "wait", "try_wait"]);
    assert!(is_unit(&end));
}

#[test]
fn run_logs_the_process() {
    let mut cmd = Cmd::new(PathBuf::from("ls"));
    cmd.arg(PathBuf::from("-la"));
    let (taken, end) = drive(cmd.run(), &world());
    assert_eq!(taken, vec![INHERITED, "log [PID 7] ls -la", "wait", "try_wait"]);
    assert!(is_unit(&end));
}

#[test]
fn non_zero_exit_code_is_a_failure() {
    let mut world = world();
    world.wait = Ok((false, "exit status: 2"));
    let mut cmd = quiet("ls");
    let (taken, end) = drive(cmd.run(), &world);
    assert_eq!(taken, vec![INHERITED, "wait", "try_wait"]);
    let text = "Non-zero exit code: exit status: 2\nProcess: [PID 7] ls";
    match error(end) {
        Error::Process(process, Cause::ExitStatus(status)) => {
            assert_eq!(process.id(), 7);
            assert_eq!(status, "exit status: 2");
        }
        _ => panic!("an exit status expected"),
    }
    cmd.echo_err(true);
    let (taken, end) = drive(cmd.run(), &world);
    assert_eq!(taken.len(), 4);
    assert_eq!(taken[2], format!("log {}", text));
    assert_eq!(error(end).to_string(), text);
}

#[test]
fn failed_wait_is_a_failure_of_the_process() {
    let mut world = world();
    world.wait = Err("no child");
    let (_, end) = drive(quiet("ls").run(), &world);
    assert!(matches!(error(end), Error::Process(_, Cause::Io(_))));
}

#[test]
fn failed_start_is_a_failure_of_the_command() {
    let mut world = world();
    world.spawn = Err("not found");
    let (taken, end) = drive(Cmd::new(PathBuf::from("ls")).read(), &world);
    assert_eq!(taken, vec![PIPED, "log not found\nCommand: ls"]);
    assert!(matches!(error(end), Error::Cmd(_, Cause::Io(_))));
}

#[test]
fn input_is_written_after_the_log() {
    let mut cmd = Cmd::new(PathBuf::from("ls"));
    cmd.stdin("Hi".to_string());
    let (taken, end) = drive(cmd.spawn(), &world());
    assert_eq!(
        taken,
        vec![
            "spawn ls stdin=Piped stdout=Inherit stderr=Inherit",
            "log [PID 7] ls\nstdin <<< [utf8]: Hi",
            "write [72, 105]",
        ],
    );
    let child = child(end);
    assert_eq!(child.id(), 7);
    assert!(!child.is_piped());
    assert_eq!(child.to_string(), "[PID 7] ls\nstdin <<< [utf8]: Hi");
}

#[test]
fn failed_write_is_a_failure_of_the_command() {
    let mut world = world();
    world.write = Err("broken pipe");
    let mut cmd = quiet("ls");
    cmd.stdin_bytes(vec![3]);
    let (taken, end) = drive(cmd.run(), &world);
    assert_eq!(
        taken,
        vec!["spawn ls stdin=Piped stdout=Inherit stderr=Inherit", "write [3]", "try_wait"],
    );
    assert!(matches!(error(end), Error::Cmd(_, Cause::Io(_))));
}

#[test]
fn read_gives_the_output_as_text() {
    let (taken, end) = drive(quiet("ls").read(), &world());
    assert_eq!(taken, vec![PIPED, "read", "wait", "try_wait"]);
    match end {
        Step::Finish(Ok(Outcome::Text(text))) => assert_eq!(text, "foo\n"),
        _ => panic!("text expected"),
    }
}

#[test]
fn read_logs_the_output() {
    let (taken, _) = drive(Cmd::new(PathBuf::from("ls")).read(), &world());
    assert_eq!(
        taken,
        vec![
            PIPED,
            "log [PID 7] ls",
            "read",
            "wait",
            "log [STDOUT ls] [utf8]: foo\n",
            "try_wait",
        ],
    );
    let (taken, _) = drive(Cmd::new(PathBuf::from("ls")).read_bytes(), &world());
    assert_eq!(taken[4], "log [STDOUT ls] [bytes]: [102, 111, 111, 10]");
}

#[test]
fn text_and_bytes_agree_on_what_is_utf8() {
    let mut world = world();
    world.output = Ok(vec![0x66, 0xff]);
    match drive(quiet("ls").read_bytes(), &world).1 {
        Step::Finish(Ok(Outcome::Bytes(bytes))) => assert_eq!(bytes, vec![0x66, 0xff]),
        _ => panic!("bytes expected"),
    }
    let (taken, end) = drive(quiet("ls").read(), &world);
    assert_eq!(taken, vec![PIPED, "read", "try_wait"]);
    assert!(matches!(error(end), Error::Process(_, Cause::NotUtf8)));
}

#[test]
fn failed_read_is_a_failure_of_the_process() {
    let mut world = world();
    world.output = Err("reset");
    let (taken, end) = drive(quiet("ls").read_bytes(), &world);
    assert_eq!(taken, vec![PIPED, "read", "try_wait"]);
    assert_eq!(error(end).to_string(), "reset\nProcess: [PID 7] ls");
}

#[test]
fn output_of_a_failed_process_is_logged_but_not_given() {
    let mut world = world();
    world.wait = Ok((false, "signal: 9 (SIGKILL)"));
    let (taken, end) = drive(Cmd::new(PathBuf::from("ls")).read(), &world);
    assert_eq!(
        taken,
        vec![
            PIPED,
            "log [PID 7] ls",
            "read",
            "wait",
            "log [STDOUT ls] [utf8]: foo\n",
            "log Non-zero exit code: signal: 9 (SIGKILL)\nProcess: [PID 7] ls",
            "try_wait",
        ],
    );
    assert!(matches!(error(end), Error::Process(_, Cause::ExitStatus(_))));
}

#[test]
fn bytes_of_a_failed_process_are_logged_but_not_given() {
    let mut world = world();
    world.output = Ok(vec![0xff]);
    world.wait = Ok((false, "exit status: 1"));
    let mut cmd = Cmd::new(PathBuf::from("ls"));
    cmd.echo_err(false);
    let (taken, end) = drive(cmd.read_bytes(), &world);
    assert_eq!(
        taken,
        vec![
            PIPED,
            "log [PID 7] ls",
            "read",
            "wait",
            "log [STDOUT ls] [bytes]: [255]",
            "try_wait",
        ],
    );
    assert!(matches!(error(end), Error::Process(_, Cause::ExitStatus(_))));
}

#[test]
fn output_is_logged_where_the_wait_fails() {
    let mut world = world();
    world.wait = Err("no child");
    let mut cmd = Cmd::new(PathBuf::from("ls"));
    let (taken, end) = drive(cmd.read(), &world);
    assert_eq!(taken[4], "log [STDOUT ls] [utf8]: foo\n");
    assert_eq!(taken[5], "log no child\nProcess: [PID 7] ls");
    assert!(matches!(error(end), Error::Process(_, Cause::Io(_))));
    cmd.echo_cmd(false);
    let (taken, _) = drive(cmd.read(), &world);
    assert_eq!(taken, vec![PIPED, "read", "wait", "log no child\nProcess: [PID 7] ls", "try_wait"]);
}

#[test]
fn failure_of_a_nameless_binary_is_no_panic() {
    let mut world = world();
    world.wait = Ok((false, "exit status: 1"));
    let mut cmd = Cmd::new(PathBuf::from(""));
    cmd.echo_err(false);
    let (taken, end) = drive(cmd.read(), &world);
    assert_eq!(taken[1..], ["log [PID 7] ", "read", "wait", "try_wait"]);
    assert!(matches!(error(end), Error::Process(_, Cause::ExitStatus(_))));
}

#[test]
fn output_that_cannot_be_read_is_not_logged() {
    let mut world = world();
    world.output = Ok(vec![0xff]);
    let (taken, end) = drive(Cmd::new(PathBuf::from("ls")).read(), &world);
    assert_eq!(taken.len(), 5);
    assert!(!taken.iter().any(|it| it.contains("STDOUT")));
    assert!(matches!(error(end), Error::Process(_, Cause::NotUtf8)));
}

#[test]
fn run_is_spawn_then_wait() {
    let mut cmd = Cmd::new(PathBuf::from("ls"));
    cmd.stdin("x".to_string());
    let (whole, _) = drive(cmd.run(), &world());
    let (mut parts, end) = drive(cmd.spawn(), &world());
    let child = child(end);
    let (rest, end) = drive(child.wait(), &world());
    assert!(is_unit(&end));
    parts.extend(rest);
    let (rest, end) = drive(child.drop(), &world());
    assert!(is_unit(&end));
    parts.extend(rest);
    assert_eq!(whole, parts);
}

#[test]
fn read_is_spawn_piped_then_read() {
    let cmd = Cmd::new(PathBuf::from("ls"));
    let (whole, _) = drive(cmd.read(), &world());
    let (mut parts, end) = drive(cmd.spawn_piped(), &world());
    let child = child(end);
    assert!(child.is_piped());
    let (rest, end) = drive(child.read(), &world());
    parts.extend(rest);
    assert_eq!(whole, parts);
    assert!(matches!(end, Step::Finish(Ok(Outcome::Text(_)))));
}

#[test]
fn read_bytes_is_spawn_piped_then_read_bytes() {
    let cmd = Cmd::new(PathBuf::from("ls"));
    let (whole, _) = drive(cmd.read_bytes(), &world());
    let (mut parts, end) = drive(cmd.spawn_with(Stdio::Piped), &world());
    let (rest, end) = drive(child(end).read_bytes(), &world());
    parts.extend(rest);
    assert_eq!(whole, parts);
    assert!(matches!(end, Step::Finish(Ok(Outcome::Bytes(_)))));
}

#[test]
fn output_of_a_nameless_binary_cannot_be_logged() {
    let (taken, end) = drive(Cmd::new(PathBuf::from("")).read(), &world());
    assert_eq!(taken.len(), 4);
    assert_eq!(message(end), "Binary name must not be empty");
}

#[test]
fn dropped_process_that_ended_is_left_alone() {
    let (_, end) = drive(quiet("ls").spawn(), &world());
    let (taken, end) = drive(child(end).drop(), &world());
    assert_eq!(taken, vec!["try_wait"]);
    assert!(is_unit(&end));
}

#[test]
fn dropped_process_that_runs_is_killed() {
    let mut world = world();
    world.try_wait = Ok(true);
    world.kill = Err("denied");
    let (_, end) = drive(quiet("ls").spawn(), &world);
    let (taken, end) = drive(child(end).drop(), &world);
    assert_eq!(taken, vec!["try_wait", "log [KILL 7] ls", "kill", "reap"]);
    assert!(is_unit(&end));
}

#[test]
fn dropped_process_that_cannot_be_observed_is_a_panic() {
    let mut world = world();
    let (_, end) = drive(quiet("ls").spawn(), &world);
    let child = child(end);
    world.try_wait = Err("no child");
    let (taken, end) = drive(child.drop(), &world);
    assert_eq!(taken, vec!["try_wait"]);
    assert_eq!(message(end), "Failed to collect process exit status: no child");
    world.try_wait = Ok(true);
    world.reap = Err("lost");
    let (_, end) = drive(child.drop(), &world);
    assert_eq!(message(end), "Failed to wait for process: lost\nProcess: [PID 7] ls");
}

#[test]
fn nameless_process_is_not_killed() {
    let mut world = world();
    world.try_wait = Ok(true);
    let (_, end) = drive(quiet("").spawn(), &world);
    let (taken, end) = drive(child(end).drop(), &world);
    assert_eq!(taken, vec!["try_wait"]);
    assert_eq!(message(end), "Binary name must not be empty");
}

#[test]
fn event_that_answers_nothing_changes_nothing() {
    let session = quiet("ls").run();
    match session.resume(Event::Done) {
        Step::Perform(session) => {
            assert!(matches!(session.action(), Action::Spawn(_)));
        }
        _ => panic!("the session is not over"),
    }
}

#[test]
fn longest_session_takes_eleven_actions() {
    let mut cmd = Cmd::new(PathBuf::from("ls"));
    cmd.stdin("x".to_string());
    let mut world = world();
    world.wait = Err("interrupted");
    world.try_wait = Ok(true);
    let (taken, end) = drive(cmd.read(), &world);
    assert_eq!(taken.len(), 11);
    assert_eq!(taken[10], "reap");
    assert!(matches!(error(end), Error::Process(_, Cause::Io(_))));
}

#[test]
fn process_of_a_failed_command_is_not_left_behind() {
    let mut world = world();
    world.write = Err("broken pipe");
    world.try_wait = Ok(true);
    let mut cmd = quiet("ls");
    cmd.stdin_bytes(vec![3]);
    let (taken, end) = drive(cmd.spawn(), &world);
    assert_eq!(
        taken,
        vec![
            "spawn ls stdin=Piped stdout=Inherit stderr=Inherit",
            "write [3]",
            "try_wait",
            "log [KILL 7] ls",
            "kill",
            "reap",
        ],
    );
    assert!(matches!(error(end), Error::Cmd(_, Cause::Io(_))));
    world.write = Ok(());
    world.output = Err("reset");
    let (taken, _) = drive(cmd.read(), &world);
    assert_eq!(taken[3..], ["try_wait", "log [KILL 7] ls", "kill", "reap"]);
}

#[test]
fn waited_for_process_is_not_given_up() {
    let (_, end) = drive(quiet("ls").spawn(), &world());
    let mut world = world();
    world.wait = Ok((false, "exit status: 1"));
    let (taken, end) = drive(child(end).wait(), &world);
    assert_eq!(taken, vec!["wait"]);
    assert!(matches!(error(end), Error::Process(_, Cause::ExitStatus(_))));
}

#[test]
fn failed_start_gives_up_no_process() {
    let mut world = world();
    world.spawn = Err("not found");
    let (taken, end) = drive(quiet("ls").run(), &world);
    assert_eq!(taken, vec![INHERITED]);
    assert!(matches!(error(end), Error::Cmd(_, Cause::Io(_))));
}

#[test]
fn no_action_is_taken_twice() {
    let mut cmd = Cmd::new(PathBuf::from("ls"));
    cmd.stdin("x".to_string());
    let mut world = world();
    world.wait = Err("interrupted");
    world.try_wait = Ok(true);
    let (taken, _) = drive(cmd.read(), &world);
    for i in 0..taken.len() {
        assert!(!taken[i + 1..].contains(&taken[i]));
    }
}

#[test]
fn quiet_command_logs_only_that_it_is_killed() {
    let mut world = world();
    world.output = Err("reset");
    world.try_wait = Ok(true);
    let (taken, _) = drive(quiet("ls").read(), &world);
    let logged: Vec<&String> = taken.iter().filter(|it| it.starts_with("log ")).collect();
    assert_eq!(logged, vec!["log [KILL 7] ls"]);
}
