//! The course of an invocation, from one action to the next.
//!
//! A [`Session`] says what is to be done next, is told what came of it, and goes on from
//! there until it has a result.
use crate::cmd::{Cmd, CmdView};
use crate::error::{Cause, CauseView, Error, ErrorView};
use crate::input::{capture_view, data_view, BinOrUtf8, DataView};
use crate::message::{kill_shown, kill_text, output_shown, output_text};
use crate::process::{
    Action, ActionView, ChildProcess, ChildView, Event, EventView, Stdio,
};
use vstd::prelude::*;

verus! {

/// What an invocation is made for.
#[derive(Clone, Copy, PartialEq, Eq, Structural, Debug)]
pub enum Goal {
    /// A running process.
    Child,
    /// A process that has ended with success.
    Exit,
    /// All that a process writes to its `stdout`, as text.
    Text,
    /// All that a process writes to its `stdout`, as bytes.
    Bytes,
}

/// An invocation under way.
pub struct Session {
    state: State,
}

enum State {
    Launch { cmd: Cmd, stdout: Stdio, goal: Goal },
    EchoCmd { child: ChildProcess, goal: Goal },
    Feed { child: ChildProcess, goal: Goal, bytes: Vec<u8> },
    Read { child: ChildProcess, expect_utf8: bool },
    Wait { child: ChildProcess, captured: Option<BinOrUtf8>, owned: bool },
    EchoOutput {
        child: ChildProcess,
        output: BinOrUtf8,
        bin_name: String,
        failure: Option<Error>,
    },
    EchoErr { error: Error, owner_of: Option<ChildProcess> },
    Check { child: ChildProcess, ending: Result<Outcome, Error> },
    EchoKill { child: ChildProcess, bin_name: String, ending: Result<Outcome, Error> },
    Kill { child: ChildProcess, ending: Result<Outcome, Error> },
    Reap { child: ChildProcess, ending: Result<Outcome, Error> },
}

/// How far a [`Session`] has come.
#[verifier::ext_equal]
pub enum SessionView {
    /// The process is to be started.
    Launch { cmd: CmdView, stdout: Stdio, goal: Goal },
    /// The process is to be logged.
    EchoCmd { child: ChildView, goal: Goal },
    /// The process is to be given its input.
    Feed { child: ChildView, goal: Goal, bytes: Seq<u8> },
    /// The output of the process is to be read.
    Read { child: ChildView, expect_utf8: bool },
    /// The end of the process is to be awaited. The session may own the process, and then
    /// gives it up before it ends.
    Wait { child: ChildView, captured: Option<DataView>, owned: bool },
    /// The output of the process is to be logged, whether or not the process failed after
    /// that.
    EchoOutput {
        child: ChildView,
        output: DataView,
        bin_name: Seq<char>,
        failure: Option<ErrorView>,
    },
    /// The failure is to be logged, and the process, if the session owns one, given up.
    EchoErr { error: ErrorView, owner_of: Option<ChildView> },
    /// The process is given up, if it has not ended yet; then the session ends.
    Check { child: ChildView, ending: Result<OutcomeView, ErrorView> },
    /// That the process is killed is to be logged.
    EchoKill { child: ChildView, bin_name: Seq<char>, ending: Result<OutcomeView, ErrorView> },
    /// The process is to be killed.
    Kill { child: ChildView, ending: Result<OutcomeView, ErrorView> },
    /// The end of the killed process is to be awaited.
    Reap { child: ChildView, ending: Result<OutcomeView, ErrorView> },
}

/// What an invocation gives.
pub enum Outcome {
    /// A running process.
    Child(ChildProcess),
    /// The process has ended with success.
    Unit,
    /// All that the process wrote to its `stdout`, as text.
    Text(String),
    /// All that the process wrote to its `stdout`, as bytes.
    Bytes(Vec<u8>),
}

/// What an [`Outcome`] says.
#[verifier::ext_equal]
pub enum OutcomeView {
    /// A running process.
    Child(ChildView),
    /// The process has ended with success.
    Unit,
    /// All that the process wrote to its `stdout`, as text.
    Text(Seq<char>),
    /// All that the process wrote to its `stdout`, as bytes.
    Bytes(Seq<u8>),
}

/// How an invocation goes on.
pub enum Step {
    /// With the next action of this session.
    Perform(Session),
    /// Not at all: this is its result.
    Finish(Result<Outcome, Error>),
    /// Not at all: this process panics with this message.
    Panic(String),
}

/// What a [`Step`] says.
#[verifier::ext_equal]
pub enum StepView {
    /// With the next action of this session.
    Perform(SessionView),
    /// Not at all: this is its result.
    Finish(Result<OutcomeView, ErrorView>),
    /// Not at all: this process panics with this message.
    Panic(Seq<char>),
}

/// What an optional process says.
pub open spec fn child_view(child: Option<ChildProcess>) -> Option<ChildView> {
    match child {
        Some(child) => Some(child@),
        None => None,
    }
}

/// What an optional failure says.
pub open spec fn error_view(error: Option<Error>) -> Option<ErrorView> {
    match error {
        Some(error) => Some(error@),
        None => None,
    }
}

/// What the result of an invocation says.
pub open spec fn ending_view(ending: Result<Outcome, Error>) -> Result<OutcomeView, ErrorView> {
    match ending {
        Ok(outcome) => Ok(outcome@),
        Err(error) => Err(error@),
    }
}

impl View for State {
    type V = SessionView;

    closed spec fn view(&self) -> SessionView {
        match self {
            State::Launch { cmd, stdout, goal } => SessionView::Launch {
                cmd: cmd@,
                stdout: *stdout,
                goal: *goal,
            },
            State::EchoCmd { child, goal } => SessionView::EchoCmd { child: child@, goal: *goal },
            State::Feed { child, goal, bytes } => SessionView::Feed {
                child: child@,
                goal: *goal,
                bytes: bytes@,
            },
            State::Read { child, expect_utf8 } => SessionView::Read {
                child: child@,
                expect_utf8: *expect_utf8,
            },
            State::Wait { child, captured, owned } => SessionView::Wait {
                child: child@,
                captured: data_view(*captured),
                owned: *owned,
            },
            State::EchoOutput { child, output, bin_name, failure } => SessionView::EchoOutput {
                child: child@,
                output: output@,
                bin_name: bin_name@,
                failure: error_view(*failure),
            },
            State::EchoErr { error, owner_of } => SessionView::EchoErr {
                error: error@,
                owner_of: child_view(*owner_of),
            },
            State::Check { child, ending } => SessionView::Check {
                child: child@,
                ending: ending_view(*ending),
            },
            State::EchoKill { child, bin_name, ending } => SessionView::EchoKill {
                child: child@,
                bin_name: bin_name@,
                ending: ending_view(*ending),
            },
            State::Kill { child, ending } => SessionView::Kill {
                child: child@,
                ending: ending_view(*ending),
            },
            State::Reap { child, ending } => SessionView::Reap {
                child: child@,
                ending: ending_view(*ending),
            },
        }
    }
}

impl View for Session {
    type V = SessionView;

    closed spec fn view(&self) -> SessionView {
        self.state@
    }
}

impl View for Outcome {
    type V = OutcomeView;

    open spec fn view(&self) -> OutcomeView {
        match self {
            Outcome::Child(child) => OutcomeView::Child(child@),
            Outcome::Unit => OutcomeView::Unit,
            Outcome::Text(text) => OutcomeView::Text(text@),
            Outcome::Bytes(bytes) => OutcomeView::Bytes(bytes@),
        }
    }
}

impl View for Step {
    type V = StepView;

    open spec fn view(&self) -> StepView {
        match self {
            Step::Perform(session) => StepView::Perform(session@),
            Step::Finish(ending) => StepView::Finish(ending_view(*ending)),
            Step::Panic(message) => StepView::Panic(message@),
        }
    }
}

/// The message of the panic where a binary has no name to show.
pub open spec fn nameless() -> Seq<char> {
    "Binary name must not be empty"@
}

/// A session at its end: the process, if it owns one, is given up before.
pub open spec fn settle(
    owner_of: Option<ChildView>,
    ending: Result<OutcomeView, ErrorView>,
) -> StepView {
    match owner_of {
        Some(child) => StepView::Perform(SessionView::Check { child, ending }),
        None => StepView::Finish(ending),
    }
}

/// An invocation that failed: the failure is logged if the command asks for that, and is
/// the result.
pub open spec fn fail(error: ErrorView, owner_of: Option<ChildView>) -> StepView {
    if error.cmd().echo_err {
        StepView::Perform(SessionView::EchoErr { error, owner_of })
    } else {
        settle(owner_of, Err(error))
    }
}

/// What an invocation gives that captured `captured`.
pub open spec fn outcome_of(captured: DataView) -> OutcomeView {
    match captured {
        DataView::Utf8(text) => OutcomeView::Text(text),
        DataView::Bin(bytes) => OutcomeView::Bytes(bytes),
    }
}

/// A process that has its input, on the way to `goal`.
pub open spec fn pursue(child: ChildView, goal: Goal) -> StepView {
    match goal {
        Goal::Child => StepView::Finish(Ok(OutcomeView::Child(child))),
        Goal::Exit => StepView::Perform(
            SessionView::Wait { child, captured: None, owned: true },
        ),
        Goal::Text => StepView::Perform(SessionView::Read { child, expect_utf8: true }),
        Goal::Bytes => StepView::Perform(SessionView::Read { child, expect_utf8: false }),
    }
}

/// A process that has been logged, if its command asks for that, on the way to `goal`.
pub open spec fn feed(child: ChildView, goal: Goal) -> StepView {
    match child.cmd.stdin {
        Some(data) => StepView::Perform(SessionView::Feed { child, goal, bytes: data.bytes() }),
        None => pursue(child, goal),
    }
}

/// A process that has just started, on the way to `goal`.
pub open spec fn started(child: ChildView, goal: Goal) -> StepView {
    if child.cmd.echo_cmd {
        StepView::Perform(SessionView::EchoCmd { child, goal })
    } else {
        feed(child, goal)
    }
}

/// The process, if it is owned.
pub open spec fn if_owned(child: ChildView, owned: bool) -> Option<ChildView> {
    if owned {
        Some(child)
    } else {
        None
    }
}

/// A process that has ended with success, after `captured` was read from it.
pub open spec fn ended(child: ChildView, captured: Option<DataView>, owned: bool) -> StepView {
    match captured {
        None => settle(if_owned(child, owned), Ok(OutcomeView::Unit)),
        Some(data) => if !child.cmd.echo_cmd {
            settle(Some(child), Ok(outcome_of(data)))
        } else {
            match child.cmd.bin_name() {
                Some(bin_name) => StepView::Perform(
                    SessionView::EchoOutput { child, output: data, bin_name, failure: None },
                ),
                None => StepView::Panic(nameless()),
            }
        },
    }
}

/// A process that did not end with success, after `captured` was read from it. What was
/// read is logged before the failure, where that is asked for and there is a name to show.
pub open spec fn crashed(
    child: ChildView,
    captured: Option<DataView>,
    cause: CauseView,
    owned: bool,
) -> StepView {
    let error = ErrorView::Process(child, cause);
    match (captured, child.cmd.bin_name()) {
        (Some(data), Some(bin_name)) => if child.cmd.echo_cmd {
            StepView::Perform(
                SessionView::EchoOutput { child, output: data, bin_name, failure: Some(error) },
            )
        } else {
            fail(error, if_owned(child, owned))
        },
        _ => fail(error, if_owned(child, owned)),
    }
}

impl SessionView {
    /// What is to be done next.
    pub open spec fn action(self) -> ActionView {
        match self {
            SessionView::Launch { cmd, stdout, .. } => ActionView::Spawn(cmd.launch(stdout)),
            SessionView::EchoCmd { child, .. } => ActionView::Log(child.shown()),
            SessionView::Feed { bytes, .. } => ActionView::WriteStdin(bytes),
            SessionView::Read { .. } => ActionView::ReadStdout,
            SessionView::Wait { .. } => ActionView::Wait,
            SessionView::EchoOutput { output, bin_name, .. } => ActionView::Log(
                output_shown(bin_name, output),
            ),
            SessionView::EchoErr { error, .. } => ActionView::Log(error.shown()),
            SessionView::Check { .. } => ActionView::TryWait,
            SessionView::EchoKill { child, bin_name, .. } => ActionView::Log(
                kill_shown(child.id, bin_name),
            ),
            SessionView::Kill { .. } => ActionView::Kill,
            SessionView::Reap { .. } => ActionView::Reap,
        }
    }

    /// How the session goes on once `event` came of its action. An event that cannot come
    /// of that action changes nothing.
    pub open spec fn after(self, event: EventView) -> StepView {
        match (self, event) {
            (SessionView::Launch { cmd, stdout, goal }, EventView::Started(id)) => started(
                ChildView { cmd, id, piped: stdout == Stdio::Piped },
                goal,
            ),
            (SessionView::Launch { cmd, .. }, EventView::Failed(message)) => fail(
                ErrorView::Cmd(cmd, CauseView::Io(message)),
                None,
            ),
            (SessionView::EchoCmd { child, goal }, EventView::Done) => feed(child, goal),
            (SessionView::Feed { child, goal, .. }, EventView::Done) => pursue(child, goal),
            (SessionView::Feed { child, .. }, EventView::Failed(message)) => fail(
                ErrorView::Cmd(child.cmd, CauseView::Io(message)),
                Some(child),
            ),
            (SessionView::Read { child, expect_utf8 }, EventView::Output(bytes)) => {
                match capture_view(bytes, expect_utf8) {
                    Some(data) => StepView::Perform(
                        SessionView::Wait { child, captured: Some(data), owned: true },
                    ),
                    None => fail(ErrorView::Process(child, CauseView::NotUtf8), Some(child)),
                }
            },
            (SessionView::Read { child, .. }, EventView::Failed(message)) => fail(
                ErrorView::Process(child, CauseView::Io(message)),
                Some(child),
            ),
            (SessionView::Wait { child, captured, owned }, EventView::Exited(status)) => {
                if status.success {
                    ended(child, captured, owned)
                } else {
                    crashed(child, captured, CauseView::ExitStatus(status.text), owned)
                }
            },
            (SessionView::Wait { child, captured, owned }, EventView::Failed(message)) => {
                crashed(child, captured, CauseView::Io(message), owned)
            },
            (SessionView::EchoOutput { child, output, failure, .. }, EventView::Done) => {
                match failure {
                    None => settle(Some(child), Ok(outcome_of(output))),
                    Some(error) => fail(error, Some(child)),
                }
            },
            (SessionView::EchoErr { error, owner_of }, EventView::Done) => settle(
                owner_of,
                Err(error),
            ),
            (SessionView::Check { child, ending }, EventView::Running) => {
                match child.cmd.bin_name() {
                    Some(bin_name) => StepView::Perform(
                        SessionView::EchoKill { child, bin_name, ending },
                    ),
                    None => StepView::Panic(nameless()),
                }
            },
            (SessionView::Check { ending, .. }, EventView::Exited(_)) => StepView::Finish(ending),
            (SessionView::Check { .. }, EventView::Failed(message)) => StepView::Panic(
                "Failed to collect process exit status: "@ + message,
            ),
            (SessionView::EchoKill { child, ending, .. }, EventView::Done) => StepView::Perform(
                SessionView::Kill { child, ending },
            ),
            (SessionView::Kill { child, ending }, EventView::Done) => StepView::Perform(
                SessionView::Reap { child, ending },
            ),
            (SessionView::Kill { child, ending }, EventView::Failed(_)) => StepView::Perform(
                SessionView::Reap { child, ending },
            ),
            (SessionView::Reap { ending, .. }, EventView::Exited(_)) => StepView::Finish(ending),
            (SessionView::Reap { child, .. }, EventView::Failed(message)) => StepView::Panic(
                "Failed to wait for process: "@ + message + "\nProcess: "@ + child.shown(),
            ),
            _ => StepView::Perform(self),
        }
    }
}

impl Step {
    fn perform(state: State) -> (step: Step)
        ensures
            step@ == StepView::Perform(state@),
    {
        Step::Perform(Session { state })
    }

    fn settle(owner_of: Option<ChildProcess>, ending: Result<Outcome, Error>) -> (step: Step)
        ensures
            step@ == settle(child_view(owner_of), ending_view(ending)),
    {
        match owner_of {
            Some(child) => Step::perform(State::Check { child, ending }),
            None => Step::Finish(ending),
        }
    }

    fn fail(error: Error, owner_of: Option<ChildProcess>) -> (step: Step)
        ensures
            step@ == fail(error@, child_view(owner_of)),
    {
        if error.is_echoed() {
            Step::perform(State::EchoErr { error, owner_of })
        } else {
            Step::settle(owner_of, Err(error))
        }
    }

    fn fail_process(child: ChildProcess, cause: Cause, owned: bool) -> (step: Step)
        ensures
            step@ == fail(ErrorView::Process(child@, cause@), if_owned(child@, owned)),
    {
        let owner_of: Option<ChildProcess> = if owned {
            Some(child.clone())
        } else {
            None
        };
        Step::fail(Error::Process(child, cause), owner_of)
    }

    fn finish(child: ChildProcess, captured: BinOrUtf8) -> (step: Step)
        ensures
            step@ == settle(Some(child@), Ok(outcome_of(captured@))),
    {
        match captured {
            BinOrUtf8::Utf8(text) => Step::settle(Some(child), Ok(Outcome::Text(text))),
            BinOrUtf8::Bin(bytes) => Step::settle(Some(child), Ok(Outcome::Bytes(bytes))),
        }
    }

    fn nameless() -> (step: Step)
        ensures
            step@ == StepView::Panic(nameless()),
    {
        Step::Panic("Binary name must not be empty".to_owned())
    }

    fn pursue(child: ChildProcess, goal: Goal) -> (step: Step)
        ensures
            step@ == pursue(child@, goal),
    {
        match goal {
            Goal::Child => Step::Finish(Ok(Outcome::Child(child))),
            Goal::Exit => Step::perform(State::Wait { child, captured: None, owned: true }),
            Goal::Text => Step::perform(State::Read { child, expect_utf8: true }),
            Goal::Bytes => Step::perform(State::Read { child, expect_utf8: false }),
        }
    }

    fn feed(child: ChildProcess, goal: Goal) -> (step: Step)
        ensures
            step@ == feed(child@, goal),
    {
        match child.cmd().stdin_data() {
            Some(bytes) => Step::perform(State::Feed { child, goal, bytes }),
            None => Step::pursue(child, goal),
        }
    }

    fn started(child: ChildProcess, goal: Goal) -> (step: Step)
        ensures
            step@ == started(child@, goal),
    {
        if child.cmd().echoes_cmd() {
            Step::perform(State::EchoCmd { child, goal })
        } else {
            Step::feed(child, goal)
        }
    }

    fn ended(child: ChildProcess, captured: Option<BinOrUtf8>, owned: bool) -> (step: Step)
        ensures
            step@ == ended(child@, data_view(captured), owned),
    {
        match captured {
            None => {
                if owned {
                    Step::settle(Some(child), Ok(Outcome::Unit))
                } else {
                    Step::Finish(Ok(Outcome::Unit))
                }
            },
            Some(output) => {
                if !child.cmd().echoes_cmd() {
                    Step::finish(child, output)
                } else {
                    match child.cmd().bin_name() {
                        Some(bin_name) => Step::perform(
                            State::EchoOutput { child, output, bin_name, failure: None },
                        ),
                        None => Step::nameless(),
                    }
                }
            },
        }
    }

    fn crashed(
        child: ChildProcess,
        captured: Option<BinOrUtf8>,
        cause: Cause,
        owned: bool,
    ) -> (step: Step)
        ensures
            step@ == crashed(child@, data_view(captured), cause@, owned),
    {
        if let Some(output) = captured {
            if child.cmd().echoes_cmd() {
                if let Some(bin_name) = child.cmd().bin_name() {
                    let failure: Option<Error> = Some(Error::Process(child.clone(), cause));
                    return Step::perform(
                        State::EchoOutput { child, output, bin_name, failure },
                    );
                }
            }
        }
        Step::fail_process(child, cause, owned)
    }
}

impl Session {
    /// An invocation of `cmd` at its start.
    pub(crate) fn launch(cmd: Cmd, stdout: Stdio, goal: Goal) -> (session: Session)
        ensures
            session@ == (SessionView::Launch { cmd: cmd@, stdout, goal }),
    {
        Session { state: State::Launch { cmd, stdout, goal } }
    }

    /// The wait for the end of `child`.
    pub(crate) fn wait(child: ChildProcess) -> (session: Session)
        ensures
            session@ == (SessionView::Wait { child: child@, captured: None, owned: false }),
    {
        Session { state: State::Wait { child, captured: None, owned: false } }
    }

    /// The reading of what `child` writes.
    pub(crate) fn read(child: ChildProcess, expect_utf8: bool) -> (session: Session)
        ensures
            session@ == (SessionView::Read { child: child@, expect_utf8 }),
    {
        Session { state: State::Read { child, expect_utf8 } }
    }

    /// The giving up of `child`.
    pub(crate) fn check(child: ChildProcess) -> (session: Session)
        ensures
            session@ == (SessionView::Check { child: child@, ending: Ok(OutcomeView::Unit) }),
    {
        Session { state: State::Check { child, ending: Ok(Outcome::Unit) } }
    }

    /// What is to be done next.
    pub fn action(&self) -> (action: Action)
        ensures
            action@ == self@.action(),
    {
        match &self.state {
            State::Launch { cmd, stdout, .. } => Action::Spawn(cmd.launch(*stdout)),
            State::EchoCmd { child, .. } => Action::Log(child.to_string()),
            State::Feed { bytes, .. } => Action::WriteStdin(bytes.clone()),
            State::Read { .. } => Action::ReadStdout,
            State::Wait { .. } => Action::Wait,
            State::EchoOutput { output, bin_name, .. } => Action::Log(
                output_text(bin_name.as_str(), output),
            ),
            State::EchoErr { error, .. } => Action::Log(error.to_string()),
            State::Check { .. } => Action::TryWait,
            State::EchoKill { child, bin_name, .. } => Action::Log(
                kill_text(child.id(), bin_name.as_str()),
            ),
            State::Kill { .. } => Action::Kill,
            State::Reap { .. } => Action::Reap,
        }
    }

    /// Goes on from what came of the action. An event that cannot come of it changes
    /// nothing.
    pub fn resume(self, event: Event) -> (step: Step)
        ensures
            step@ == self@.after(event@),
    {
        match (self.state, event) {
            (State::Launch { cmd, stdout, goal }, Event::Started(id)) => {
                let piped: bool = stdout == Stdio::Piped;
                Step::started(ChildProcess::new(cmd, id, piped), goal)
            },
            (State::Launch { cmd, .. }, Event::Failed(message)) => {
                Step::fail(Error::Cmd(cmd, Cause::Io(message)), None)
            },
            (State::EchoCmd { child, goal }, Event::Done) => Step::feed(child, goal),
            (State::Feed { child, goal, .. }, Event::Done) => Step::pursue(child, goal),
            (State::Feed { child, .. }, Event::Failed(message)) => {
                Step::fail(Error::Cmd(child.cmd().clone(), Cause::Io(message)), Some(child))
            },
            (State::Read { child, expect_utf8 }, Event::Output(bytes)) => {
                match BinOrUtf8::capture(bytes, expect_utf8) {
                    Some(data) => Step::perform(
                        State::Wait { child, captured: Some(data), owned: true },
                    ),
                    None => Step::fail_process(child, Cause::NotUtf8, true),
                }
            },
            (State::Read { child, .. }, Event::Failed(message)) => {
                Step::fail_process(child, Cause::Io(message), true)
            },
            (State::Wait { child, captured, owned }, Event::Exited(status)) => {
                if status.success {
                    Step::ended(child, captured, owned)
                } else {
                    Step::crashed(child, captured, Cause::ExitStatus(status.text), owned)
                }
            },
            (State::Wait { child, captured, owned }, Event::Failed(message)) => {
                Step::crashed(child, captured, Cause::Io(message), owned)
            },
            (State::EchoOutput { child, output, failure, .. }, Event::Done) => match failure {
                None => Step::finish(child, output),
                Some(error) => Step::fail(error, Some(child)),
            },
            (State::EchoErr { error, owner_of }, Event::Done) => {
                Step::settle(owner_of, Err(error))
            },
            (State::Check { child, ending }, Event::Running) => match child.cmd().bin_name() {
                Some(bin_name) => Step::perform(State::EchoKill { child, bin_name, ending }),
                None => Step::nameless(),
            },
            (State::Check { ending, .. }, Event::Exited(_)) => Step::Finish(ending),
            (State::Check { .. }, Event::Failed(message)) => {
                let mut text: String = "Failed to collect process exit status: ".to_owned();
                text.append(message.as_str());
                Step::Panic(text)
            },
            (State::EchoKill { child, ending, .. }, Event::Done) => {
                Step::perform(State::Kill { child, ending })
            },
            (State::Kill { child, ending }, Event::Done) => {
                Step::perform(State::Reap { child, ending })
            },
            (State::Kill { child, ending }, Event::Failed(_)) => {
                Step::perform(State::Reap { child, ending })
            },
            (State::Reap { ending, .. }, Event::Exited(_)) => Step::Finish(ending),
            (State::Reap { child, .. }, Event::Failed(message)) => {
                let mut text: String = "Failed to wait for process: ".to_owned();
                text.append(message.as_str());
                text.append("\nProcess: ");
                text.append(child.to_string().as_str());
                Step::Panic(text)
            },
            (state, _) => Step::perform(state),
        }
    }
}

} // verus!
