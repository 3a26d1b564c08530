//! What a child process is started from, what is asked of the system about it, and what the
//! system answers.
use crate::cmd::{Cmd, CmdView};
use crate::text::{decimal, push_decimal};
use std::path::PathBuf;
use vstd::prelude::*;

verus! {

/// Where a standard stream of a child process leads.
#[derive(Clone, Copy, PartialEq, Eq, Structural, Debug)]
pub enum Stdio {
    /// To the same place as that of this process.
    Inherit,
    /// To this process.
    Piped,
    /// Nowhere.
    Null,
}

/// What a child process is started from.
pub struct Launch {
    /// The binary.
    pub bin: PathBuf,
    /// The arguments, in order.
    pub args: Vec<PathBuf>,
    /// The directory of the process, where it is not that of this one.
    pub current_dir: Option<PathBuf>,
    /// Its `stdin`.
    pub stdin: Stdio,
    /// Its `stdout`.
    pub stdout: Stdio,
    /// Its `stderr`.
    pub stderr: Stdio,
}

/// What a [`Launch`] says.
#[verifier::ext_equal]
pub struct LaunchView {
    /// The binary.
    pub bin: PathBuf,
    /// The arguments, in order.
    pub args: Seq<PathBuf>,
    /// The directory of the process, where it is not that of this one.
    pub current_dir: Option<PathBuf>,
    /// Its `stdin`.
    pub stdin: Stdio,
    /// Its `stdout`.
    pub stdout: Stdio,
    /// Its `stderr`.
    pub stderr: Stdio,
}

impl View for Launch {
    type V = LaunchView;

    open spec fn view(&self) -> LaunchView {
        LaunchView {
            bin: self.bin,
            args: self.args@,
            current_dir: self.current_dir,
            stdin: self.stdin,
            stdout: self.stdout,
            stderr: self.stderr,
        }
    }
}

impl CmdView {
    /// What the process of the command is started from. It has a pipe to read from only if
    /// there is data for it, and its `stderr` is that of this process.
    pub open spec fn launch(self, stdout: Stdio) -> LaunchView {
        LaunchView {
            bin: self.bin,
            args: self.args,
            current_dir: self.current_dir,
            stdin: if self.stdin is Some {
                Stdio::Piped
            } else {
                Stdio::Null
            },
            stdout,
            stderr: Stdio::Inherit,
        }
    }
}

/// How a process ended.
pub struct ExitStatus {
    /// Whether it reported success.
    pub success: bool,
    /// The status as it is shown in messages.
    pub text: String,
}

/// What an [`ExitStatus`] says.
#[verifier::ext_equal]
pub struct ExitView {
    /// Whether the process reported success.
    pub success: bool,
    /// The status as it is shown in messages.
    pub text: Seq<char>,
}

impl View for ExitStatus {
    type V = ExitView;

    open spec fn view(&self) -> ExitView {
        ExitView { success: self.success, text: self.text@ }
    }
}

/// What is to be done next.
pub enum Action {
    /// Start a process.
    Spawn(Launch),
    /// Write a line to `stderr`.
    Log(String),
    /// Write all of the bytes to the `stdin` of the process and close it.
    WriteStdin(Vec<u8>),
    /// Read all that the process writes to its `stdout`.
    ReadStdout,
    /// Look whether the process has ended.
    TryWait,
    /// Force the process to end.
    Kill,
    /// Wait until the process has ended.
    Wait,
    /// Wait until the process, which was killed, has ended.
    Reap,
}

/// What an [`Action`] says.
#[verifier::ext_equal]
pub enum ActionView {
    /// Start a process.
    Spawn(LaunchView),
    /// Write a line to `stderr`.
    Log(Seq<char>),
    /// Write all of the bytes to the `stdin` of the process and close it.
    WriteStdin(Seq<u8>),
    /// Read all that the process writes to its `stdout`.
    ReadStdout,
    /// Look whether the process has ended.
    TryWait,
    /// Force the process to end.
    Kill,
    /// Wait until the process has ended.
    Wait,
    /// Wait until the process, which was killed, has ended.
    Reap,
}

impl View for Action {
    type V = ActionView;

    open spec fn view(&self) -> ActionView {
        match self {
            Action::Spawn(launch) => ActionView::Spawn(launch@),
            Action::Log(line) => ActionView::Log(line@),
            Action::WriteStdin(bytes) => ActionView::WriteStdin(bytes@),
            Action::ReadStdout => ActionView::ReadStdout,
            Action::TryWait => ActionView::TryWait,
            Action::Kill => ActionView::Kill,
            Action::Wait => ActionView::Wait,
            Action::Reap => ActionView::Reap,
        }
    }
}

/// What came of an [`Action`].
pub enum Event {
    /// The process was started and has this identifier.
    Started(u32),
    /// It is done.
    Done,
    /// The process wrote these bytes.
    Output(Vec<u8>),
    /// The process has not ended yet.
    Running,
    /// The process has ended.
    Exited(ExitStatus),
    /// The system reported this error.
    Failed(String),
}

/// What an [`Event`] says.
#[verifier::ext_equal]
pub enum EventView {
    /// The process was started and has this identifier.
    Started(u32),
    /// It is done.
    Done,
    /// The process wrote these bytes.
    Output(Seq<u8>),
    /// The process has not ended yet.
    Running,
    /// The process has ended.
    Exited(ExitView),
    /// The system reported this error.
    Failed(Seq<char>),
}

impl View for Event {
    type V = EventView;

    open spec fn view(&self) -> EventView {
        match self {
            Event::Started(id) => EventView::Started(*id),
            Event::Done => EventView::Done,
            Event::Output(bytes) => EventView::Output(bytes@),
            Event::Running => EventView::Running,
            Event::Exited(status) => EventView::Exited(status@),
            Event::Failed(message) => EventView::Failed(message@),
        }
    }
}

/// Whether `event` is among what can come of `action`.
pub open spec fn answers(action: ActionView, event: EventView) -> bool {
    match action {
        ActionView::Spawn(_) => event is Started || event is Failed,
        ActionView::Log(_) => event is Done,
        ActionView::WriteStdin(_) => event is Done || event is Failed,
        ActionView::ReadStdout => event is Output || event is Failed,
        ActionView::TryWait => event is Running || event is Exited || event is Failed,
        ActionView::Kill => event is Done || event is Failed,
        ActionView::Wait => event is Exited || event is Failed,
        ActionView::Reap => event is Exited || event is Failed,
    }
}

/// A child process: the command that it was started for, its identifier, and whether its
/// `stdout` leads to this process.
pub struct ChildProcess {
    cmd: Cmd,
    id: u32,
    piped: bool,
}

/// What a [`ChildProcess`] says.
#[verifier::ext_equal]
pub struct ChildView {
    /// The command that the process was started for.
    pub cmd: CmdView,
    /// The identifier of the process.
    pub id: u32,
    /// Whether its `stdout` leads to this process.
    pub piped: bool,
}

impl ChildView {
    /// The process as it is shown in messages.
    pub open spec fn shown(self) -> Seq<char> {
        "[PID "@ + decimal(self.id as nat) + "] "@ + self.cmd.shown()
    }
}

impl View for ChildProcess {
    type V = ChildView;

    closed spec fn view(&self) -> ChildView {
        ChildView { cmd: self.cmd@, id: self.id, piped: self.piped }
    }
}

impl Clone for ChildProcess {
    fn clone(&self) -> (copy: Self)
        ensures
            copy@ == self@,
    {
        ChildProcess { cmd: self.cmd.clone(), id: self.id, piped: self.piped }
    }
}

impl ChildProcess {
    /// The process `id`, started for `cmd`, with its `stdout` led to this process or not.
    pub(crate) fn new(cmd: Cmd, id: u32, piped: bool) -> (child: Self)
        ensures
            child@ == (ChildView { cmd: cmd@, id, piped }),
    {
        ChildProcess { cmd, id, piped }
    }

    /// The command that the process was started for.
    pub fn cmd(&self) -> (cmd: &Cmd)
        ensures
            cmd@ == self@.cmd,
    {
        &self.cmd
    }

    /// The identifier of the process.
    pub fn id(&self) -> (id: u32)
        ensures
            id == self@.id,
    {
        self.id
    }

    /// The process as it is shown in messages.
    pub fn to_string(&self) -> (text: String)
        ensures
            text@ == self@.shown(),
    {
        let mut text: String = "[PID ".to_owned();
        push_decimal(&mut text, self.id);
        text.append("] ");
        text.append(self.cmd.to_string().as_str());
        text
    }

    /// Whether the `stdout` of the process leads to this process.
    pub fn is_piped(&self) -> (piped: bool)
        ensures
            piped == self@.piped,
    {
        self.piped
    }
}

} // verus!
