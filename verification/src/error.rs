//! Failures of commands.
use crate::cmd::{Cmd, CmdView};
use crate::process::{ChildProcess, ChildView};
use vstd::prelude::*;

verus! {

/// Why a command failed.
pub enum Cause {
    /// The system reported this error.
    Io(String),
    /// The process wrote what is not UTF-8 where text was asked for.
    NotUtf8,
    /// The process ended without success, with this status.
    ExitStatus(String),
}

/// What a [`Cause`] says.
#[verifier::ext_equal]
pub enum CauseView {
    /// The system reported this error.
    Io(Seq<char>),
    /// The process wrote what is not UTF-8 where text was asked for.
    NotUtf8,
    /// The process ended without success, with this status.
    ExitStatus(Seq<char>),
}

impl CauseView {
    /// The cause as it is shown in messages.
    pub open spec fn shown(self) -> Seq<char> {
        match self {
            CauseView::Io(message) => message,
            CauseView::NotUtf8 => "stream did not contain valid UTF-8"@,
            CauseView::ExitStatus(status) => "Non-zero exit code: "@ + status,
        }
    }
}

impl View for Cause {
    type V = CauseView;

    open spec fn view(&self) -> CauseView {
        match self {
            Cause::Io(message) => CauseView::Io(message@),
            Cause::NotUtf8 => CauseView::NotUtf8,
            Cause::ExitStatus(status) => CauseView::ExitStatus(status@),
        }
    }
}

impl Cause {
    /// The cause as it is shown in messages.
    pub fn to_string(&self) -> (text: String)
        ensures
            text@ == self@.shown(),
    {
        match self {
            Cause::Io(message) => message.clone(),
            Cause::NotUtf8 => "stream did not contain valid UTF-8".to_owned(),
            Cause::ExitStatus(status) => {
                let mut text: String = "Non-zero exit code: ".to_owned();
                text.append(status.as_str());
                text
            },
        }
    }
}

/// The failure of a command.
pub enum Error {
    /// It failed before it had a process that could be handed out.
    Cmd(Cmd, Cause),
    /// It failed in its process.
    Process(ChildProcess, Cause),
}

/// What an [`Error`] says.
#[verifier::ext_equal]
pub enum ErrorView {
    /// The command failed before it had a process that could be handed out.
    Cmd(CmdView, CauseView),
    /// The command failed in its process.
    Process(ChildView, CauseView),
}

impl ErrorView {
    /// The failed command.
    pub open spec fn cmd(self) -> CmdView {
        match self {
            ErrorView::Cmd(cmd, _) => cmd,
            ErrorView::Process(process, _) => process.cmd,
        }
    }

    /// Why it failed.
    pub open spec fn cause(self) -> CauseView {
        match self {
            ErrorView::Cmd(_, cause) => cause,
            ErrorView::Process(_, cause) => cause,
        }
    }

    /// The failure as it is shown in messages.
    pub open spec fn shown(self) -> Seq<char> {
        self.cause().shown() + match self {
            ErrorView::Cmd(cmd, _) => "\nCommand: "@ + cmd.shown(),
            ErrorView::Process(process, _) => "\nProcess: "@ + process.shown(),
        }
    }
}

impl View for Error {
    type V = ErrorView;

    open spec fn view(&self) -> ErrorView {
        match self {
            Error::Cmd(cmd, cause) => ErrorView::Cmd(cmd@, cause@),
            Error::Process(process, cause) => ErrorView::Process(process@, cause@),
        }
    }
}

impl Error {
    /// The failure as it is shown in messages.
    pub fn to_string(&self) -> (text: String)
        ensures
            text@ == self@.shown(),
    {
        match self {
            Error::Cmd(cmd, cause) => {
                let mut text: String = cause.to_string();
                text.append("\nCommand: ");
                text.append(cmd.to_string().as_str());
                text
            },
            Error::Process(process, cause) => {
                let mut text: String = cause.to_string();
                text.append("\nProcess: ");
                text.append(process.to_string().as_str());
                text
            },
        }
    }

    /// Whether the failure is to be logged.
    pub fn is_echoed(&self) -> (yes: bool)
        ensures
            yes == self@.cmd().echo_err,
    {
        match self {
            Error::Cmd(cmd, _) => cmd.echoes_err(),
            Error::Process(process, _) => process.cmd().echoes_err(),
        }
    }
}

} // verus!
