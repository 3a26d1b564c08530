//! The ways to invoke a command and to deal with its process.
use crate::cmd::{Cmd, CmdView};
use crate::process::{ChildProcess, ChildView, Stdio};
use crate::session::{Goal, OutcomeView, Session, SessionView};
use vstd::prelude::*;

verus! {

impl CmdView {
    /// The start of the session in which the process is started, with `stdout` for its
    /// `stdout`, and handed out.
    pub open spec fn spawn_with(self, stdout: Stdio) -> SessionView {
        SessionView::Launch { cmd: self, stdout, goal: Goal::Child }
    }

    /// The start of the session in which the process is started, with its `stdout`
    /// inherited, and its end is awaited.
    pub open spec fn run(self) -> SessionView {
        SessionView::Launch { cmd: self, stdout: Stdio::Inherit, goal: Goal::Exit }
    }

    /// The start of the session in which the process is started, and all that it writes to
    /// its `stdout` is read, as text or as bytes.
    pub open spec fn read_impl(self, expect_utf8: bool) -> SessionView {
        SessionView::Launch {
            cmd: self,
            stdout: Stdio::Piped,
            goal: if expect_utf8 {
                Goal::Text
            } else {
                Goal::Bytes
            },
        }
    }
}

impl ChildView {
    /// The start of the session in which the end of the process is awaited.
    pub open spec fn wait(self) -> SessionView {
        SessionView::Wait { child: self, captured: None, owned: false }
    }

    /// The start of the session in which all that the process writes to its `stdout` is
    /// read, as text or as bytes.
    pub open spec fn read_impl(self, expect_utf8: bool) -> SessionView {
        SessionView::Read { child: self, expect_utf8 }
    }

    /// The start of the session in which the process is given up.
    pub open spec fn drop(self) -> SessionView {
        SessionView::Check { child: self, ending: Ok(OutcomeView::Unit) }
    }
}

impl Cmd {
    /// Starts the process, with its `stdout` inherited, and waits for it to end with
    /// success.
    pub fn run(&self) -> (session: Session)
        ensures
            session@ == self@.run(),
    {
        Session::launch(self.clone(), Stdio::Inherit, Goal::Exit)
    }

    /// Starts the process, waits for it to end with success, and gives all that it wrote to
    /// its `stdout`, as text.
    pub fn read(&self) -> (session: Session)
        ensures
            session@ == self@.read_impl(true),
    {
        Session::launch(self.clone(), Stdio::Piped, Goal::Text)
    }

    /// Starts the process, waits for it to end with success, and gives all that it wrote to
    /// its `stdout`, as bytes.
    pub fn read_bytes(&self) -> (session: Session)
        ensures
            session@ == self@.read_impl(false),
    {
        Session::launch(self.clone(), Stdio::Piped, Goal::Bytes)
    }

    /// Starts the process and gives a handle to it. Its `stdout` is inherited.
    pub fn spawn(&self) -> (session: Session)
        ensures
            session@ == self@.spawn_with(Stdio::Inherit),
    {
        self.spawn_with(Stdio::Inherit)
    }

    /// Starts the process and gives a handle to it. What it writes to its `stdout` can be
    /// read through the handle.
    pub fn spawn_piped(&self) -> (session: Session)
        ensures
            session@ == self@.spawn_with(Stdio::Piped),
    {
        self.spawn_with(Stdio::Piped)
    }

    /// Starts the process, with `stdout` for its `stdout`, and gives a handle to it.
    pub fn spawn_with(&self, stdout: Stdio) -> (session: Session)
        ensures
            session@ == self@.spawn_with(stdout),
    {
        Session::launch(self.clone(), stdout, Goal::Child)
    }
}

impl ChildProcess {
    /// Waits for the process to end with success.
    pub fn wait(&self) -> (session: Session)
        ensures
            session@ == self@.wait(),
    {
        Session::wait(self.clone())
    }

    /// Waits for the process to end with success and gives all that it wrote to its
    /// `stdout`, as bytes. The process must have been started with a pipe for it.
    /// If the command asks for that, what was read is logged, even where the process fails.
    pub fn read_bytes(self) -> (session: Session)
        requires
            self@.piped,
        ensures
            session@ == self@.read_impl(false),
    {
        self.read_impl(false)
    }

    /// Waits for the process to end with success and gives all that it wrote to its
    /// `stdout`, as text. The process must have been started with a pipe for it.
    /// If the command asks for that, what was read is logged, even where the process fails.
    pub fn read(self) -> (session: Session)
        requires
            self@.piped,
        ensures
            session@ == self@.read_impl(true),
    {
        self.read_impl(true)
    }

    /// Waits for the process to end with success and gives all that it wrote to its
    /// `stdout`, as text or as bytes. The process must have been started with a pipe for it.
    /// If the command asks for that, what was read is logged, even where the process fails.
    pub fn read_impl(self, expect_utf8: bool) -> (session: Session)
        requires
            self@.piped,
        ensures
            session@ == self@.read_impl(expect_utf8),
    {
        Session::read(self, expect_utf8)
    }

    /// Gives up the process: if it has not ended yet, it is killed, and its end is awaited.
    pub fn drop(&self) -> (session: Session)
        ensures
            session@ == self@.drop(),
    {
        Session::check(self.clone())
    }
}

} // verus!
