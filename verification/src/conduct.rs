//! What is observed of a session from one action to the next, whatever the system answers.
//!
//! A session is described here by what it asks for and by what it comes to, and not by how
//! it keeps track of that.
use crate::cmd::CmdView;
use crate::error::{CauseView, ErrorView};
use crate::input::DataView;
use crate::os::{os_text, path_first};
use crate::process::{ActionView, ChildView, EventView, ExitView, LaunchView, Stdio};
use crate::session::{Goal, OutcomeView, SessionView, StepView};
use crate::text::decimal;
use vstd::prelude::*;
use vstd::utf8::{encode_utf8, valid_utf8};

verus! {

/// Whether the next thing to be done is `action`.
pub open spec fn takes(step: StepView, action: ActionView) -> bool {
    step matches StepView::Perform(session) && session.action() == action
}

/// How it goes on once `event` came of the next action.
pub open spec fn upon(step: StepView, event: EventView) -> StepView {
    match step {
        StepView::Perform(session) => session.after(event),
        step => step,
    }
}

/// Whether `child`, which was killed, is awaited before there is the result `ending`.
pub open spec fn reaps(
    step: StepView,
    child: ChildView,
    ending: Result<OutcomeView, ErrorView>,
) -> bool {
    &&& takes(step, ActionView::Reap)
    &&& forall|status: ExitView|
        #[trigger] upon(step, EventView::Exited(status)) == StepView::Finish(ending)
    &&& forall|message: Seq<char>|
        #[trigger] upon(step, EventView::Failed(message)) == StepView::Panic(
            "Failed to wait for process: "@ + message + "\nProcess: "@ + ("[PID "@ + decimal(
                child.id as nat,
            ) + "] "@ + child.cmd.shown()),
        )
}

/// Whether `child`, which has not ended, is logged to be killed, killed and awaited before
/// there is the result `ending`.
pub open spec fn kills(
    step: StepView,
    child: ChildView,
    bin_name: Seq<char>,
    ending: Result<OutcomeView, ErrorView>,
) -> bool {
    let kill = upon(step, EventView::Done);
    &&& takes(step, ActionView::Log("[KILL "@ + decimal(child.id as nat) + "] "@ + bin_name))
    &&& takes(kill, ActionView::Kill)
    &&& reaps(upon(kill, EventView::Done), child, ending)
    &&& forall|message: Seq<char>|
        reaps(#[trigger] upon(kill, EventView::Failed(message)), child, ending)
}

/// Whether `child` is given up before there is the result `ending`: it is left alone if it
/// has ended, and killed if it has not.
pub open spec fn gives_up(
    step: StepView,
    child: ChildView,
    ending: Result<OutcomeView, ErrorView>,
) -> bool {
    &&& takes(step, ActionView::TryWait)
    &&& forall|status: ExitView|
        #[trigger] upon(step, EventView::Exited(status)) == StepView::Finish(ending)
    &&& forall|message: Seq<char>|
        #[trigger] upon(step, EventView::Failed(message)) == StepView::Panic(
            "Failed to collect process exit status: "@ + message,
        )
    &&& match path_first(child.cmd.bin) {
        Some(first) => kills(upon(step, EventView::Running), child, os_text(first), ending),
        None => upon(step, EventView::Running) == StepView::Panic(
            "Binary name must not be empty"@,
        ),
    }
}

/// Whether there is the result `ending`, once the process that is owned, if any is, has been
/// given up.
pub open spec fn concludes(
    step: StepView,
    owner_of: Option<ChildView>,
    ending: Result<OutcomeView, ErrorView>,
) -> bool {
    match owner_of {
        Some(child) => gives_up(step, child, ending),
        None => step == StepView::Finish(ending),
    }
}

/// Whether it comes to the failure `error` of `cmd`, which is logged before if the command
/// asks for that.
pub open spec fn fails(
    step: StepView,
    cmd: CmdView,
    error: ErrorView,
    owner_of: Option<ChildView>,
) -> bool {
    if cmd.echo_err {
        &&& takes(step, ActionView::Log(error.shown()))
        &&& concludes(upon(step, EventView::Done), owner_of, Err(error))
    } else {
        concludes(step, owner_of, Err(error))
    }
}

/// Whether it comes to a failure of `child`, and why.
pub open spec fn breaks(
    step: StepView,
    child: ChildView,
    cause: CauseView,
    owner_of: Option<ChildView>,
) -> bool {
    fails(step, child.cmd, ErrorView::Process(child, cause), owner_of)
}

/// Whether the end of `child` is awaited, and it comes to what is said there: success, or a
/// failure with the status, or the error, that was reported.
pub open spec fn waits(step: StepView, child: ChildView, owner_of: Option<ChildView>) -> bool {
    &&& takes(step, ActionView::Wait)
    &&& forall|status: ExitView|
        status.success ==> concludes(
            #[trigger] upon(step, EventView::Exited(status)),
            owner_of,
            Ok(OutcomeView::Unit),
        )
    &&& forall|status: ExitView|
        !status.success ==> breaks(
            #[trigger] upon(step, EventView::Exited(status)),
            child,
            CauseView::ExitStatus(status.text),
            owner_of,
        )
    &&& forall|message: Seq<char>|
        breaks(
            #[trigger] upon(step, EventView::Failed(message)),
            child,
            CauseView::Io(message),
            owner_of,
        )
}

/// Whether the line that shows `shown` as the output of `child` is logged.
pub open spec fn shows_output(step: StepView, bin_name: Seq<char>, shown: Seq<char>) -> bool {
    takes(step, ActionView::Log("[STDOUT "@ + bin_name + "] "@ + shown))
}

/// Whether `outcome`, which is shown as `shown`, is given, logged before if the command asks
/// for that.
pub open spec fn hands_out(
    step: StepView,
    child: ChildView,
    outcome: OutcomeView,
    shown: Seq<char>,
) -> bool {
    if child.cmd.echo_cmd {
        match path_first(child.cmd.bin) {
            Some(first) => {
                &&& shows_output(step, os_text(first), shown)
                &&& gives_up(upon(step, EventView::Done), child, Ok(outcome))
            },
            None => step == StepView::Panic("Binary name must not be empty"@),
        }
    } else {
        gives_up(step, child, Ok(outcome))
    }
}

/// Whether it comes to a failure of `child` after output was read that is shown as `shown`:
/// that is logged before if the command asks for that and there is a name to log it with.
pub open spec fn breaks_after_output(
    step: StepView,
    child: ChildView,
    cause: CauseView,
    shown: Seq<char>,
) -> bool {
    if child.cmd.echo_cmd && path_first(child.cmd.bin) is Some {
        &&& shows_output(step, os_text(path_first(child.cmd.bin)->0), shown)
        &&& breaks(upon(step, EventView::Done), child, cause, Some(child))
    } else {
        breaks(step, child, cause, Some(child))
    }
}

/// Whether the end of `child` is awaited, from which `outcome` was read, and that is given
/// if the process ends with success and only then.
pub open spec fn waits_with(
    step: StepView,
    child: ChildView,
    outcome: OutcomeView,
    shown: Seq<char>,
) -> bool {
    &&& takes(step, ActionView::Wait)
    &&& forall|status: ExitView|
        status.success ==> hands_out(
            #[trigger] upon(step, EventView::Exited(status)),
            child,
            outcome,
            shown,
        )
    &&& forall|status: ExitView|
        !status.success ==> breaks_after_output(
            #[trigger] upon(step, EventView::Exited(status)),
            child,
            CauseView::ExitStatus(status.text),
            shown,
        )
    &&& forall|message: Seq<char>|
        breaks_after_output(
            #[trigger] upon(step, EventView::Failed(message)),
            child,
            CauseView::Io(message),
            shown,
        )
}

/// Whether all that `child` writes is read, as text or as bytes, and its end is awaited.
pub open spec fn reads(step: StepView, child: ChildView, expect_utf8: bool) -> bool {
    &&& takes(step, ActionView::ReadStdout)
    &&& forall|bytes: Seq<u8>|
        !expect_utf8 ==> waits_with(
            #[trigger] upon(step, EventView::Output(bytes)),
            child,
            OutcomeView::Bytes(bytes),
            DataView::Bin(bytes).shown(),
        )
    &&& forall|text: Seq<char>|
        expect_utf8 ==> waits_with(
            upon(step, EventView::Output(#[trigger] encode_utf8(text))),
            child,
            OutcomeView::Text(text),
            "[utf8]: "@ + text,
        )
    &&& forall|bytes: Seq<u8>|
        expect_utf8 && !valid_utf8(bytes) ==> breaks(
            #[trigger] upon(step, EventView::Output(bytes)),
            child,
            CauseView::NotUtf8,
            Some(child),
        )
    &&& forall|message: Seq<char>|
        breaks(
            #[trigger] upon(step, EventView::Failed(message)),
            child,
            CauseView::Io(message),
            Some(child),
        )
}

/// Whether `child`, which has its input, is brought to `goal`.
pub open spec fn pursues(step: StepView, child: ChildView, goal: Goal) -> bool {
    match goal {
        Goal::Child => step == StepView::Finish(Ok(OutcomeView::Child(child))),
        Goal::Exit => waits(step, child, Some(child)),
        Goal::Text => reads(step, child, true),
        Goal::Bytes => reads(step, child, false),
    }
}

/// Whether `bytes` are written to `child` before it is brought to `goal`.
pub open spec fn writes(step: StepView, child: ChildView, goal: Goal, bytes: Seq<u8>) -> bool {
    &&& takes(step, ActionView::WriteStdin(bytes))
    &&& pursues(upon(step, EventView::Done), child, goal)
    &&& forall|message: Seq<char>|
        fails(
            #[trigger] upon(step, EventView::Failed(message)),
            child.cmd,
            ErrorView::Cmd(child.cmd, CauseView::Io(message)),
            Some(child),
        )
}

/// Whether `child` is given all of the data that is set for it, if any is, before it is
/// brought to `goal`.
pub open spec fn feeds(step: StepView, child: ChildView, goal: Goal) -> bool {
    match child.cmd.stdin {
        Some(DataView::Utf8(text)) => writes(step, child, goal, encode_utf8(text)),
        Some(DataView::Bin(bytes)) => writes(step, child, goal, bytes),
        None => pursues(step, child, goal),
    }
}

/// Whether `child`, which has just started, is logged if its command asks for that, given
/// its input, and brought to `goal`.
pub open spec fn introduces(step: StepView, child: ChildView, goal: Goal) -> bool {
    if child.cmd.echo_cmd {
        &&& takes(
            step,
            ActionView::Log("[PID "@ + decimal(child.id as nat) + "] "@ + child.cmd.shown()),
        )
        &&& feeds(upon(step, EventView::Done), child, goal)
    } else {
        feeds(step, child, goal)
    }
}

/// Whether the process of `cmd` is started, from all that the command says and nothing else,
/// and brought to `goal`.
pub open spec fn invokes(step: StepView, cmd: CmdView, stdout: Stdio, goal: Goal) -> bool {
    &&& takes(
        step,
        ActionView::Spawn(
            LaunchView {
                bin: cmd.bin,
                args: cmd.args,
                current_dir: cmd.current_dir,
                stdin: if cmd.stdin is Some {
                    Stdio::Piped
                } else {
                    Stdio::Null
                },
                stdout,
                stderr: Stdio::Inherit,
            },
        ),
    )
    &&& forall|id: u32|
        introduces(
            #[trigger] upon(step, EventView::Started(id)),
            ChildView { cmd, id, piped: stdout == Stdio::Piped },
            goal,
        )
    &&& forall|message: Seq<char>|
        fails(
            #[trigger] upon(step, EventView::Failed(message)),
            cmd,
            ErrorView::Cmd(cmd, CauseView::Io(message)),
            None,
        )
}

/// A process that is given up is looked at; if it has ended, that is all, and if it has not,
/// it is logged to be killed, killed, and awaited.
pub proof fn drop_is_observed(child: ChildView)
    ensures
        gives_up(StepView::Perform(child.drop()), child, Ok(OutcomeView::Unit)),
{
    given_up(child, Ok(OutcomeView::Unit));
}

/// A wait for a process, with a pipe or without, asks for its end, and for nothing else but
/// the logging of a failure. It comes to success if and only if the process does.
pub proof fn wait_is_observed(child: ChildView)
    ensures
        waits(StepView::Perform(child.wait()), child, None),
{
    awaited(child, false);
}

/// What is read from a process is all that it writes, and it is given if the process then
/// ends with success.
pub proof fn read_is_observed(child: ChildView, expect_utf8: bool)
    ensures
        reads(StepView::Perform(child.read_impl(expect_utf8)), child, expect_utf8),
{
    read(child, expect_utf8);
}

/// A command is run with its `stdout` inherited, and the end of its process is awaited.
pub proof fn run_is_observed(cmd: CmdView)
    ensures
        invokes(StepView::Perform(cmd.run()), cmd, Stdio::Inherit, Goal::Exit),
{
    invoked(cmd, Stdio::Inherit, Goal::Exit);
}

/// A command is read from with a pipe for its `stdout`, as text or as bytes.
pub proof fn read_of_a_command_is_observed(cmd: CmdView)
    ensures
        invokes(StepView::Perform(cmd.read_impl(true)), cmd, Stdio::Piped, Goal::Text),
        invokes(StepView::Perform(cmd.read_impl(false)), cmd, Stdio::Piped, Goal::Bytes),
{
    invoked(cmd, Stdio::Piped, Goal::Text);
    invoked(cmd, Stdio::Piped, Goal::Bytes);
}

/// The process of a command is started and handed out, whatever its `stdout` is.
pub proof fn spawn_is_observed(cmd: CmdView, stdout: Stdio)
    ensures
        invokes(StepView::Perform(cmd.spawn_with(stdout)), cmd, stdout, Goal::Child),
{
    invoked(cmd, stdout, Goal::Child);
}

/// An event that cannot come of the action that was asked for changes nothing.
pub proof fn stray_event_changes_nothing(session: SessionView, event: EventView)
    requires
        match session.action() {
            ActionView::Spawn(_) => !(event is Started) && !(event is Failed),
            ActionView::Log(_) => !(event is Done),
            ActionView::WriteStdin(_) => !(event is Done) && !(event is Failed),
            ActionView::ReadStdout => !(event is Output) && !(event is Failed),
            ActionView::TryWait => !(event is Running) && !(event is Exited) && !(event is Failed),
            ActionView::Kill => !(event is Done) && !(event is Failed),
            ActionView::Wait => !(event is Exited) && !(event is Failed),
            ActionView::Reap => !(event is Exited) && !(event is Failed),
        },
    ensures
        session.after(event) == StepView::Perform(session),
{
}

proof fn given_up(child: ChildView, ending: Result<OutcomeView, ErrorView>)
    ensures
        gives_up(StepView::Perform(SessionView::Check { child, ending }), child, ending),
{
    let reap = StepView::Perform(SessionView::Reap { child, ending });
    assert(reaps(reap, child, ending));
    if let Some(first) = path_first(child.cmd.bin) {
        let kill = SessionView::EchoKill { child, bin_name: os_text(first), ending };
        assert(kills(StepView::Perform(kill), child, os_text(first), ending));
    }
}

proof fn concluded(owner_of: Option<ChildView>, ending: Result<OutcomeView, ErrorView>)
    ensures
        concludes(crate::session::settle(owner_of, ending), owner_of, ending),
{
    if let Some(child) = owner_of {
        given_up(child, ending);
    }
}

proof fn failed(error: ErrorView, owner_of: Option<ChildView>)
    ensures
        fails(crate::session::fail(error, owner_of), error.cmd(), error, owner_of),
{
    concluded(owner_of, Err(error));
}

proof fn awaited(child: ChildView, owned: bool)
    ensures
        ({
            let wait = SessionView::Wait { child, captured: None, owned };
            let owner_of = if owned {
                Some(child)
            } else {
                None
            };
            waits(StepView::Perform(wait), child, owner_of)
        }),
{
    let wait = StepView::Perform(SessionView::Wait { child, captured: None, owned });
    let owner_of = if owned {
        Some(child)
    } else {
        None
    };
    concluded(owner_of, Ok(OutcomeView::Unit));
    assert forall|status: ExitView| !status.success implies breaks(
        #[trigger] upon(wait, EventView::Exited(status)),
        child,
        CauseView::ExitStatus(status.text),
        owner_of,
    ) by {
        failed(ErrorView::Process(child, CauseView::ExitStatus(status.text)), owner_of);
    }
    assert forall|message: Seq<char>|
        breaks(
            #[trigger] upon(wait, EventView::Failed(message)),
            child,
            CauseView::Io(message),
            owner_of,
        ) by {
        failed(ErrorView::Process(child, CauseView::Io(message)), owner_of);
    }
}

proof fn broken_after_output(child: ChildView, data: DataView, cause: CauseView)
    ensures
        breaks_after_output(
            crate::session::crashed(child, Some(data), cause, true),
            child,
            cause,
            data.shown(),
        ),
{
    failed(ErrorView::Process(child, cause), Some(child));
}

proof fn awaited_with(child: ChildView, data: DataView)
    ensures
        waits_with(
            StepView::Perform(SessionView::Wait { child, captured: Some(data), owned: true }),
            child,
            match data {
                DataView::Utf8(text) => OutcomeView::Text(text),
                DataView::Bin(bytes) => OutcomeView::Bytes(bytes),
            },
            data.shown(),
        ),
{
    let wait = StepView::Perform(SessionView::Wait { child, captured: Some(data), owned: true });
    let outcome = match data {
        DataView::Utf8(text) => OutcomeView::Text(text),
        DataView::Bin(bytes) => OutcomeView::Bytes(bytes),
    };
    given_up(child, Ok(outcome));
    assert forall|status: ExitView| status.success implies hands_out(
        #[trigger] upon(wait, EventView::Exited(status)),
        child,
        outcome,
        data.shown(),
    ) by {}
    assert forall|status: ExitView| !status.success implies breaks_after_output(
        #[trigger] upon(wait, EventView::Exited(status)),
        child,
        CauseView::ExitStatus(status.text),
        data.shown(),
    ) by {
        broken_after_output(child, data, CauseView::ExitStatus(status.text));
    }
    assert forall|message: Seq<char>|
        breaks_after_output(
            #[trigger] upon(wait, EventView::Failed(message)),
            child,
            CauseView::Io(message),
            data.shown(),
        ) by {
        broken_after_output(child, data, CauseView::Io(message));
    }
}

proof fn read(child: ChildView, expect_utf8: bool)
    ensures
        reads(
            StepView::Perform(SessionView::Read { child, expect_utf8 }),
            child,
            expect_utf8,
        ),
{
    let read = StepView::Perform(SessionView::Read { child, expect_utf8 });
    assert forall|bytes: Seq<u8>| !expect_utf8 implies waits_with(
        #[trigger] upon(read, EventView::Output(bytes)),
        child,
        OutcomeView::Bytes(bytes),
        DataView::Bin(bytes).shown(),
    ) by {
        awaited_with(child, DataView::Bin(bytes));
    }
    assert forall|text: Seq<char>| expect_utf8 implies waits_with(
        upon(read, EventView::Output(#[trigger] encode_utf8(text))),
        child,
        OutcomeView::Text(text),
        "[utf8]: "@ + text,
    ) by {
        vstd::utf8::encode_utf8_valid_utf8(text);
        vstd::utf8::encode_utf8_decode_utf8(text);
        awaited_with(child, DataView::Utf8(text));
    }
    failed(ErrorView::Process(child, CauseView::NotUtf8), Some(child));
    assert forall|message: Seq<char>|
        breaks(
            #[trigger] upon(read, EventView::Failed(message)),
            child,
            CauseView::Io(message),
            Some(child),
        ) by {
        failed(ErrorView::Process(child, CauseView::Io(message)), Some(child));
    }
}

proof fn pursued(child: ChildView, goal: Goal)
    ensures
        pursues(crate::session::pursue(child, goal), child, goal),
{
    match goal {
        Goal::Child => {},
        Goal::Exit => awaited(child, true),
        Goal::Text => read(child, true),
        Goal::Bytes => read(child, false),
    }
}

proof fn fed(child: ChildView, goal: Goal)
    ensures
        feeds(crate::session::feed(child, goal), child, goal),
{
    pursued(child, goal);
    let feed = crate::session::feed(child, goal);
    if child.cmd.stdin is Some {
        assert forall|message: Seq<char>|
            fails(
                #[trigger] upon(feed, EventView::Failed(message)),
                child.cmd,
                ErrorView::Cmd(child.cmd, CauseView::Io(message)),
                Some(child),
            ) by {
            failed(ErrorView::Cmd(child.cmd, CauseView::Io(message)), Some(child));
        }
    }
}

proof fn invoked(cmd: CmdView, stdout: Stdio, goal: Goal)
    ensures
        invokes(
            StepView::Perform(SessionView::Launch { cmd, stdout, goal }),
            cmd,
            stdout,
            goal,
        ),
{
    let launch = StepView::Perform(SessionView::Launch { cmd, stdout, goal });
    assert forall|id: u32|
        introduces(
            #[trigger] upon(launch, EventView::Started(id)),
            ChildView { cmd, id, piped: stdout == Stdio::Piped },
            goal,
        ) by {
        fed(ChildView { cmd, id, piped: stdout == Stdio::Piped }, goal);
    }
    assert forall|message: Seq<char>|
        fails(
            #[trigger] upon(launch, EventView::Failed(message)),
            cmd,
            ErrorView::Cmd(cmd, CauseView::Io(message)),
            None,
        ) by {
        failed(ErrorView::Cmd(cmd, CauseView::Io(message)), None);
    }
}

} // verus!
