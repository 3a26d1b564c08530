//! Whole courses of sessions, and what holds of them whatever the system answers.
use crate::cmd::CmdView;
use crate::error::{CauseView, ErrorView};
use crate::input::{capture_view, DataView};
use crate::message::{kill_shown, output_shown};
use crate::process::{answers, ActionView, ChildView, EventView, Stdio};
use crate::session::{
    fail, feed, if_owned, nameless, outcome_of, pursue, settle, started, Goal, OutcomeView,
    SessionView, StepView,
};
use vstd::prelude::*;

verus! {

/// What the system answers to each action. In the course of a session no action but the
/// writing of a line is taken twice, so this leaves out no course.
pub type World = spec_fn(ActionView) -> EventView;

/// Whether each answer is among what can come of the action.
pub open spec fn answering(world: World) -> bool {
    forall|action: ActionView| answers(action, #[trigger] world(action))
}

/// A bound on how many actions follow the next one.
pub open spec fn rank(session: SessionView) -> nat {
    match session {
        SessionView::Launch { .. } => 10,
        SessionView::EchoCmd { .. } => 9,
        SessionView::Feed { .. } => 8,
        SessionView::Read { .. } => 7,
        SessionView::Wait { .. } => 6,
        SessionView::EchoOutput { .. } => 5,
        SessionView::EchoErr { .. } => 4,
        SessionView::Check { .. } => 3,
        SessionView::EchoKill { .. } => 2,
        SessionView::Kill { .. } => 1,
        SessionView::Reap { .. } => 0,
    }
}

/// The actions that are taken from `session` on.
pub open spec fn trace(session: SessionView, world: World) -> Seq<ActionView>
    decreases rank(session),
{
    let action = session.action();
    match session.after(world(action)) {
        StepView::Perform(next) => if rank(next) < rank(session) {
            seq![action] + trace(next, world)
        } else {
            seq![action]
        },
        _ => seq![action],
    }
}

/// How `session` ends.
pub open spec fn result(session: SessionView, world: World) -> StepView
    decreases rank(session),
{
    match session.after(world(session.action())) {
        StepView::Perform(next) => if rank(next) < rank(session) {
            result(next, world)
        } else {
            StepView::Perform(next)
        },
        step => step,
    }
}

/// The actions of a step and of what follows it.
pub open spec fn step_trace(step: StepView, world: World) -> Seq<ActionView> {
    match step {
        StepView::Perform(next) => trace(next, world),
        _ => Seq::empty(),
    }
}

/// How a step and what follows it end.
pub open spec fn step_result(step: StepView, world: World) -> StepView {
    match step {
        StepView::Perform(next) => result(next, world),
        step => step,
    }
}

/// The course of a session is its action and the course of what follows, and its result is
/// that of what follows, up to a step that asks for nothing more.
pub proof fn unfold(session: SessionView, world: World)
    requires
        answering(world),
    ensures
        trace(session, world) == seq![session.action()] + step_trace(
            session.after(world(session.action())),
            world,
        ),
        result(session, world) == step_result(session.after(world(session.action())), world),
        session.after(world(session.action())) matches StepView::Perform(next) ==> rank(next)
            < rank(session),
{
    assert(answers(session.action(), world(session.action())));
}

/// A session ends: it takes a bounded number of actions and has a result, or a panic, then.
pub proof fn session_ends(session: SessionView, world: World)
    requires
        answering(world),
    ensures
        1 <= trace(session, world).len() <= rank(session) + 1 <= 11,
        !(result(session, world) is Perform),
        trace(session, world)[0] == session.action(),
    decreases rank(session),
{
    unfold(session, world);
    if let StepView::Perform(next) = session.after(world(session.action())) {
        session_ends(next, world);
    }
}

/// The process that is started for `cmd`, if one is.
pub open spec fn launched(cmd: CmdView, stdout: Stdio, world: World) -> Option<ChildView> {
    match world(ActionView::Spawn(cmd.launch(stdout))) {
        EventView::Started(id) => Some(ChildView { cmd, id, piped: stdout == Stdio::Piped }),
        _ => None,
    }
}

/// What comes of starting the process of `cmd` and giving it its input.
pub open spec fn spawned(cmd: CmdView, stdout: Stdio, world: World) -> Result<
    ChildView,
    ErrorView,
> {
    match launched(cmd, stdout, world) {
        Some(child) => match cmd.stdin {
            None => Ok(child),
            Some(data) => match world(ActionView::WriteStdin(data.bytes())) {
                EventView::Failed(message) => Err(ErrorView::Cmd(cmd, CauseView::Io(message))),
                _ => Ok(child),
            },
        },
        None => Err(
            ErrorView::Cmd(
                cmd,
                CauseView::Io(world(ActionView::Spawn(cmd.launch(stdout)))->Failed_0),
            ),
        ),
    }
}

/// What comes of waiting for the end of `child`.
pub open spec fn awaited(child: ChildView, world: World) -> Result<(), ErrorView> {
    match world(ActionView::Wait) {
        EventView::Exited(status) => if status.success {
            Ok(())
        } else {
            Err(ErrorView::Process(child, CauseView::ExitStatus(status.text)))
        },
        event => Err(ErrorView::Process(child, CauseView::Io(event->Failed_0))),
    }
}

/// What comes of reading all that `child` writes and waiting for its end.
pub open spec fn captured(child: ChildView, expect_utf8: bool, world: World) -> Result<
    DataView,
    ErrorView,
> {
    match world(ActionView::ReadStdout) {
        EventView::Output(bytes) => match capture_view(bytes, expect_utf8) {
            Some(data) => match awaited(child, world) {
                Ok(_) => Ok(data),
                Err(error) => Err(error),
            },
            None => Err(ErrorView::Process(child, CauseView::NotUtf8)),
        },
        event => Err(ErrorView::Process(child, CauseView::Io(event->Failed_0))),
    }
}

/// What comes of bringing `child`, which has its input, to `goal`.
pub open spec fn pursued(child: ChildView, goal: Goal, world: World) -> Result<
    OutcomeView,
    ErrorView,
> {
    match goal {
        Goal::Child => Ok(OutcomeView::Child(child)),
        Goal::Exit => match awaited(child, world) {
            Ok(_) => Ok(OutcomeView::Unit),
            Err(error) => Err(error),
        },
        Goal::Text => match captured(child, true, world) {
            Ok(data) => Ok(outcome_of(data)),
            Err(error) => Err(error),
        },
        Goal::Bytes => match captured(child, false, world) {
            Ok(data) => Ok(outcome_of(data)),
            Err(error) => Err(error),
        },
    }
}

/// What comes of invoking `cmd`.
pub open spec fn invoked(cmd: CmdView, stdout: Stdio, goal: Goal, world: World) -> Result<
    OutcomeView,
    ErrorView,
> {
    match spawned(cmd, stdout, world) {
        Ok(child) => pursued(child, goal, world),
        Err(error) => Err(error),
    }
}

/// The actions that start the process of `cmd` and give it its input.
pub open spec fn spawn_actions(cmd: CmdView, stdout: Stdio, world: World) -> Seq<ActionView> {
    seq![ActionView::Spawn(cmd.launch(stdout))] + match launched(cmd, stdout, world) {
        Some(child) => (if cmd.echo_cmd {
            seq![ActionView::Log(child.shown())]
        } else {
            Seq::empty()
        }) + (match cmd.stdin {
            Some(data) => seq![ActionView::WriteStdin(data.bytes())],
            None => Seq::empty(),
        }),
        None => Seq::empty(),
    }
}

/// The actions that read all that a process writes and wait for its end.
pub open spec fn capture_actions(expect_utf8: bool, world: World) -> Seq<ActionView> {
    match world(ActionView::ReadStdout) {
        EventView::Output(bytes) => if capture_view(bytes, expect_utf8) is Some {
            seq![ActionView::ReadStdout, ActionView::Wait]
        } else {
            seq![ActionView::ReadStdout]
        },
        _ => seq![ActionView::ReadStdout],
    }
}

/// The actions that bring a process, which has its input, to `goal`.
pub open spec fn goal_actions(goal: Goal, world: World) -> Seq<ActionView> {
    match goal {
        Goal::Child => Seq::empty(),
        Goal::Exit => seq![ActionView::Wait],
        Goal::Text => capture_actions(true, world),
        Goal::Bytes => capture_actions(false, world),
    }
}

/// The output of a process that is read on the way to `goal`, if all of it can be read and
/// is what is asked for. The process may fail after that.
pub open spec fn output_read(goal: Goal, world: World) -> Option<DataView> {
    match (goal, world(ActionView::ReadStdout)) {
        (Goal::Text, EventView::Output(bytes)) => capture_view(bytes, true),
        (Goal::Bytes, EventView::Output(bytes)) => capture_view(bytes, false),
        _ => None,
    }
}

/// The output that is read in an invocation of `cmd`.
pub open spec fn output_taken(
    cmd: CmdView,
    stdout: Stdio,
    goal: Goal,
    world: World,
) -> Option<DataView> {
    if spawned(cmd, stdout, world) is Ok {
        output_read(goal, world)
    } else {
        None
    }
}

/// Whether the output of a process that ended with success is to be logged, and there is no
/// name of a binary to show with it.
pub open spec fn unnamable(
    cmd: CmdView,
    output: Option<DataView>,
    ending: Result<OutcomeView, ErrorView>,
) -> bool {
    cmd.echo_cmd && cmd.bin_name() is None && ending is Ok && output is Some
}

/// The logging of what was read from the process of `cmd`, where the command asks for it.
pub open spec fn output_log(cmd: CmdView, output: Option<DataView>) -> Seq<ActionView> {
    match (output, cmd.bin_name()) {
        (Some(data), Some(bin_name)) => if cmd.echo_cmd {
            seq![ActionView::Log(output_shown(bin_name, data))]
        } else {
            Seq::empty()
        },
        _ => Seq::empty(),
    }
}

/// The logging of a failure of `cmd`, where the command asks for it.
pub open spec fn failure_log(cmd: CmdView, ending: Result<OutcomeView, ErrorView>) -> Seq<
    ActionView,
> {
    match ending {
        Err(error) => if cmd.echo_err {
            seq![ActionView::Log(error.shown())]
        } else {
            Seq::empty()
        },
        Ok(_) => Seq::empty(),
    }
}

/// The logging of how an invocation of `cmd` came out: of the output that was read, and of a
/// failure after that.
pub open spec fn ending_log(
    cmd: CmdView,
    output: Option<DataView>,
    ending: Result<OutcomeView, ErrorView>,
) -> Seq<ActionView> {
    output_log(cmd, output) + failure_log(cmd, ending)
}

/// The actions by which `child` is given up: if it has not ended yet, it is logged that it
/// is killed, it is killed, and its end is awaited.
pub open spec fn drop_actions(child: ChildView, world: World) -> Seq<ActionView> {
    match (world(ActionView::TryWait), child.cmd.bin_name()) {
        (EventView::Running, Some(bin_name)) => seq![
            ActionView::TryWait,
            ActionView::Log(kill_shown(child.id, bin_name)),
            ActionView::Kill,
            ActionView::Reap,
        ],
        _ => seq![ActionView::TryWait],
    }
}

/// How a session ends in which `child` is given up before it gives `ending`.
pub open spec fn dropped(
    child: ChildView,
    ending: Result<OutcomeView, ErrorView>,
    world: World,
) -> StepView {
    match world(ActionView::TryWait) {
        EventView::Running => if child.cmd.bin_name() is None {
            StepView::Panic(nameless())
        } else {
            match world(ActionView::Reap) {
                EventView::Failed(message) => StepView::Panic(
                    "Failed to wait for process: "@ + message + "\nProcess: "@ + child.shown(),
                ),
                _ => StepView::Finish(ending),
            }
        },
        EventView::Failed(message) => StepView::Panic(
            "Failed to collect process exit status: "@ + message,
        ),
        _ => StepView::Finish(ending),
    }
}

/// A process that is given up is killed if and only if it has not ended yet. That is logged
/// before, and its end is awaited after, whether or not the killing itself failed.
pub proof fn drop_course(
    child: ChildView,
    ending: Result<OutcomeView, ErrorView>,
    world: World,
)
    requires
        answering(world),
    ensures
        trace(SessionView::Check { child, ending }, world) == drop_actions(child, world),
        result(SessionView::Check { child, ending }, world) == dropped(child, ending, world),
{
    unfold(SessionView::Check { child, ending }, world);
    assert(answers(ActionView::TryWait, world(ActionView::TryWait)));
    if child.cmd.bin_name() is Some {
        unfold(SessionView::EchoKill { child, bin_name: child.cmd.bin_name()->0, ending }, world);
    }
    unfold(SessionView::Kill { child, ending }, world);
    unfold(SessionView::Reap { child, ending }, world);
    assert(answers(ActionView::Reap, world(ActionView::Reap)));
    assert(answers(ActionView::Kill, world(ActionView::Kill)));
}

/// The actions at the end of a session that may own a process.
pub open spec fn settle_actions(owner_of: Option<ChildView>, world: World) -> Seq<ActionView> {
    match owner_of {
        Some(child) => drop_actions(child, world),
        None => Seq::empty(),
    }
}

/// The end of a session that may own a process.
pub open spec fn settled(
    owner_of: Option<ChildView>,
    ending: Result<OutcomeView, ErrorView>,
    world: World,
) -> StepView {
    match owner_of {
        Some(child) => dropped(child, ending, world),
        None => StepView::Finish(ending),
    }
}

/// The course of the end of a session.
proof fn settle_course(
    owner_of: Option<ChildView>,
    ending: Result<OutcomeView, ErrorView>,
    world: World,
)
    requires
        answering(world),
    ensures
        step_trace(settle(owner_of, ending), world) == settle_actions(owner_of, world),
        step_result(settle(owner_of, ending), world) == settled(owner_of, ending, world),
{
    if let Some(child) = owner_of {
        drop_course(child, ending, world);
    }
}

/// The course of a failure.
proof fn failure_course(error: ErrorView, owner_of: Option<ChildView>, world: World)
    requires
        answering(world),
    ensures
        step_trace(fail(error, owner_of), world) == failure_log(error.cmd(), Err(error))
            + settle_actions(owner_of, world),
        step_result(fail(error, owner_of), world) == settled(owner_of, Err(error), world),
{
    unfold(SessionView::EchoErr { error, owner_of }, world);
    settle_course(owner_of, Err(error), world);
}

/// To wait for a process takes one action, and a failure is logged if the command asks for
/// that. It succeeds if and only if the process reports success. A session that owns the
/// process then gives it up.
pub proof fn wait_course(child: ChildView, owned: bool, world: World)
    requires
        answering(world),
    ensures
        trace(SessionView::Wait { child, captured: None, owned }, world) == seq![
            ActionView::Wait,
        ] + ending_log(child.cmd, None, pursued(child, Goal::Exit, world)) + settle_actions(
            if_owned(child, owned),
            world,
        ),
        result(SessionView::Wait { child, captured: None, owned }, world) == settled(
            if_owned(child, owned),
            pursued(child, Goal::Exit, world),
            world,
        ),
{
    unfold(SessionView::Wait { child, captured: None, owned }, world);
    assert(answers(ActionView::Wait, world(ActionView::Wait)));
    match awaited(child, world) {
        Ok(_) => settle_course(if_owned(child, owned), Ok(OutcomeView::Unit), world),
        Err(error) => failure_course(error, if_owned(child, owned), world),
    }
}

/// To read from a process is to read all that it writes, then to wait for its end, then to
/// log what was read, whether or not the process failed, and the failure, if the command
/// asks for that, and then to give up the process.
#[verifier::rlimit(40)]
pub proof fn read_course(child: ChildView, expect_utf8: bool, world: World)
    requires
        answering(world),
    ensures
        ({
            let goal = if expect_utf8 {
                Goal::Text
            } else {
                Goal::Bytes
            };
            let output = output_read(goal, world);
            let ending = pursued(child, goal, world);
            if unnamable(child.cmd, output, ending) {
                &&& trace(child.read_impl(expect_utf8), world) == goal_actions(goal, world)
                &&& result(child.read_impl(expect_utf8), world) == StepView::Panic(nameless())
            } else {
                &&& trace(child.read_impl(expect_utf8), world) == goal_actions(goal, world)
                    + ending_log(child.cmd, output, ending) + drop_actions(child, world)
                &&& result(child.read_impl(expect_utf8), world) == dropped(child, ending, world)
            }
        }),
{
    unfold(child.read_impl(expect_utf8), world);
    assert(answers(ActionView::ReadStdout, world(ActionView::ReadStdout)));
    if let EventView::Output(bytes) = world(ActionView::ReadStdout) {
        if let Some(data) = capture_view(bytes, expect_utf8) {
            unfold(SessionView::Wait { child, captured: Some(data), owned: true }, world);
            assert(answers(ActionView::Wait, world(ActionView::Wait)));
            if child.cmd.echo_cmd && child.cmd.bin_name() is Some {
                unfold(
                    SessionView::EchoOutput {
                        child,
                        output: data,
                        bin_name: child.cmd.bin_name()->0,
                        failure: match awaited(child, world) {
                            Ok(_) => None,
                            Err(error) => Some(error),
                        },
                    },
                    world,
                );
            }
            settle_course(Some(child), Ok(outcome_of(data)), world);
        }
    }
    if let Err(error) = captured(child, expect_utf8, world) {
        failure_course(error, Some(child), world);
    }
}

/// Six parts of a course, one after the other, however they are grouped.
proof fn regroup(
    a: Seq<ActionView>,
    b: Seq<ActionView>,
    c: Seq<ActionView>,
    d: Seq<ActionView>,
    e: Seq<ActionView>,
    f: Seq<ActionView>,
)
    ensures
        a + (b + (c + d)) == a + (b + c) + d,
        a + (b + (c + (e + f))) == a + (b + c) + Seq::empty() + e + f,
        a + (b + (c + (d + (e + f)))) == a + (b + c) + d + e + f,
{
    assert(a + (b + (c + d)) =~= a + (b + c) + d);
    assert(a + (b + (c + (e + f))) =~= a + (b + c) + Seq::empty() + e + f);
    assert(a + (b + (c + (d + (e + f)))) =~= a + (b + c) + d + e + f);
}

/// The process that a session owns at its end which brings `child` to `goal`.
spec fn kept(child: ChildView, goal: Goal) -> Option<ChildView> {
    if goal == Goal::Child {
        None
    } else {
        Some(child)
    }
}

/// The course of a session whose process has its input.
proof fn pursue_course(child: ChildView, goal: Goal, world: World)
    requires
        answering(world),
    ensures
        ({
            let step = pursue(child, goal);
            let output = output_read(goal, world);
            let ending = pursued(child, goal, world);
            if unnamable(child.cmd, output, ending) {
                &&& step_trace(step, world) == goal_actions(goal, world)
                &&& step_result(step, world) == StepView::Panic(nameless())
            } else {
                &&& step_trace(step, world) == goal_actions(goal, world) + (ending_log(
                    child.cmd,
                    output,
                    ending,
                ) + settle_actions(kept(child, goal), world))
                &&& step_result(step, world) == settled(kept(child, goal), ending, world)
            }
        }),
{
    match goal {
        Goal::Child => {},
        Goal::Exit => wait_course(child, true, world),
        Goal::Text => read_course(child, true, world),
        Goal::Bytes => read_course(child, false, world),
    }
}

/// What is done to give `cmd` its input.
spec fn feed_actions(cmd: CmdView) -> Seq<ActionView> {
    match cmd.stdin {
        Some(data) => seq![ActionView::WriteStdin(data.bytes())],
        None => Seq::empty(),
    }
}

/// The course of a session whose process has been logged.
proof fn feed_course(child: ChildView, stdout: Stdio, goal: Goal, world: World)
    requires
        answering(world),
        launched(child.cmd, stdout, world) == Some(child),
    ensures
        ({
            let step = feed(child, goal);
            match spawned(child.cmd, stdout, world) {
                Ok(_) => {
                    &&& step_trace(step, world) == feed_actions(child.cmd) + step_trace(
                        pursue(child, goal),
                        world,
                    )
                    &&& step_result(step, world) == step_result(pursue(child, goal), world)
                },
                Err(error) => {
                    &&& error.cmd() == child.cmd
                    &&& step_trace(step, world) == feed_actions(child.cmd) + (failure_log(
                        child.cmd,
                        Err(error),
                    ) + drop_actions(child, world))
                    &&& step_result(step, world) == dropped(child, Err(error), world)
                },
            }
        }),
{
    match child.cmd.stdin {
        Some(data) => {
            let feed = SessionView::Feed { child, goal, bytes: data.bytes() };
            unfold(feed, world);
            assert(answers(feed.action(), world(feed.action())));
            if let Err(error) = spawned(child.cmd, stdout, world) {
                failure_course(error, Some(child), world);
            }
        },
        None => {
            assert(feed_actions(child.cmd) + step_trace(pursue(child, goal), world)
                =~= step_trace(pursue(child, goal), world));
        },
    }
}

/// The course of a session whose process has just started.
proof fn started_course(child: ChildView, goal: Goal, world: World)
    requires
        answering(world),
    ensures
        step_trace(started(child, goal), world) == (if child.cmd.echo_cmd {
            seq![ActionView::Log(child.shown())]
        } else {
            Seq::empty()
        }) + step_trace(feed(child, goal), world),
        step_result(started(child, goal), world) == step_result(feed(child, goal), world),
{
    if child.cmd.echo_cmd {
        unfold(SessionView::EchoCmd { child, goal }, world);
    } else {
        assert(Seq::<ActionView>::empty() + step_trace(feed(child, goal), world) =~= step_trace(
            feed(child, goal),
            world,
        ));
    }
}

/// The process that the session of a command owns at its end: the one that it started,
/// unless it hands it out.
pub open spec fn owned_at_end(
    cmd: CmdView,
    stdout: Stdio,
    goal: Goal,
    world: World,
) -> Option<ChildView> {
    if spawned(cmd, stdout, world) is Ok && goal == Goal::Child {
        None
    } else {
        launched(cmd, stdout, world)
    }
}

/// The course of the session of a command: its process is started, logged and given its
/// input; it is brought to the goal; how that came out is logged; and the process is given
/// up, unless it is handed out. A failure leaves out what follows it up to its own logging,
/// but what was read before is logged all the same. Only where the process ended with success
/// and the output is to be logged for a binary that has no name does the session end in a
/// panic before that.
#[verifier::rlimit(40)]
pub proof fn launch_course(cmd: CmdView, stdout: Stdio, goal: Goal, world: World)
    requires
        answering(world),
    ensures
        ({
            let session = SessionView::Launch { cmd, stdout, goal };
            let output = output_taken(cmd, stdout, goal, world);
            let ending = invoked(cmd, stdout, goal, world);
            let actions = spawn_actions(cmd, stdout, world) + (if spawned(
                cmd,
                stdout,
                world,
            ) is Ok {
                goal_actions(goal, world)
            } else {
                Seq::empty()
            });
            if unnamable(cmd, output, ending) {
                &&& trace(session, world) == actions
                &&& result(session, world) == StepView::Panic(nameless())
            } else {
                let owner_of = owned_at_end(cmd, stdout, goal, world);
                &&& trace(session, world) == actions + ending_log(cmd, output, ending)
                    + settle_actions(owner_of, world)
                &&& result(session, world) == settled(owner_of, ending, world)
            }
        }),
{
    let launch = SessionView::Launch { cmd, stdout, goal };
    unfold(launch, world);
    assert(answers(launch.action(), world(launch.action())));
    match launched(cmd, stdout, world) {
        Some(child) => {
            started_course(child, goal, world);
            feed_course(child, stdout, goal, world);
            pursue_course(child, goal, world);
            let spawn = seq![launch.action()];
            let echo = if cmd.echo_cmd {
                seq![ActionView::Log(child.shown())]
            } else {
                Seq::empty()
            };
            let feed = feed_actions(cmd);
            let output = output_taken(cmd, stdout, goal, world);
            let ending = invoked(cmd, stdout, goal, world);
            let log = ending_log(cmd, output, ending);
            let settle = settle_actions(owned_at_end(cmd, stdout, goal, world), world);
            assert(spawn_actions(cmd, stdout, world) == spawn + (echo + feed));
            regroup(spawn, echo, feed, goal_actions(goal, world), log, settle);
            if spawned(cmd, stdout, world) is Err {
                assert(log =~= failure_log(cmd, ending));
            }
        },
        None => {
            failure_course(spawned(cmd, stdout, world)->Err_0, None, world);
        },
    }
}

/// Where in a course an action that is no logging stands: the later, the lower.
spec fn level(action: ActionView) -> nat {
    match action {
        ActionView::Spawn(_) => 7,
        ActionView::WriteStdin(_) => 6,
        ActionView::ReadStdout => 5,
        ActionView::Wait => 4,
        ActionView::TryWait => 3,
        ActionView::Kill => 2,
        ActionView::Reap => 1,
        ActionView::Log(_) => 0,
    }
}

/// A bound on the levels of the actions from `session` on.
spec fn top_level(session: SessionView) -> nat {
    match session {
        SessionView::Launch { .. } => 7,
        SessionView::EchoCmd { .. } => 6,
        SessionView::Feed { .. } => 6,
        SessionView::Read { .. } => 5,
        SessionView::Wait { .. } => 4,
        SessionView::EchoOutput { .. } => 3,
        SessionView::EchoErr { .. } => 3,
        SessionView::Check { .. } => 3,
        SessionView::EchoKill { .. } => 2,
        SessionView::Kill { .. } => 2,
        SessionView::Reap { .. } => 1,
    }
}

proof fn levels_bounded(session: SessionView, world: World, i: int)
    requires
        answering(world),
        0 <= i < trace(session, world).len(),
    ensures
        level(trace(session, world)[i]) <= top_level(session),
    decreases rank(session),
{
    unfold(session, world);
    if i > 0 {
        if let StepView::Perform(next) = session.after(world(session.action())) {
            levels_bounded(next, world, i - 1);
            assert(trace(session, world)[i] == trace(next, world)[i - 1]);
        }
    }
}

/// In the course of a session no action is taken twice, but that two lines logged may be
/// the same.
pub proof fn no_action_is_repeated(session: SessionView, world: World, i: int, j: int)
    requires
        answering(world),
        0 <= i < j < trace(session, world).len(),
        !(trace(session, world)[i] is Log),
    ensures
        trace(session, world)[i] != trace(session, world)[j],
    decreases rank(session),
{
    unfold(session, world);
    if let StepView::Perform(next) = session.after(world(session.action())) {
        assert(trace(session, world)[j] == trace(next, world)[j - 1]);
        if i == 0 {
            levels_bounded(next, world, j - 1);
        } else {
            assert(trace(session, world)[i] == trace(next, world)[i - 1]);
            no_action_is_repeated(next, world, i - 1, j - 1);
        }
    }
}

} // verus!
