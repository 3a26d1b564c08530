//! What holds of the library as a whole.
use crate::cmd::CmdView;
use crate::course::{
    answering, drop_actions, drop_course, ending_log, failure_log, goal_actions, invoked,
    launch_course, launched, no_action_is_repeated, output_log, output_read, output_taken,
    owned_at_end, pursued, read_course, result, session_ends, settle_actions, spawn_actions,
    spawned, trace, wait_course, World,
};
use crate::error::{CauseView, ErrorView};
use crate::input::DataView;
use crate::lines::{read_view, LineStepView, LinesView};
use crate::message::{kill_shown, output_shown};
use crate::os::{os_text, path_extension, path_first, path_join, path_with_extension};
use crate::process::{answers, ActionView, ChildView, EventView, Stdio};
use crate::search::{answered, candidates_at, candidates_in, dirs_of, probed};
use crate::session::{Goal, OutcomeView, SessionView, StepView};
use crate::text::decimal;
use std::path::PathBuf;
use vstd::prelude::*;
use vstd::utf8::{encode_utf8, valid_utf8};

verus! {

/// A process that starts and has its input is handed out right away by a session that goes
/// no further. Where it does not come to that, the goal makes no difference.
proof fn spawned_or_not(cmd: CmdView, stdout: Stdio, goal: Goal, world: World)
    requires
        answering(world),
    ensures
        ({
            let spawn = cmd.spawn_with(stdout);
            let session = SessionView::Launch { cmd, stdout, goal };
            match spawned(cmd, stdout, world) {
                Ok(child) => {
                    &&& trace(spawn, world) == spawn_actions(cmd, stdout, world)
                    &&& result(spawn, world) == StepView::Finish(Ok(OutcomeView::Child(child)))
                    &&& child.cmd == cmd
                },
                Err(_) => {
                    &&& trace(spawn, world) == trace(session, world)
                    &&& result(spawn, world) == result(session, world)
                    &&& !(result(spawn, world) matches StepView::Finish(Ok(_)))
                },
            }
        }),
{
    launch_course(cmd, stdout, Goal::Child, world);
    if spawned(cmd, stdout, world) is Ok {
        assert(trace(cmd.spawn_with(stdout), world) =~= spawn_actions(cmd, stdout, world));
    } else {
        launch_course(cmd, stdout, goal, world);
    }
}

/// Four parts of a course, one after the other, however they are grouped.
proof fn regrouped(
    a: Seq<ActionView>,
    b: Seq<ActionView>,
    c: Seq<ActionView>,
    d: Seq<ActionView>,
)
    ensures
        a + b + c + d == a + (b + c + d),
{
    assert(a + b + c + d =~= a + (b + c + d));
}

/// To run a command is to spawn its process, to wait for it, and to give it up.
#[verifier::rlimit(40)]
pub proof fn run_is_spawn_then_wait(cmd: CmdView, world: World)
    requires
        answering(world),
    ensures
        trace(cmd.run(), world) == trace(cmd.spawn_with(Stdio::Inherit), world) + match result(
            cmd.spawn_with(Stdio::Inherit),
            world,
        ) {
            StepView::Finish(Ok(OutcomeView::Child(child))) => trace(child.wait(), world) + trace(
                child.drop(),
                world,
            ),
            _ => Seq::empty(),
        },
        result(cmd.run(), world) == match result(cmd.spawn_with(Stdio::Inherit), world) {
            StepView::Finish(Ok(OutcomeView::Child(child))) => match result(child.drop(), world) {
                StepView::Finish(_) => result(child.wait(), world),
                step => step,
            },
            step => step,
        },
{
    spawned_or_not(cmd, Stdio::Inherit, Goal::Exit, world);
    if let Ok(child) = spawned(cmd, Stdio::Inherit, world) {
        launch_course(cmd, Stdio::Inherit, Goal::Exit, world);
        wait_course(child, false, world);
        drop_course(child, Ok(OutcomeView::Unit), world);
    }
}

/// To read from a command, text or bytes, is to spawn its process with a pipe for its
/// `stdout` and then to read from it.
#[verifier::rlimit(40)]
pub proof fn read_is_spawn_piped_then_read(cmd: CmdView, expect_utf8: bool, world: World)
    requires
        answering(world),
    ensures
        trace(cmd.read_impl(expect_utf8), world) == trace(cmd.spawn_with(Stdio::Piped), world)
            + match result(cmd.spawn_with(Stdio::Piped), world) {
            StepView::Finish(Ok(OutcomeView::Child(child))) => trace(
                child.read_impl(expect_utf8),
                world,
            ),
            _ => Seq::empty(),
        },
        result(cmd.read_impl(expect_utf8), world) == match result(
            cmd.spawn_with(Stdio::Piped),
            world,
        ) {
            StepView::Finish(Ok(OutcomeView::Child(child))) => result(
                child.read_impl(expect_utf8),
                world,
            ),
            step => step,
        },
{
    let goal = if expect_utf8 {
        Goal::Text
    } else {
        Goal::Bytes
    };
    spawned_or_not(cmd, Stdio::Piped, goal, world);
    if let Ok(child) = spawned(cmd, Stdio::Piped, world) {
        launch_course(cmd, Stdio::Piped, goal, world);
        read_course(child, expect_utf8, world);
        let spawn = spawn_actions(cmd, Stdio::Piped, world);
        let pursuit = goal_actions(goal, world);
        let log = ending_log(cmd, output_read(goal, world), pursued(child, goal, world));
        let settle = drop_actions(child, world);
        regrouped(spawn, pursuit, log, settle);
    }
}

/// Whether the process of `cmd` is started and takes all of its input.
pub open spec fn starts(cmd: CmdView, stdout: Stdio, world: World) -> bool {
    &&& world(ActionView::Spawn(cmd.launch(stdout))) is Started
    &&& cmd.stdin matches Some(data) ==> world(ActionView::WriteStdin(data.bytes())) is Done
}

/// Whether a process ends with success.
pub open spec fn succeeds(world: World) -> bool {
    world(ActionView::Wait) matches EventView::Exited(status) && status.success
}

/// Whether a process of which it was seen that it has ended is not seen running after that.
pub open spec fn ended_stays_ended(world: World) -> bool {
    world(ActionView::Wait) is Exited ==> world(ActionView::TryWait) is Exited
}

/// Whether a process that was started has its input can be told from what was answered.
proof fn started_or_failed(cmd: CmdView, stdout: Stdio, world: World)
    requires
        answering(world),
    ensures
        starts(cmd, stdout, world) <==> spawned(cmd, stdout, world) is Ok,
        spawned(cmd, stdout, world) matches Err(error) ==> error.cmd() == cmd && error.cause()
            is Io,
        spawned(cmd, stdout, world) matches Ok(child) ==> launched(cmd, stdout, world) == Some(
            child,
        ) && child.cmd == cmd,
{
    if let Some(data) = cmd.stdin {
        assert(answers(
            ActionView::WriteStdin(data.bytes()),
            world(ActionView::WriteStdin(data.bytes())),
        ));
    }
}

/// A process is handed out if and only if it is started and takes all of its input. It is
/// one of the command, and its output can be read if and only if it was started with a pipe
/// for that. Otherwise the invocation fails, if it does not come to a panic when it gives up
/// the process.
pub proof fn spawn_succeeds_iff_started(cmd: CmdView, stdout: Stdio, world: World)
    requires
        answering(world),
    ensures
        match result(cmd.spawn_with(stdout), world) {
            StepView::Finish(Ok(outcome)) => starts(cmd, stdout, world) && outcome
                == OutcomeView::Child(
                ChildView {
                    cmd,
                    id: world(ActionView::Spawn(cmd.launch(stdout)))->Started_0,
                    piped: stdout == Stdio::Piped,
                },
            ),
            StepView::Finish(Err(error)) => !starts(cmd, stdout, world) && error.cmd() == cmd
                && error.cause() is Io,
            StepView::Panic(message) => !starts(cmd, stdout, world) && (launched(
                cmd,
                stdout,
                world,
            ) matches Some(child) && result(child.drop(), world) == StepView::Panic(message)),
            StepView::Perform(_) => false,
        },
{
    launch_course(cmd, stdout, Goal::Child, world);
    started_or_failed(cmd, stdout, world);
    if let Some(child) = launched(cmd, stdout, world) {
        drop_course(child, Ok(OutcomeView::Unit), world);
    }
}

/// A command runs with success if and only if its process is started, takes all of its
/// input, and ends with success. Where the process ends otherwise, the failure tells its
/// exit status.
pub proof fn run_succeeds_iff_exit_is_success(cmd: CmdView, world: World)
    requires
        answering(world),
        ended_stays_ended(world),
    ensures
        result(cmd.run(), world) == StepView::Finish(Ok(OutcomeView::Unit)) <==> starts(
            cmd,
            Stdio::Inherit,
            world,
        ) && succeeds(world),
        result(cmd.run(), world) matches StepView::Finish(Ok(outcome)) ==> outcome
            == OutcomeView::Unit,
        result(cmd.run(), world) matches StepView::Finish(Err(error)) ==> error.cmd() == cmd,
        starts(cmd, Stdio::Inherit, world) && world(ActionView::Wait) is Exited && !succeeds(
            world,
        ) ==> (result(cmd.run(), world) matches StepView::Finish(Err(error)) && error.cause()
            == CauseView::ExitStatus(world(ActionView::Wait)->Exited_0.text)),
{
    launch_course(cmd, Stdio::Inherit, Goal::Exit, world);
    started_or_failed(cmd, Stdio::Inherit, world);
}

/// Whether all is well with a process whose output is read: it is started, takes all of its
/// input, its output can be read, is UTF-8 if text is asked for, and it ends with success.
pub open spec fn readable(cmd: CmdView, expect_utf8: bool, world: World) -> bool {
    &&& starts(cmd, Stdio::Piped, world)
    &&& world(ActionView::ReadStdout) matches EventView::Output(bytes) && (expect_utf8
        ==> valid_utf8(bytes))
    &&& succeeds(world)
}

/// What is read from a command, text or bytes, is all that its process wrote, and it is
/// given if and only if all is well with the process. A command whose output is logged must
/// have a name to log it with.
pub proof fn read_gives_all_output(cmd: CmdView, expect_utf8: bool, world: World)
    requires
        answering(world),
        ended_stays_ended(world),
        cmd.echo_cmd ==> cmd.bin_name() is Some,
    ensures
        readable(cmd, expect_utf8, world) <==> result(
            cmd.read_impl(expect_utf8),
            world,
        ) matches StepView::Finish(Ok(_)),
        result(cmd.read_impl(expect_utf8), world) matches StepView::Finish(Ok(outcome))
            ==> match outcome {
            OutcomeView::Text(text) => expect_utf8 && encode_utf8(text) == world(
                ActionView::ReadStdout,
            )->Output_0,
            OutcomeView::Bytes(bytes) => !expect_utf8 && bytes == world(
                ActionView::ReadStdout,
            )->Output_0,
            _ => false,
        },
        result(cmd.read_impl(expect_utf8), world) matches StepView::Finish(Err(error))
            ==> error.cmd() == cmd,
{
    let goal = if expect_utf8 {
        Goal::Text
    } else {
        Goal::Bytes
    };
    launch_course(cmd, Stdio::Piped, goal, world);
    started_or_failed(cmd, Stdio::Piped, world);
    if let EventView::Output(bytes) = world(ActionView::ReadStdout) {
        if valid_utf8(bytes) {
            vstd::utf8::decode_utf8_encode_utf8(bytes);
        }
    }
}

/// Where bytes can be read from a command, text can be read if and only if they are UTF-8;
/// it is the text that they encode. Where text can be read, so can bytes.
pub proof fn text_and_bytes_agree(cmd: CmdView, world: World)
    requires
        answering(world),
        ended_stays_ended(world),
        cmd.echo_cmd ==> cmd.bin_name() is Some,
    ensures
        result(cmd.read_impl(false), world) matches StepView::Finish(
            Ok(OutcomeView::Bytes(bytes)),
        ) ==> (valid_utf8(bytes) <==> result(cmd.read_impl(true), world) matches StepView::Finish(
            Ok(_),
        )),
        result(cmd.read_impl(true), world) matches StepView::Finish(Ok(OutcomeView::Text(text)))
            ==> result(cmd.read_impl(false), world) == StepView::Finish(
            Ok(OutcomeView::Bytes(encode_utf8(text))),
        ),
{
    read_gives_all_output(cmd, true, world);
    read_gives_all_output(cmd, false, world);
}

/// Whether `line` is one of those that the session of `cmd` may log: the process and its
/// output, if the command asks for that; the failure, if it asks for that; and that the
/// process is killed, when that happens.
pub open spec fn loggable(
    cmd: CmdView,
    stdout: Stdio,
    goal: Goal,
    world: World,
    line: Seq<char>,
) -> bool {
    ||| cmd.echo_cmd && (launched(cmd, stdout, world) matches Some(child) && line
        == child.shown())
    ||| cmd.echo_cmd && (output_taken(cmd, stdout, goal, world) matches Some(data)
        && cmd.bin_name() is Some && line == output_shown(cmd.bin_name()->0, data))
    ||| cmd.echo_err && (invoked(cmd, stdout, goal, world) matches Err(error) && line
        == error.shown())
    ||| world(ActionView::TryWait) is Running && (launched(cmd, stdout, world) matches Some(
        child,
    ) && cmd.bin_name() is Some && line == kill_shown(child.id, cmd.bin_name()->0))
}

/// Whether `action` is one of those that the session of `cmd` may take: its process is
/// started from what the command says; what is written to it is the data set for it; its
/// output is read only where that is the goal; it is killed only if it has not ended; and
/// only what is asked for is logged.
pub open spec fn called_for(
    cmd: CmdView,
    stdout: Stdio,
    goal: Goal,
    world: World,
    action: ActionView,
) -> bool {
    match action {
        ActionView::Spawn(launch) => launch == cmd.launch(stdout),
        ActionView::Log(line) => loggable(cmd, stdout, goal, world, line),
        ActionView::WriteStdin(bytes) => cmd.stdin matches Some(data) && bytes == data.bytes(),
        ActionView::ReadStdout => goal == Goal::Text || goal == Goal::Bytes,
        ActionView::TryWait => launched(cmd, stdout, world) is Some,
        ActionView::Kill => world(ActionView::TryWait) is Running,
        ActionView::Wait => goal != Goal::Child && launched(cmd, stdout, world) is Some,
        ActionView::Reap => world(ActionView::TryWait) is Running,
    }
}

/// Each action that the session of a command takes is called for.
#[verifier::rlimit(40)]
pub proof fn every_action_is_called_for(
    cmd: CmdView,
    stdout: Stdio,
    goal: Goal,
    world: World,
    i: int,
)
    requires
        answering(world),
        0 <= i < trace(SessionView::Launch { cmd, stdout, goal }, world).len(),
    ensures
        called_for(
            cmd,
            stdout,
            goal,
            world,
            trace(SessionView::Launch { cmd, stdout, goal }, world)[i],
        ),
{
    started_or_failed(cmd, stdout, world);
    let ok = |action: ActionView| called_for(cmd, stdout, goal, world, action);
    let spawn = spawn_actions(cmd, stdout, world);
    let pursuit = if spawned(cmd, stdout, world) is Ok {
        goal_actions(goal, world)
    } else {
        Seq::empty()
    };
    let output = output_log(cmd, output_taken(cmd, stdout, goal, world));
    let failure = failure_log(cmd, invoked(cmd, stdout, goal, world));
    let settle = settle_actions(owned_at_end(cmd, stdout, goal, world), world);
    assert(all(spawn, ok));
    assert(all(pursuit, ok));
    assert(all(output, ok));
    assert(all(failure, ok));
    assert(all(settle, ok));
    all_joined(spawn, pursuit, ok);
    all_joined(output, failure, ok);
    all_joined(spawn + pursuit, output + failure, ok);
    all_joined(spawn + pursuit + (output + failure), settle, ok);
    launch_course(cmd, stdout, goal, world);
    assert(ok(trace(SessionView::Launch { cmd, stdout, goal }, world)[i]));
}

/// Whether `ok` holds of each of the actions.
spec fn all(actions: Seq<ActionView>, ok: spec_fn(ActionView) -> bool) -> bool {
    forall|i: int| 0 <= i < actions.len() ==> ok(#[trigger] actions[i])
}

proof fn all_joined(
    first: Seq<ActionView>,
    second: Seq<ActionView>,
    ok: spec_fn(ActionView) -> bool,
)
    requires
        all(first, ok),
        all(second, ok),
    ensures
        all(first + second, ok),
{
}

/// The session of a command for which neither kind of logging is asked logs nothing, but
/// that it kills the process, when that happens.
pub proof fn quiet_command_logs_nothing(
    cmd: CmdView,
    stdout: Stdio,
    goal: Goal,
    world: World,
    i: int,
)
    requires
        answering(world),
        !cmd.echo_cmd,
        !cmd.echo_err,
        0 <= i < trace(SessionView::Launch { cmd, stdout, goal }, world).len(),
    ensures
        trace(SessionView::Launch { cmd, stdout, goal }, world)[i] matches ActionView::Log(line)
            ==> (launched(cmd, stdout, world) matches Some(child) && cmd.bin_name() is Some && line
            == kill_shown(child.id, cmd.bin_name()->0) && world(ActionView::TryWait) is Running),
{
    every_action_is_called_for(cmd, stdout, goal, world, i);
}

/// A failure is logged if the command asks for that.
pub proof fn asked_failure_is_logged(cmd: CmdView, stdout: Stdio, goal: Goal, world: World)
    requires
        answering(world),
        cmd.echo_err,
    ensures
        invoked(cmd, stdout, goal, world) matches Err(error) ==> trace(
            SessionView::Launch { cmd, stdout, goal },
            world,
        ).contains(ActionView::Log(error.shown())),
{
    launch_course(cmd, stdout, goal, world);
    if let Err(error) = invoked(cmd, stdout, goal, world) {
        let before = spawn_actions(cmd, stdout, world) + (if spawned(cmd, stdout, world) is Ok {
            goal_actions(goal, world)
        } else {
            Seq::empty()
        });
        let output = output_log(cmd, output_taken(cmd, stdout, goal, world));
        let at = (before + output).len() as int;
        assert(trace(SessionView::Launch { cmd, stdout, goal }, world)[at] == ActionView::Log(
            error.shown(),
        ));
    }
}

/// What is read from a process is logged if the command asks for that and has a name to log
/// it with, whether or not the process fails after that. It is logged before the failure.
pub proof fn asked_output_is_logged(
    cmd: CmdView,
    stdout: Stdio,
    goal: Goal,
    world: World,
    data: DataView,
)
    requires
        answering(world),
        cmd.echo_cmd,
        cmd.bin_name() is Some,
        output_taken(cmd, stdout, goal, world) == Some(data),
    ensures
        ({
            let actions = trace(SessionView::Launch { cmd, stdout, goal }, world);
            let line = ActionView::Log(output_shown(cmd.bin_name()->0, data));
            &&& actions.contains(line)
            &&& cmd.echo_err ==> (invoked(cmd, stdout, goal, world) matches Err(error)
                ==> exists|at: int|
                    0 <= at < actions.len() - 1 && #[trigger] actions[at] == line && actions[at + 1]
                        == ActionView::Log(error.shown()))
        }),
{
    launch_course(cmd, stdout, goal, world);
    let actions = trace(SessionView::Launch { cmd, stdout, goal }, world);
    let line = ActionView::Log(output_shown(cmd.bin_name()->0, data));
    let at = (spawn_actions(cmd, stdout, world) + goal_actions(goal, world)).len() as int;
    assert(actions[at] == line);
    if let Err(error) = invoked(cmd, stdout, goal, world) {
        if cmd.echo_err {
            assert(actions[at + 1] == ActionView::Log(error.shown()));
        }
    }
}

/// A process that starts is logged right away if its command asks for that, and is given
/// all of the data that there is for it before anything else is done about it.
#[verifier::rlimit(40)]
pub proof fn started_process_is_logged_and_fed(
    cmd: CmdView,
    stdout: Stdio,
    goal: Goal,
    world: World,
    child: ChildView,
)
    requires
        answering(world),
        launched(cmd, stdout, world) == Some(child),
    ensures
        ({
            let actions = trace(SessionView::Launch { cmd, stdout, goal }, world);
            let at: int = if cmd.echo_cmd {
                2
            } else {
                1
            };
            &&& actions[0] == ActionView::Spawn(cmd.launch(stdout))
            &&& cmd.echo_cmd ==> actions.len() > 1 && actions[1] == ActionView::Log(child.shown())
            &&& cmd.stdin matches Some(data) ==> actions.len() > at && actions[at]
                == ActionView::WriteStdin(data.bytes())
        }),
{
    launch_course(cmd, stdout, goal, world);
    let spawn = spawn_actions(cmd, stdout, world);
    assert(forall|j: int|
        0 <= j < spawn.len() ==> trace(SessionView::Launch { cmd, stdout, goal }, world)[j]
            == #[trigger] spawn[j]);
}

/// A session that ends without handing out the process that it started leaves none behind:
/// the process was seen to have ended, or it was killed and its end was awaited.
#[verifier::rlimit(40)]
pub proof fn no_process_is_left_behind(
    cmd: CmdView,
    stdout: Stdio,
    goal: Goal,
    world: World,
    ending: Result<OutcomeView, ErrorView>,
)
    requires
        answering(world),
        launched(cmd, stdout, world) is Some,
        result(SessionView::Launch { cmd, stdout, goal }, world) == StepView::Finish(ending),
        !(ending matches Ok(OutcomeView::Child(_))),
    ensures
        ({
            let actions = trace(SessionView::Launch { cmd, stdout, goal }, world);
            ||| actions.contains(ActionView::TryWait) && world(ActionView::TryWait) is Exited
            ||| actions.contains(ActionView::Kill) && actions.contains(ActionView::Reap) && world(
                ActionView::Reap,
            ) is Exited
        }),
{
    launch_course(cmd, stdout, goal, world);
    started_or_failed(cmd, stdout, world);
    assert(answers(ActionView::TryWait, world(ActionView::TryWait)));
    assert(answers(ActionView::Reap, world(ActionView::Reap)));
    let child = launched(cmd, stdout, world)->0;
    assert(owned_at_end(cmd, stdout, goal, world) == Some(child));
    let before = spawn_actions(cmd, stdout, world) + (if spawned(cmd, stdout, world) is Ok {
        goal_actions(goal, world)
    } else {
        Seq::empty()
    }) + ending_log(
        cmd,
        output_taken(cmd, stdout, goal, world),
        invoked(cmd, stdout, goal, world),
    );
    let last = drop_actions(child, world);
    let actions = trace(SessionView::Launch { cmd, stdout, goal }, world);
    assert(actions == before + last);
    let at = before.len() as int;
    assert(actions[at] == last[0]);
    if world(ActionView::TryWait) is Running {
        assert(actions[at + 2] == last[2]);
        assert(actions[at + 3] == last[3]);
    }
}

/// Whether the process is started from all that `cmd` says and nothing else: the binary, all
/// of the arguments in order, and the directory. Its `stdin` is a pipe if and only if there
/// is data for it, and nowhere otherwise; its `stderr` is that of this process.
pub open spec fn started_as_set(cmd: CmdView, stdout: Stdio, action: ActionView) -> bool {
    &&& action matches ActionView::Spawn(launch) && {
        &&& launch.bin == cmd.bin
        &&& launch.args == cmd.args
        &&& launch.current_dir == cmd.current_dir
        &&& launch.stdin == Stdio::Piped <==> cmd.stdin is Some
        &&& launch.stdin == Stdio::Null <==> cmd.stdin is None
        &&& launch.stdout == stdout
        &&& launch.stderr == Stdio::Inherit
    }
}

/// However a command is invoked, the first that is done is to start its process from all that
/// the command says. With a pipe for its `stdout` or without, it is the same process.
pub proof fn process_is_started_as_set(cmd: CmdView, stdout: Stdio, expect_utf8: bool)
    ensures
        started_as_set(cmd, Stdio::Inherit, cmd.run().action()),
        started_as_set(cmd, Stdio::Piped, cmd.read_impl(expect_utf8).action()),
        started_as_set(cmd, stdout, cmd.spawn_with(stdout).action()),
{
}

/// In the session of a command its process is started from all that the command says, that
/// is done first, and it is done once.
pub proof fn process_is_started_once(
    cmd: CmdView,
    stdout: Stdio,
    goal: Goal,
    world: World,
    i: int,
)
    requires
        answering(world),
        0 <= i < trace(SessionView::Launch { cmd, stdout, goal }, world).len(),
    ensures
        ({
            let actions = trace(SessionView::Launch { cmd, stdout, goal }, world);
            &&& started_as_set(cmd, stdout, actions[0])
            &&& actions[i] is Spawn <==> i == 0
        }),
{
    let session = SessionView::Launch { cmd, stdout, goal };
    session_ends(session, world);
    every_action_is_called_for(cmd, stdout, goal, world, i);
    if i > 0 {
        no_action_is_repeated(session, world, 0, i);
    }
}

/// A wait for a process, with a pipe or without, waits for its end before anything else and
/// neither looks at the process otherwise nor kills it. It succeeds if and only if the
/// process ends with success; where the process ends otherwise, the failure is of that
/// process and tells its exit status, and where its end cannot be awaited, why.
pub proof fn wait_reports_how_the_process_ended(child: ChildView, world: World)
    requires
        answering(world),
    ensures
        ({
            let actions = trace(child.wait(), world);
            let end = result(child.wait(), world);
            &&& actions.len() > 0
            &&& actions[0] == ActionView::Wait
            &&& forall|i: int|
                0 < i < actions.len() ==> child.cmd.echo_err && #[trigger] actions[i] is Log
            &&& end == StepView::Finish(Ok(OutcomeView::Unit)) <==> (world(
                ActionView::Wait,
            ) matches EventView::Exited(status) && status.success)
            &&& world(ActionView::Wait) matches EventView::Exited(status) ==> !status.success
                ==> end == StepView::Finish(
                Err(ErrorView::Process(child, CauseView::ExitStatus(status.text))),
            )
            &&& world(ActionView::Wait) matches EventView::Failed(message) ==> end
                == StepView::Finish(Err(ErrorView::Process(child, CauseView::Io(message))))
        }),
{
    assert(answers(ActionView::Wait, world(ActionView::Wait)));
    wait_course(child, false, world);
}

/// A process that is given up, with a pipe or without, is looked at before anything else and
/// never just waited for. If it is still running, that it is killed is logged, it is killed,
/// and its end is awaited, one right after the other; if it has ended, nothing more is done.
/// A process without a name to log is left running.
pub proof fn drop_kills_what_still_runs(child: ChildView, world: World)
    requires
        answering(world),
    ensures
        ({
            let actions = trace(child.drop(), world);
            &&& actions.len() > 0
            &&& actions[0] == ActionView::TryWait
            &&& !actions.contains(ActionView::Wait)
            &&& actions.contains(ActionView::Kill) <==> world(ActionView::TryWait) is Running
                && path_first(child.cmd.bin) is Some
            &&& world(ActionView::TryWait) is Running ==> (path_first(
                child.cmd.bin,
            ) matches Some(first) ==> actions.len() == 4 && actions[1] == ActionView::Log(
                "[KILL "@ + decimal(child.id as nat) + "] "@ + os_text(first),
            ) && actions[2] == ActionView::Kill && actions[3] == ActionView::Reap)
            &&& world(ActionView::TryWait) is Exited ==> actions.len() == 1 && result(
                child.drop(),
                world,
            ) == StepView::Finish(Ok(OutcomeView::Unit))
            &&& world(ActionView::TryWait) is Running && world(ActionView::Reap) is Exited
                && path_first(child.cmd.bin) is Some ==> result(child.drop(), world)
                == StepView::Finish(Ok(OutcomeView::Unit))
        }),
{
    assert(answers(ActionView::TryWait, world(ActionView::TryWait)));
    assert(answers(ActionView::Reap, world(ActionView::Reap)));
    drop_course(child, Ok(OutcomeView::Unit), world);
    let actions = trace(child.drop(), world);
    if world(ActionView::TryWait) is Running && path_first(child.cmd.bin) is Some {
        assert(actions[2] == ActionView::Kill);
    }
}

/// Text that is set for `stdin` is written to the process as all of its UTF-8, and bytes as
/// they are, however long they are and however the command is invoked. Nothing else is ever
/// written, and nothing where nothing is set.
#[verifier::rlimit(40)]
pub proof fn input_is_written_whole(
    cmd: CmdView,
    text: Seq<char>,
    bytes: Seq<u8>,
    stdout: Stdio,
    goal: Goal,
    world: World,
)
    requires
        answering(world),
    ensures
        ({
            let with_text = CmdView { stdin: Some(DataView::Utf8(text)), ..cmd };
            let actions = trace(SessionView::Launch { cmd: with_text, stdout, goal }, world);
            &&& forall|i: int|
                0 <= i < actions.len() ==> (#[trigger] actions[i] matches ActionView::WriteStdin(
                    written,
                ) ==> written == encode_utf8(text))
            &&& launched(with_text, stdout, world) is Some ==> actions.contains(
                ActionView::WriteStdin(encode_utf8(text)),
            )
        }),
        ({
            let with_bytes = CmdView { stdin: Some(DataView::Bin(bytes)), ..cmd };
            let actions = trace(SessionView::Launch { cmd: with_bytes, stdout, goal }, world);
            &&& forall|i: int|
                0 <= i < actions.len() ==> (#[trigger] actions[i] matches ActionView::WriteStdin(
                    written,
                ) ==> written == bytes)
            &&& launched(with_bytes, stdout, world) is Some ==> actions.contains(
                ActionView::WriteStdin(bytes),
            )
        }),
        ({
            let without = CmdView { stdin: None, ..cmd };
            let actions = trace(SessionView::Launch { cmd: without, stdout, goal }, world);
            forall|i: int| 0 <= i < actions.len() ==> !(#[trigger] actions[i] is WriteStdin)
        }),
{
    only_the_input_is_written(
        CmdView { stdin: Some(DataView::Utf8(text)), ..cmd },
        stdout,
        goal,
        world,
    );
    only_the_input_is_written(
        CmdView { stdin: Some(DataView::Bin(bytes)), ..cmd },
        stdout,
        goal,
        world,
    );
    only_the_input_is_written(CmdView { stdin: None, ..cmd }, stdout, goal, world);
}

proof fn only_the_input_is_written(cmd: CmdView, stdout: Stdio, goal: Goal, world: World)
    requires
        answering(world),
    ensures
        ({
            let actions = trace(SessionView::Launch { cmd, stdout, goal }, world);
            &&& forall|i: int|
                0 <= i < actions.len() ==> (#[trigger] actions[i] matches ActionView::WriteStdin(
                    written,
                ) ==> (cmd.stdin matches Some(data) && written == data.bytes()))
            &&& launched(cmd, stdout, world) is Some ==> (cmd.stdin matches Some(data)
                ==> actions.contains(ActionView::WriteStdin(data.bytes())))
        }),
{
    let actions = trace(SessionView::Launch { cmd, stdout, goal }, world);
    assert forall|i: int| 0 <= i < actions.len() implies (
    #[trigger] actions[i] matches ActionView::WriteStdin(written) ==> (cmd.stdin matches Some(data)
        && written == data.bytes())) by {
        every_action_is_called_for(cmd, stdout, goal, world, i);
    }
    if let Some(child) = launched(cmd, stdout, world) {
        started_process_is_logged_and_fed(cmd, stdout, goal, world, child);
        if let Some(data) = cmd.stdin {
            let at: int = if cmd.echo_cmd {
                2
            } else {
                1
            };
            assert(actions[at] == ActionView::WriteStdin(data.bytes()));
        }
    }
}

/// A new command has its binary and nothing else, and everything about it is logged.
pub proof fn new_command_has_the_defaults(bin: PathBuf)
    ensures
        CmdView::new(bin).bin == bin,
        CmdView::new(bin).args.len() == 0,
        CmdView::new(bin).stdin is None,
        CmdView::new(bin).current_dir is None,
        CmdView::new(bin).echo_cmd,
        CmdView::new(bin).echo_err,
{
}

/// Each setting changes what it is for, and leaves all else as it was.
pub proof fn setting_changes_its_own_thing(
    cmd: CmdView,
    path: PathBuf,
    data: DataView,
    yes: bool,
)
    ensures
        cmd.with_bin(path) == (CmdView { bin: path, ..cmd }),
        cmd.with_current_dir(path) == (CmdView { current_dir: Some(path), ..cmd }),
        cmd.with_stdin(data) == (CmdView { stdin: Some(data), ..cmd }),
        cmd.with_echo_cmd(yes) == (CmdView { echo_cmd: yes, ..cmd }),
        cmd.with_echo_err(yes) == (CmdView { echo_err: yes, ..cmd }),
{
}

/// Arguments are appended behind those that are there, in order; a replaced argument gives
/// way to the other. The arguments that are not meant stay where they are, and so does all
/// else.
pub proof fn arguments_keep_their_places(
    cmd: CmdView,
    arg: PathBuf,
    more: Seq<PathBuf>,
    idx: int,
    i: int,
)
    ensures
        cmd.with_arg(arg) == (CmdView { args: cmd.with_arg(arg).args, ..cmd }),
        cmd.with_arg(arg).args.len() == cmd.args.len() + 1,
        cmd.with_arg(arg).args.last() == arg,
        0 <= i < cmd.args.len() ==> cmd.with_arg(arg).args[i] == cmd.args[i],
        cmd.with_args(more) == (CmdView { args: cmd.with_args(more).args, ..cmd }),
        cmd.with_args(more).args.len() == cmd.args.len() + more.len(),
        0 <= i < cmd.args.len() ==> cmd.with_args(more).args[i] == cmd.args[i],
        0 <= i < more.len() ==> cmd.with_args(more).args[cmd.args.len() + i] == more[i],
        0 <= idx < cmd.args.len() ==> {
            let replaced = cmd.with_replaced_arg(idx, arg);
            &&& replaced == (CmdView { args: replaced.args, ..cmd })
            &&& replaced.args.len() == cmd.args.len()
            &&& 0 <= i < cmd.args.len() ==> replaced.args[i] == if i == idx {
                arg
            } else {
                cmd.args[i]
            }
        },
{
}

/// Of data set for `stdin` one after another, the last stays; so does the last binary,
/// directory, and choice of logging.
pub proof fn last_setting_stays(
    cmd: CmdView,
    first: DataView,
    last: DataView,
    other: PathBuf,
    path: PathBuf,
    before: bool,
    yes: bool,
)
    ensures
        cmd.with_stdin(first).with_stdin(last) == cmd.with_stdin(last),
        cmd.with_bin(other).with_bin(path) == cmd.with_bin(path),
        cmd.with_current_dir(other).with_current_dir(path) == cmd.with_current_dir(path),
        cmd.with_echo_cmd(before).with_echo_cmd(yes) == cmd.with_echo_cmd(yes),
        cmd.with_echo_err(before).with_echo_err(yes) == cmd.with_echo_err(yes),
{
}

/// Settings of different things do not get in each other's way, in whichever order they are
/// made.
pub proof fn settings_are_independent(
    cmd: CmdView,
    bin: PathBuf,
    dir: PathBuf,
    data: DataView,
    args: Seq<PathBuf>,
    echo_cmd: bool,
    echo_err: bool,
)
    ensures
        ({
            let one = cmd.with_bin(bin).with_current_dir(dir).with_stdin(data).with_args(
                args,
            ).with_echo_cmd(echo_cmd).with_echo_err(echo_err);
            let other = cmd.with_echo_err(echo_err).with_echo_cmd(echo_cmd).with_args(
                args,
            ).with_stdin(data).with_current_dir(dir).with_bin(bin);
            &&& one == other
            &&& one == CmdView {
                bin,
                args: cmd.args + args,
                stdin: Some(data),
                current_dir: Some(dir),
                echo_cmd,
                echo_err,
            }
        }),
{
}

/// To append arguments at once is to append them one after another, and it does not matter
/// where they are split.
pub proof fn args_append_in_order(
    cmd: CmdView,
    first: Seq<PathBuf>,
    arg: PathBuf,
    rest: Seq<PathBuf>,
)
    ensures
        cmd.with_args(Seq::empty()) == cmd,
        cmd.with_args(first.push(arg)) == cmd.with_args(first).with_arg(arg),
        cmd.with_args(first + rest) == cmd.with_args(first).with_args(rest),
{
    assert(cmd.args + Seq::<PathBuf>::empty() =~= cmd.args);
    assert(cmd.args + first.push(arg) =~= (cmd.args + first).push(arg));
    assert(cmd.args + (first + rest) =~= (cmd.args + first) + rest);
}

/// To replace an argument is to have appended another in its place.
pub proof fn replaced_arg_takes_its_place(
    cmd: CmdView,
    first: Seq<PathBuf>,
    arg: PathBuf,
    other: PathBuf,
    rest: Seq<PathBuf>,
)
    ensures
        cmd.with_args(first).with_arg(arg).with_args(rest).with_replaced_arg(
            (cmd.args.len() + first.len()) as int,
            other,
        ) == cmd.with_args(first).with_arg(other).with_args(rest),
{
    let idx = (cmd.args.len() + first.len()) as int;
    assert(((cmd.args + first).push(arg) + rest).update(idx, other) =~= (cmd.args + first).push(
        other,
    ) + rest);
}

/// The path that a search finds among `candidates`, where `is_file` says at which there is
/// a file.
pub open spec fn found(
    candidates: Seq<PathBuf>,
    is_file: spec_fn(PathBuf) -> bool,
) -> Option<PathBuf>
    decreases candidates.len(),
{
    if candidates.len() == 0 {
        None
    } else if is_file(candidates[0]) {
        Some(candidates[0])
    } else {
        found(candidates.skip(1), is_file)
    }
}

/// A search finds the first of the candidates at which there is a file, and nothing only if
/// there is one at none of them.
pub proof fn search_finds_first_file(
    candidates: Seq<PathBuf>,
    is_file: spec_fn(PathBuf) -> bool,
)
    ensures
        match found(candidates, is_file) {
            Some(path) => is_file(path) && exists|i: int|
                0 <= i < candidates.len() && #[trigger] candidates[i] == path && forall|j: int|
                    0 <= j < i ==> !is_file(#[trigger] candidates[j]),
            None => forall|i: int|
                0 <= i < candidates.len() ==> !is_file(#[trigger] candidates[i]),
        },
    decreases candidates.len(),
{
    if candidates.len() > 0 && !is_file(candidates[0]) {
        let rest = candidates.skip(1);
        search_finds_first_file(rest, is_file);
        match found(rest, is_file) {
            Some(path) => {
                let i = choose|i: int|
                    0 <= i < rest.len() && #[trigger] rest[i] == path && forall|j: int|
                        0 <= j < i ==> !is_file(#[trigger] rest[j]);
                assert(candidates[i + 1] == path);
                assert forall|j: int| 0 <= j < i + 1 implies !is_file(
                    #[trigger] candidates[j],
                ) by {
                    if j > 0 {
                        assert(rest[j - 1] == candidates[j]);
                    }
                }
            },
            None => {
                assert forall|j: int| 0 <= j < candidates.len() implies !is_file(
                    #[trigger] candidates[j],
                ) by {
                    if j > 0 {
                        assert(rest[j - 1] == candidates[j]);
                    }
                }
            },
        }
    }
}

/// A search looks at one candidate after the other, up to the first at which there is a file;
/// it comes to a new command for that one. It goes on only where there is none, and is at its
/// end, and stays there, only where no candidate is left.
pub proof fn search_comes_to_what_is_found(
    candidates: Seq<PathBuf>,
    is_file: spec_fn(PathBuf) -> bool,
)
    ensures
        match probed(candidates) {
            Some(path) => match answered(candidates, is_file(path)) {
                Ok(cmd) => {
                    &&& is_file(path)
                    &&& found(candidates, is_file) == Some(path)
                    &&& cmd.bin == path
                    &&& cmd.args.len() == 0
                    &&& cmd.stdin is None
                    &&& cmd.current_dir is None
                    &&& cmd.echo_cmd
                    &&& cmd.echo_err
                },
                Err(rest) => {
                    &&& !is_file(path)
                    &&& candidates == seq![path] + rest
                    &&& found(candidates, is_file) == found(rest, is_file)
                },
            },
            None => {
                &&& candidates.len() == 0
                &&& found(candidates, is_file) is None
                &&& answered(candidates, true) == Err::<CmdView, Seq<PathBuf>>(candidates)
                &&& answered(candidates, false) == Err::<CmdView, Seq<PathBuf>>(candidates)
            },
        },
{
    if candidates.len() > 0 {
        assert(candidates =~= seq![candidates[0]] + candidates.skip(1));
    }
}

/// A line is handed out as it was read. It is logged before if and only if that is asked
/// for, with the identifier and the name of the process. The end of the output is the end of
/// the lines, and an error in reading a panic that tells it.
pub proof fn line_is_handed_out_as_read(lines: LinesView, line: Seq<char>)
    ensures
        lines.next(None) == LineStepView::End,
        lines.next(Some(Err(line))) == LineStepView::Panic("Unexpected io error: "@ + line),
        lines.next(Some(Ok(line))) matches LineStepView::Line(given, log) && given == line && (
        log is Some <==> lines.echo) && (log matches Some(text) ==> text == "["@ + decimal(
            lines.id as nat,
        ) + " "@ + lines.bin_name + "] "@ + line),
{
}

/// What an attempt to read a line came to is taken as it is.
pub proof fn attempt_says_what_it_came_to(line: String)
    ensures
        read_view(None) is None,
        read_view(Some(Ok(line))) == Some(Ok::<Seq<char>, Seq<char>>(line@)),
        read_view(Some(Err(line))) == Some(Err::<Seq<char>, Seq<char>>(line@)),
{
}

/// The lines of a process are logged if and only if its command asks for that, under the
/// identifier of the process and the first component of the path of its binary. Without one
/// there are no lines.
pub proof fn lines_are_those_of_the_process(child: ChildView)
    ensures
        child.lines() is Some <==> path_first(child.cmd.bin) is Some,
        child.lines() matches Some(lines) ==> {
            &&& lines.echo == child.cmd.echo_cmd
            &&& lines.id == child.id
            &&& lines.bin_name == os_text(path_first(child.cmd.bin)->0)
        },
{
}

/// The file that names the binary `bin`: the one at that path, or else, where binaries have
/// an extension and the path has none, the one at that path with the extension.
pub open spec fn file_of(
    bin: PathBuf,
    exe_extension: Seq<char>,
    is_file: spec_fn(PathBuf) -> bool,
) -> Option<PathBuf> {
    let other = path_with_extension(bin, exe_extension);
    if is_file(bin) {
        Some(bin)
    } else if exe_extension.len() > 0 && path_extension(bin) is None && is_file(other) {
        Some(other)
    } else {
        None
    }
}

/// A binary is found at its path if there is a file, and else at its path with the extension
/// of binaries if they have one and the path has none. No other path is looked at.
pub proof fn binary_is_found_at_its_path(
    bin: PathBuf,
    exe_extension: Seq<char>,
    is_file: spec_fn(PathBuf) -> bool,
)
    ensures
        found(candidates_at(bin, exe_extension), is_file) == file_of(bin, exe_extension, is_file),
        candidates_at(bin, exe_extension)[0] == bin,
        candidates_at(bin, exe_extension).len() == if exe_extension.len() > 0 && path_extension(
            bin,
        ) is None {
            2int
        } else {
            1int
        },
        candidates_at(bin, exe_extension).len() == 2 ==> candidates_at(bin, exe_extension)[1]
            == path_with_extension(bin, exe_extension),
{
    reveal_with_fuel(found, 3);
}

/// Through `PATH` a binary is found in the first of all its directories, however many there
/// are, in which a file names it; none is found only if no file does in any of them. Where
/// `PATH` is not set, none is found.
pub proof fn lookup_goes_through_all_of_path(
    dirs: Vec<PathBuf>,
    bin_name: Seq<char>,
    exe_extension: Seq<char>,
    is_file: spec_fn(PathBuf) -> bool,
)
    ensures
        candidates_in(dirs_of(None), bin_name, exe_extension).len() == 0,
        match found(candidates_in(dirs_of(Some(dirs)), bin_name, exe_extension), is_file) {
            Some(path) => exists|i: int|
                0 <= i < dirs@.len() && file_of(
                    path_join(#[trigger] dirs@[i], bin_name),
                    exe_extension,
                    is_file,
                ) == Some(path) && forall|j: int|
                    0 <= j < i ==> file_of(
                        path_join(#[trigger] dirs@[j], bin_name),
                        exe_extension,
                        is_file,
                    ) is None,
            None => forall|i: int|
                0 <= i < dirs@.len() ==> file_of(
                    path_join(#[trigger] dirs@[i], bin_name),
                    exe_extension,
                    is_file,
                ) is None,
        },
{
    first_directory_is_taken(dirs@, bin_name, exe_extension, is_file);
}

proof fn first_directory_is_taken(
    dirs: Seq<PathBuf>,
    bin_name: Seq<char>,
    exe_extension: Seq<char>,
    is_file: spec_fn(PathBuf) -> bool,
)
    ensures
        match found(candidates_in(dirs, bin_name, exe_extension), is_file) {
            Some(path) => exists|i: int|
                0 <= i < dirs.len() && file_of(
                    path_join(#[trigger] dirs[i], bin_name),
                    exe_extension,
                    is_file,
                ) == Some(path) && forall|j: int|
                    0 <= j < i ==> file_of(
                        path_join(#[trigger] dirs[j], bin_name),
                        exe_extension,
                        is_file,
                    ) is None,
            None => forall|i: int|
                0 <= i < dirs.len() ==> file_of(
                    path_join(#[trigger] dirs[i], bin_name),
                    exe_extension,
                    is_file,
                ) is None,
        },
    decreases dirs.len(),
{
    if dirs.len() > 0 {
        let before = dirs.drop_last();
        let bin = path_join(dirs.last(), bin_name);
        first_directory_is_taken(before, bin_name, exe_extension, is_file);
        binary_is_found_at_its_path(bin, exe_extension, is_file);
        search_in_turn(
            candidates_in(before, bin_name, exe_extension),
            candidates_at(bin, exe_extension),
            is_file,
        );
        assert forall|i: int| 0 <= i < before.len() implies #[trigger] dirs[i] == before[i] by {}
        match found(candidates_in(before, bin_name, exe_extension), is_file) {
            Some(path) => {
                let i = choose|i: int|
                    0 <= i < before.len() && file_of(
                        path_join(#[trigger] before[i], bin_name),
                        exe_extension,
                        is_file,
                    ) == Some(path) && forall|j: int|
                        0 <= j < i ==> file_of(
                            path_join(#[trigger] before[j], bin_name),
                            exe_extension,
                            is_file,
                        ) is None;
                assert(dirs[i] == before[i]);
            },
            None => {
                assert(dirs[dirs.len() - 1] == dirs.last());
            },
        }
    }
}

/// The paths looked at for two lists of directories are those for the first and then those
/// for the second; for one directory they are those for the binary in it.
pub proof fn directories_are_looked_in_one_by_one(
    first: Seq<PathBuf>,
    dir: PathBuf,
    rest: Seq<PathBuf>,
    bin_name: Seq<char>,
    exe_extension: Seq<char>,
)
    ensures
        candidates_in(Seq::empty(), bin_name, exe_extension).len() == 0,
        candidates_in(seq![dir], bin_name, exe_extension) == candidates_at(
            path_join(dir, bin_name),
            exe_extension,
        ),
        candidates_in(first + rest, bin_name, exe_extension) == candidates_in(
            first,
            bin_name,
            exe_extension,
        ) + candidates_in(rest, bin_name, exe_extension),
    decreases rest.len(),
{
    assert(seq![dir].drop_last() =~= Seq::<PathBuf>::empty());
    assert(candidates_in(seq![dir].drop_last(), bin_name, exe_extension) =~= Seq::empty());
    if rest.len() == 0 {
        assert(first + rest =~= first);
    } else {
        assert((first + rest).drop_last() =~= first + rest.drop_last());
        directories_are_looked_in_one_by_one(
            first,
            dir,
            rest.drop_last(),
            bin_name,
            exe_extension,
        );
    }
}

/// To search two lists of candidates, one after the other, is to search the second only if
/// nothing is found in the first.
proof fn search_in_turn(
    first: Seq<PathBuf>,
    second: Seq<PathBuf>,
    is_file: spec_fn(PathBuf) -> bool,
)
    ensures
        found(first + second, is_file) == match found(first, is_file) {
            Some(path) => Some(path),
            None => found(second, is_file),
        },
    decreases first.len(),
{
    if first.len() == 0 {
        assert(first + second =~= second);
    } else {
        assert((first + second).skip(1) =~= first.skip(1) + second);
        search_in_turn(first.skip(1), second, is_file);
    }
}

/// A binary looked for in `PATH` is the one that is found in the first of the directories
/// in which one is found. Where `PATH` is not set or names no directory, none is found.
pub proof fn lookup_tries_each_directory(
    dirs: Seq<PathBuf>,
    dir: PathBuf,
    bin_name: Seq<char>,
    exe_extension: Seq<char>,
    is_file: spec_fn(PathBuf) -> bool,
)
    ensures
        found(candidates_in(dirs_of(None), bin_name, exe_extension), is_file) is None,
        found(candidates_in(Seq::empty(), bin_name, exe_extension), is_file) is None,
        found(candidates_in(dirs.push(dir), bin_name, exe_extension), is_file) == match found(
            candidates_in(dirs, bin_name, exe_extension),
            is_file,
        ) {
            Some(path) => Some(path),
            None => found(
                candidates_at(path_join(dir, bin_name), exe_extension),
                is_file,
            ),
        },
{
    assert(dirs.push(dir).drop_last() =~= dirs);
    search_in_turn(
        candidates_in(dirs, bin_name, exe_extension),
        candidates_at(path_join(dir, bin_name), exe_extension),
        is_file,
    );
}

/// Where binaries have no extension, a binary is looked for at its own path alone; a file at
/// that path is found whatever else there is.
pub proof fn own_path_comes_first(
    bin: PathBuf,
    exe_extension: Seq<char>,
    is_file: spec_fn(PathBuf) -> bool,
)
    ensures
        exe_extension.len() == 0 ==> candidates_at(bin, exe_extension) == seq![bin],
        is_file(bin) ==> found(candidates_at(bin, exe_extension), is_file) == Some(bin),
{
}

} // verus!
