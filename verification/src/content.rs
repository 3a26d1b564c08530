//! What values hold and what is made of them on their way in and out of a process.
use crate::error::{Cause, CauseView, Error, ErrorView};
use crate::input::{capture_view, data_view, BinOrUtf8, DataView};
use crate::lines::{LineStep, LineStepView};
use crate::os::no_separator;
use crate::process::{
    answers, Action, ActionView, ChildProcess, Event, EventView, ExitStatus, ExitView, Launch,
    LaunchView,
};
use crate::session::{
    child_view, ending_view, error_view, outcome_of, Outcome, OutcomeView, Session, Step,
    StepView,
};
use crate::text::{optional_text, texts};
use crate::Cmd;
use vstd::prelude::*;
use vstd::utf8::{encode_utf8, valid_utf8};

verus! {

/// Text passes a pipe as all of its UTF-8, and bytes as they are.
pub proof fn data_passes_whole(text: Seq<char>, bytes: Seq<u8>)
    ensures
        DataView::Utf8(text).bytes() == encode_utf8(text),
        DataView::Bin(bytes).bytes() == bytes,
{
}

/// What is read as text is text whose UTF-8 is what the process wrote, and there is some
/// exactly where that is UTF-8. What is read as bytes is what the process wrote, always.
pub proof fn captured_data_is_what_was_written(bytes: Seq<u8>)
    ensures
        capture_view(bytes, false) == Some(DataView::Bin(bytes)),
        match capture_view(bytes, true) {
            Some(DataView::Utf8(text)) => valid_utf8(bytes) && encode_utf8(text) == bytes,
            Some(DataView::Bin(_)) => false,
            None => !valid_utf8(bytes),
        },
{
    if valid_utf8(bytes) {
        vstd::utf8::decode_utf8_encode_utf8(bytes);
    }
}

/// What one process is given on its `stdin` and writes to its `stdout` unchanged is read
/// from it as it was: text as text, and bytes, which text is too, as bytes.
pub proof fn data_comes_back_as_it_went(data: DataView)
    ensures
        capture_view(data.bytes(), false) == Some(DataView::Bin(data.bytes())),
        data matches DataView::Utf8(text) ==> capture_view(data.bytes(), true) == Some(data),
{
    if let DataView::Utf8(text) = data {
        vstd::utf8::encode_utf8_valid_utf8(text);
        vstd::utf8::encode_utf8_decode_utf8(text);
    }
}

/// What was captured is handed out as it is.
pub proof fn outcome_is_what_was_captured(text: Seq<char>, bytes: Seq<u8>)
    ensures
        outcome_of(DataView::Utf8(text)) == OutcomeView::Text(text),
        outcome_of(DataView::Bin(bytes)) == OutcomeView::Bytes(bytes),
{
}

/// Data, and optional data, say what they hold.
pub proof fn data_says_what_it_holds(bytes: Vec<u8>, text: String, data: BinOrUtf8)
    ensures
        BinOrUtf8::Bin(bytes)@ == DataView::Bin(bytes@),
        BinOrUtf8::Utf8(text)@ == DataView::Utf8(text@),
        data_view(Some(data)) == Some(data@),
        data_view(None) is None,
        optional_text(Some(text)) == Some(text@),
        optional_text(None) is None,
{
}

/// The texts of words are theirs, one for one and in order.
pub proof fn texts_are_those_of_the_words(words: Seq<String>, i: int)
    ensures
        texts(words).len() == words.len(),
        0 <= i < words.len() ==> texts(words)[i] == words[i]@,
{
}

/// A launch says what it holds.
pub proof fn launch_says_what_it_holds(launch: Launch)
    ensures
        launch@.bin == launch.bin,
        launch@.args == launch.args@,
        launch@.current_dir == launch.current_dir,
        launch@.stdin == launch.stdin,
        launch@.stdout == launch.stdout,
        launch@.stderr == launch.stderr,
{
}

/// An action says what it holds.
pub proof fn action_says_what_it_holds(launch: Launch, line: String, bytes: Vec<u8>)
    ensures
        Action::Spawn(launch)@ == ActionView::Spawn(launch@),
        Action::Log(line)@ == ActionView::Log(line@),
        Action::WriteStdin(bytes)@ == ActionView::WriteStdin(bytes@),
        Action::ReadStdout@ == ActionView::ReadStdout,
        Action::TryWait@ == ActionView::TryWait,
        Action::Kill@ == ActionView::Kill,
        Action::Wait@ == ActionView::Wait,
        Action::Reap@ == ActionView::Reap,
{
}

/// An event says what it holds.
pub proof fn event_says_what_it_holds(
    id: u32,
    bytes: Vec<u8>,
    status: ExitStatus,
    message: String,
)
    ensures
        status@ == (ExitView { success: status.success, text: status.text@ }),
        Event::Started(id)@ == EventView::Started(id),
        Event::Done@ == EventView::Done,
        Event::Output(bytes)@ == EventView::Output(bytes@),
        Event::Running@ == EventView::Running,
        Event::Exited(status)@ == EventView::Exited(status@),
        Event::Failed(message)@ == EventView::Failed(message@),
{
}

/// A failure says what it holds.
pub proof fn failure_says_what_it_holds(
    message: String,
    cmd: Cmd,
    child: ChildProcess,
    cause: Cause,
    error: Error,
)
    ensures
        Cause::Io(message)@ == CauseView::Io(message@),
        Cause::NotUtf8@ == CauseView::NotUtf8,
        Cause::ExitStatus(message)@ == CauseView::ExitStatus(message@),
        Error::Cmd(cmd, cause)@ == ErrorView::Cmd(cmd@, cause@),
        Error::Process(child, cause)@ == ErrorView::Process(child@, cause@),
        error_view(Some(error)) == Some(error@),
        error_view(None) is None,
{
}

/// The step of a session, and what the session gives, say what they hold.
pub proof fn step_says_what_it_holds(
    session: Session,
    outcome: Outcome,
    error: Error,
    child: ChildProcess,
    text: String,
    bytes: Vec<u8>,
)
    ensures
        Outcome::Child(child)@ == OutcomeView::Child(child@),
        Outcome::Unit@ == OutcomeView::Unit,
        Outcome::Text(text)@ == OutcomeView::Text(text@),
        Outcome::Bytes(bytes)@ == OutcomeView::Bytes(bytes@),
        ending_view(Ok(outcome)) == Ok::<OutcomeView, ErrorView>(outcome@),
        ending_view(Err(error)) == Err::<OutcomeView, ErrorView>(error@),
        child_view(Some(child)) == Some(child@),
        child_view(None) is None,
        Step::Perform(session)@ == StepView::Perform(session@),
        Step::Finish(Ok(outcome))@ == StepView::Finish(Ok(outcome@)),
        Step::Finish(Err(error))@ == StepView::Finish(Err(error@)),
        Step::Panic(text)@ == StepView::Panic(text@),
{
}

/// What came of reading a line says what it holds.
pub proof fn line_step_says_what_it_holds(line: String, log: String)
    ensures
        LineStep::End@ == LineStepView::End,
        LineStep::Line(line, None)@ == LineStepView::Line(line@, None),
        LineStep::Line(line, Some(log))@ == LineStepView::Line(line@, Some(log@)),
        LineStep::Panic(line)@ == LineStepView::Panic(line@),
{
}

/// What may come of each action: anything that the system can report of it, whatever the
/// report holds, and nothing else.
pub proof fn any_report_may_come(
    launch: LaunchView,
    line: Seq<char>,
    bytes: Seq<u8>,
    event: EventView,
)
    ensures
        answers(ActionView::Spawn(launch), event) <==> event is Started || event is Failed,
        answers(ActionView::Log(line), event) <==> event is Done,
        answers(ActionView::WriteStdin(bytes), event) <==> event is Done || event is Failed,
        answers(ActionView::ReadStdout, event) <==> event is Output || event is Failed,
        answers(ActionView::TryWait, event) <==> event is Running || event is Exited || event
            is Failed,
        answers(ActionView::Kill, event) <==> event is Done || event is Failed,
        answers(ActionView::Wait, event) <==> event is Exited || event is Failed,
        answers(ActionView::Reap, event) <==> event is Exited || event is Failed,
{
}

/// An extension is free of separators if and only if none of its characters is one.
pub proof fn separators_are_slashes(text: Seq<char>)
    ensures
        no_separator(text) <==> forall|i: int|
            0 <= i < text.len() ==> #[trigger] text[i] != '/' && text[i] != '\\',
{
    if !no_separator(text) {
        if text.contains('/') {
            let i = choose|i: int| 0 <= i < text.len() && text[i] == '/';
            assert(text[i] == '/');
        } else {
            let i = choose|i: int| 0 <= i < text.len() && text[i] == '\\';
            assert(text[i] == '\\');
        }
    }
}

} // verus!
