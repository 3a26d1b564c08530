//! What the messages say: how each text is made up of the values that it is about.
use crate::cmd::CmdView;
use crate::error::{CauseView, ErrorView};
use crate::input::DataView;
use crate::message::{kill_shown, line_shown, output_shown};
use crate::os::{os_text, path_display, path_first};
use crate::process::ChildView;
use crate::session::nameless;
use crate::text::{blank_led, comma_separated, decimal};
use std::path::PathBuf;
use vstd::prelude::*;

verus! {

/// The number that a text of decimal digits denotes.
pub open spec fn number(text: Seq<char>) -> int
    decreases text.len(),
{
    if text.len() == 0 {
        0
    } else {
        10 * number(text.drop_last()) + (text.last() as int - '0' as int)
    }
}

/// A number is shown in decimal digits that denote it, with no zero in front of others.
pub proof fn decimal_denotes_its_number(n: nat)
    ensures
        number(decimal(n)) == n,
        decimal(n).len() > 0,
        forall|i: int| 0 <= i < decimal(n).len() ==> '0' <= #[trigger] decimal(n)[i] <= '9',
        decimal(n).len() > 1 ==> decimal(n)[0] != '0',
    decreases n,
{
    if n < 10 {
        assert(decimal(n).drop_last() =~= Seq::empty());
        assert(number(decimal(n).drop_last()) == 0);
    } else {
        decimal_denotes_its_number(n / 10);
        assert(decimal(n).drop_last() =~= decimal(n / 10));
        if decimal(n / 10).len() == 1 {
            assert(decimal(n / 10).drop_last() =~= Seq::empty());
            assert(number(decimal(n / 10).drop_last()) == 0);
        }
    }
}

/// Different numbers are shown differently.
pub proof fn decimal_tells_numbers_apart(m: nat, n: nat)
    ensures
        decimal(m) == decimal(n) <==> m == n,
{
    decimal_denotes_its_number(m);
    decimal_denotes_its_number(n);
}

/// A list of bytes shows each of them in decimal notation, in order, and between any two
/// parts of the list stand a comma and a blank.
pub proof fn bytes_are_listed_in_order(first: Seq<u8>, byte: u8, rest: Seq<u8>)
    ensures
        comma_separated(Seq::empty()) == Seq::<char>::empty(),
        comma_separated(seq![byte]) == decimal(byte as nat),
        first.len() > 0 && rest.len() > 0 ==> comma_separated(first + rest) == comma_separated(
            first,
        ) + ", "@ + comma_separated(rest),
    decreases rest.len(),
{
    if first.len() > 0 && rest.len() > 0 {
        let all = first + rest;
        let before = rest.drop_last();
        assert(all.drop_last() =~= first + before);
        assert(all.last() == rest.last());
        if before.len() == 0 {
            assert(first + before =~= first);
        } else {
            bytes_are_listed_in_order(first, byte, before);
            assert(comma_separated(first) + ", "@ + comma_separated(before) + ", "@ + decimal(
                rest.last() as nat,
            ) =~= comma_separated(first) + ", "@ + (comma_separated(before) + ", "@ + decimal(
                rest.last() as nat,
            )));
        }
    }
}

/// Words are shown in order, each with one blank in front and nothing else between them.
pub proof fn words_are_shown_in_order(
    first: Seq<Seq<char>>,
    word: Seq<char>,
    rest: Seq<Seq<char>>,
)
    ensures
        blank_led(Seq::empty()) == Seq::<char>::empty(),
        blank_led(seq![word]) == " "@ + word,
        blank_led(first + rest) == blank_led(first) + blank_led(rest),
    decreases rest.len(),
{
    assert(seq![word].drop_last() =~= Seq::<Seq<char>>::empty());
    assert(blank_led(seq![word].drop_last()) =~= Seq::<char>::empty());
    assert(blank_led(seq![word]) =~= " "@ + word);
    if rest.len() == 0 {
        assert(first + rest =~= first);
        assert(blank_led(first) + blank_led(rest) =~= blank_led(first));
    } else {
        let before = rest.drop_last();
        assert((first + rest).drop_last() =~= first + before);
        assert((first + rest).last() == rest.last());
        words_are_shown_in_order(first, word, before);
        assert(blank_led(first) + blank_led(before) + " "@ + rest.last() =~= blank_led(first) + (
        blank_led(before) + " "@ + rest.last()));
    }
}

/// Text is shown as it is, and bytes as a list in square brackets, each after the name of
/// its kind.
pub proof fn data_is_shown_whole(text: Seq<char>, bytes: Seq<u8>)
    ensures
        DataView::Utf8(text).shown() == "[utf8]: "@ + text,
        DataView::Bin(bytes).shown() == "[bytes]: "@ + "["@ + comma_separated(bytes) + "]"@,
{
}

/// A command without arguments is shown as its binary.
pub proof fn bare_command_is_shown_as_its_binary(cmd: CmdView)
    requires
        cmd.args == Seq::<PathBuf>::empty(),
        cmd.current_dir is None,
        cmd.stdin is None,
    ensures
        cmd.shown() == path_display(cmd.bin),
{
    let words = cmd.args.map_values(|arg: PathBuf| os_text(arg));
    assert(words =~= Seq::<Seq<char>>::empty());
    words_are_shown_in_order(words, Seq::empty(), words);
    assert(path_display(cmd.bin) + Seq::<char>::empty() + Seq::<char>::empty()
        + Seq::<char>::empty() =~= path_display(cmd.bin));
}

/// An argument that is appended is shown after all that is shown of the binary and the
/// arguments before it, with a blank in front.
pub proof fn appended_argument_is_shown_last(cmd: CmdView, arg: PathBuf)
    requires
        cmd.current_dir is None,
        cmd.stdin is None,
    ensures
        (CmdView { args: cmd.args.push(arg), ..cmd }).shown() == cmd.shown() + " "@ + os_text(
            arg,
        ),
{
    let text = |arg: PathBuf| os_text(arg);
    let words = cmd.args.map_values(text);
    let longer = cmd.args.push(arg).map_values(text);
    assert(longer =~= words + seq![os_text(arg)]);
    words_are_shown_in_order(words, os_text(arg), seq![os_text(arg)]);
    let shown = (CmdView { args: cmd.args.push(arg), ..cmd }).shown();
    assert(shown == path_display(cmd.bin) + blank_led(longer) + Seq::<char>::empty() + Seq::<
        char,
    >::empty());
    assert(cmd.shown() == path_display(cmd.bin) + blank_led(words) + Seq::<char>::empty() + Seq::<
        char,
    >::empty());
    assert(shown =~= cmd.shown() + " "@ + os_text(arg));
}

/// The directory, and then the data for `stdin`, are shown on lines of their own after the
/// binary and the arguments, each where it is set. What is logged about a command is not
/// shown.
pub proof fn directory_and_input_are_shown_after(cmd: CmdView, echo_cmd: bool, echo_err: bool)
    ensures
        ({
            let bare = CmdView { current_dir: None, stdin: None, echo_cmd, echo_err, ..cmd };
            cmd.shown() == bare.shown() + match cmd.current_dir {
                Some(dir) => "\n(at "@ + path_display(dir) + ")"@,
                None => Seq::empty(),
            } + match cmd.stdin {
                Some(data) => "\nstdin <<< "@ + data.shown(),
                None => Seq::empty(),
            }
        }),
{
    let bare = CmdView { current_dir: None, stdin: None, echo_cmd, echo_err, ..cmd };
    let words = cmd.args.map_values(|arg: PathBuf| os_text(arg));
    assert(bare.shown() =~= path_display(cmd.bin) + blank_led(words));
}

/// The name of a binary in messages is the text of the first component of its path, whatever
/// else the command says. There is none only where the path has no component.
pub proof fn name_is_the_first_component(cmd: CmdView)
    ensures
        match path_first(cmd.bin) {
            Some(first) => cmd.bin_name() == Some(os_text(first)),
            None => cmd.bin_name() is None,
        },
        nameless() == "Binary name must not be empty"@,
{
}

/// A process is shown by its identifier and its command.
pub proof fn process_is_shown_with_its_command(child: ChildView)
    ensures
        child.shown() == "[PID "@ + decimal(child.id as nat) + "] "@ + child.cmd.shown(),
{
}

/// The lines about a process hold the name of its binary, its identifier where they are not
/// about all of its output, and all of what they are about.
pub proof fn lines_name_their_process(
    id: u32,
    bin_name: Seq<char>,
    data: DataView,
    line: Seq<char>,
)
    ensures
        output_shown(bin_name, data) == "[STDOUT "@ + bin_name + "] "@ + data.shown(),
        kill_shown(id, bin_name) == "[KILL "@ + decimal(id as nat) + "] "@ + bin_name,
        line_shown(id, bin_name, line) == "["@ + decimal(id as nat) + " "@ + bin_name + "] "@
            + line,
{
}

/// A failure tells its cause and then the command, or the process, that failed.
pub proof fn failure_tells_cause_and_command(
    cmd: CmdView,
    child: ChildView,
    cause: CauseView,
    message: Seq<char>,
)
    ensures
        CauseView::Io(message).shown() == message,
        CauseView::NotUtf8.shown() == "stream did not contain valid UTF-8"@,
        CauseView::ExitStatus(message).shown() == "Non-zero exit code: "@ + message,
        ErrorView::Cmd(cmd, cause).shown() == cause.shown() + ("\nCommand: "@ + cmd.shown()),
        ErrorView::Process(child, cause).shown() == cause.shown() + ("\nProcess: "@
            + child.shown()),
        ErrorView::Cmd(cmd, cause).cmd() == cmd,
        ErrorView::Process(child, cause).cmd() == child.cmd,
        ErrorView::Cmd(cmd, cause).cause() == cause,
        ErrorView::Process(child, cause).cause() == cause,
{
}

} // verus!
