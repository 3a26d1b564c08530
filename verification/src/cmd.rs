//! The builder of commands.
use crate::input::{data_view, BinOrUtf8, DataView};
use crate::os::{
    display_text, first_component, lossy_text, make_mut, os_text, path_display, path_first,
};
use crate::process::{Launch, Stdio};
use crate::text::{blank_led, optional_text, push_blank_led, texts};
use std::path::PathBuf;
use std::sync::Arc;
use vstd::prelude::*;
use vstd::slice::slice_to_vec;
use vstd::utf8::encode_utf8;

verus! {

/// A command to invoke: a binary, its arguments, what it reads from `stdin`, the directory
/// it runs in, and what is logged about it.
///
/// Clones share their contents until one of them is changed.
#[must_use]
pub struct Cmd(Arc<CmdShared>);

/// The contents of a [`Cmd`], which its clones may share.
pub(crate) struct CmdShared {
    pub(crate) bin: PathBuf,
    pub(crate) args: Vec<PathBuf>,
    pub(crate) stdin: Option<BinOrUtf8>,
    pub(crate) current_dir: Option<PathBuf>,
    pub(crate) echo_cmd: bool,
    pub(crate) echo_err: bool,
}

/// What a [`Cmd`] says.
#[verifier::ext_equal]
pub struct CmdView {
    /// The binary, by its path or by a name to look up in `PATH`.
    pub bin: PathBuf,
    /// The arguments, in order.
    pub args: Seq<PathBuf>,
    /// What the process finds on its `stdin`.
    pub stdin: Option<DataView>,
    /// The directory of the process, where it is not that of this one.
    pub current_dir: Option<PathBuf>,
    /// Whether the command and its output are logged.
    pub echo_cmd: bool,
    /// Whether a failure of the command is logged.
    pub echo_err: bool,
}

/// The text of an optional path, as `Path::display` prints it.
pub open spec fn dir_shown(dir: Option<PathBuf>) -> Option<Seq<char>> {
    match dir {
        Some(dir) => Some(path_display(dir)),
        None => None,
    }
}

/// A command as it is shown in messages, from the texts of its parts: one line with the
/// binary and the arguments, one with the directory if it is set, and one with the data for
/// `stdin` if there is any.
pub open spec fn command_shown(
    bin: Seq<char>,
    args: Seq<Seq<char>>,
    current_dir: Option<Seq<char>>,
    stdin: Option<DataView>,
) -> Seq<char> {
    bin + blank_led(args) + match current_dir {
        Some(dir) => "\n(at "@ + dir + ")"@,
        None => Seq::empty(),
    } + match stdin {
        Some(data) => "\nstdin <<< "@ + data.shown(),
        None => Seq::empty(),
    }
}

impl CmdView {
    /// A command with the defaults: no arguments, nothing on `stdin`, the directory of this
    /// process, everything logged.
    pub open spec fn new(bin: PathBuf) -> CmdView {
        CmdView {
            bin,
            args: Seq::empty(),
            stdin: None,
            current_dir: None,
            echo_cmd: true,
            echo_err: true,
        }
    }

    /// The command with another binary.
    pub open spec fn with_bin(self, bin: PathBuf) -> CmdView {
        CmdView { bin, ..self }
    }

    /// The command with another directory.
    pub open spec fn with_current_dir(self, dir: PathBuf) -> CmdView {
        CmdView { current_dir: Some(dir), ..self }
    }

    /// The command, itself and its output logged or not.
    pub open spec fn with_echo_cmd(self, yes: bool) -> CmdView {
        CmdView { echo_cmd: yes, ..self }
    }

    /// The command, its failure logged or not.
    pub open spec fn with_echo_err(self, yes: bool) -> CmdView {
        CmdView { echo_err: yes, ..self }
    }

    /// The command with other data on `stdin`.
    pub open spec fn with_stdin(self, data: DataView) -> CmdView {
        CmdView { stdin: Some(data), ..self }
    }

    /// The command with one more argument.
    pub open spec fn with_arg(self, arg: PathBuf) -> CmdView {
        CmdView { args: self.args.push(arg), ..self }
    }

    /// The command with more arguments.
    pub open spec fn with_args(self, args: Seq<PathBuf>) -> CmdView {
        CmdView { args: self.args + args, ..self }
    }

    /// The command with another argument at `idx`.
    pub open spec fn with_replaced_arg(self, idx: int, arg: PathBuf) -> CmdView {
        CmdView { args: self.args.update(idx, arg), ..self }
    }

    /// The command as it is shown in messages.
    pub open spec fn shown(self) -> Seq<char> {
        command_shown(
            path_display(self.bin),
            self.args.map_values(|arg: PathBuf| os_text(arg)),
            dir_shown(self.current_dir),
            self.stdin,
        )
    }

    /// The text of the first component of the path of the binary, if it has any.
    pub open spec fn bin_name(self) -> Option<Seq<char>> {
        match path_first(self.bin) {
            Some(first) => Some(os_text(first)),
            None => None,
        }
    }
}

/// A command as it is shown in messages, from the texts of its parts.
pub fn command_text(
    bin: &str,
    args: &Vec<String>,
    current_dir: &Option<String>,
    stdin: &Option<BinOrUtf8>,
) -> (text: String)
    ensures
        text@ == command_shown(
            bin@,
            texts(args@),
            optional_text(*current_dir),
            data_view(*stdin),
        ),
{
    let mut text: String = bin.to_owned();
    push_blank_led(&mut text, args);
    if let Some(dir) = current_dir {
        text.append("\n(at ");
        text.append(dir.as_str());
        text.append(")");
    }
    if let Some(data) = stdin {
        text.append("\nstdin <<< ");
        text.append(data.to_string().as_str());
    }
    text
}

impl View for CmdShared {
    type V = CmdView;

    closed spec fn view(&self) -> CmdView {
        CmdView {
            bin: self.bin,
            args: self.args@,
            stdin: data_view(self.stdin),
            current_dir: self.current_dir,
            echo_cmd: self.echo_cmd,
            echo_err: self.echo_err,
        }
    }
}

impl Clone for CmdShared {
    fn clone(&self) -> (copy: Self)
        ensures
            copy@ == self@,
    {
        let args: Vec<PathBuf> = self.args.clone();
        assert(args@ =~= self.args@);
        let stdin: Option<BinOrUtf8> = match &self.stdin {
            Some(data) => Some(data.clone()),
            None => None,
        };
        CmdShared {
            bin: self.bin.clone(),
            args,
            stdin,
            current_dir: self.current_dir.clone(),
            echo_cmd: self.echo_cmd,
            echo_err: self.echo_err,
        }
    }
}

impl View for Cmd {
    type V = CmdView;

    closed spec fn view(&self) -> CmdView {
        self.0@
    }
}

impl Clone for Cmd {
    fn clone(&self) -> (copy: Self)
        ensures
            copy@ == self@,
    {
        Cmd(Arc::clone(&self.0))
    }
}

impl Cmd {
    /// A command that invokes the binary at `bin`, or the one of that name in `PATH`.
    ///
    /// Whether there is such a binary shows only when the command is executed.
    pub fn new(bin: PathBuf) -> (cmd: Self)
        ensures
            cmd@ == CmdView::new(bin),
    {
        Cmd(
            Arc::new(
                CmdShared {
                    bin,
                    args: Vec::new(),
                    echo_cmd: true,
                    echo_err: true,
                    stdin: None,
                    current_dir: None,
                },
            ),
        )
    }

    /// The contents, no longer shared with any clone: they are as they were, and what is
    /// written to them is what this command, and no other, then holds.
    pub(crate) fn as_mut(&mut self) -> (shared: &mut CmdShared)
        ensures
            old(self)@ == (CmdView {
                bin: shared.bin,
                args: shared.args@,
                stdin: data_view(shared.stdin),
                current_dir: shared.current_dir,
                echo_cmd: shared.echo_cmd,
                echo_err: shared.echo_err,
            }),
            final(self)@ == (CmdView {
                bin: final(shared).bin,
                args: final(shared).args@,
                stdin: data_view(final(shared).stdin),
                current_dir: final(shared).current_dir,
                echo_cmd: final(shared).echo_cmd,
                echo_err: final(shared).echo_err,
            }),
    {
        make_mut(&mut self.0)
    }

    /// Sets the binary, in place of the one that was set before.
    pub fn bin(&mut self, bin: PathBuf) -> (this: &mut Self)
        ensures
            this@ == old(self)@.with_bin(bin),
            *final(self) == *final(this),
    {
        self.as_mut().bin = bin;
        self
    }

    /// Sets the directory of the process, in place of the one that was set before.
    pub fn current_dir(&mut self, dir: PathBuf) -> (this: &mut Self)
        ensures
            this@ == old(self)@.with_current_dir(dir),
            *final(self) == *final(this),
    {
        self.as_mut().current_dir = Some(dir);
        self
    }

    /// Sets whether the command and its output are logged. By default they are.
    pub fn echo_cmd(&mut self, yes: bool) -> (this: &mut Self)
        ensures
            this@ == old(self)@.with_echo_cmd(yes),
            *final(self) == *final(this),
    {
        self.as_mut().echo_cmd = yes;
        self
    }

    /// Sets whether a failure of the command is logged. By default it is.
    pub fn echo_err(&mut self, yes: bool) -> (this: &mut Self)
        ensures
            this@ == old(self)@.with_echo_err(yes),
            *final(self) == *final(this),
    {
        self.as_mut().echo_err = yes;
        self
    }

    /// Sets the text that the process finds on its `stdin`, in place of what was set before.
    /// By default nothing is written there.
    pub fn stdin(&mut self, stdin: String) -> (this: &mut Self)
        ensures
            this@ == old(self)@.with_stdin(DataView::Utf8(stdin@)),
            *final(self) == *final(this),
    {
        self.as_mut().stdin = Some(BinOrUtf8::Utf8(stdin));
        self
    }

    /// Sets the bytes that the process finds on its `stdin`, in place of what was set
    /// before. By default nothing is written there.
    pub fn stdin_bytes(&mut self, stdin: Vec<u8>) -> (this: &mut Self)
        ensures
            this@ == old(self)@.with_stdin(DataView::Bin(stdin@)),
            *final(self) == *final(this),
    {
        self.as_mut().stdin = Some(BinOrUtf8::Bin(stdin));
        self
    }

    /// Appends two arguments.
    pub fn arg2(&mut self, arg1: PathBuf, arg2: PathBuf) -> (this: &mut Self)
        ensures
            this@ == old(self)@.with_arg(arg1).with_arg(arg2),
            *final(self) == *final(this),
    {
        self.arg(arg1).arg(arg2)
    }

    /// Appends an argument.
    pub fn arg(&mut self, arg: PathBuf) -> (this: &mut Self)
        ensures
            this@ == old(self)@.with_arg(arg),
            *final(self) == *final(this),
    {
        self.as_mut().args.push(arg);
        self
    }

    /// Replaces the argument at `idx`, which must be there.
    pub fn replace_arg(&mut self, idx: usize, arg: PathBuf) -> (this: &mut Self)
        requires
            idx < old(self)@.args.len(),
        ensures
            this@ == old(self)@.with_replaced_arg(idx as int, arg),
            *final(self) == *final(this),
    {
        self.as_mut().args[idx] = arg;
        self
    }

    /// Appends the arguments, in order.
    pub fn args(&mut self, args: Vec<PathBuf>) -> (this: &mut Self)
        ensures
            this@ == old(self)@.with_args(args@),
            *final(self) == *final(this),
    {
        let mut args: Vec<PathBuf> = args;
        self.as_mut().args.append(&mut args);
        self
    }

    /// The command as it is shown in messages.
    pub fn to_string(&self) -> (text: String)
        ensures
            text@ == self@.shown(),
    {
        let args: &Vec<PathBuf> = &self.0.args;
        let mut words: Vec<String> = Vec::new();
        let mut i: usize = 0;
        while i < args.len()
            invariant
                i <= args.len(),
                words.len() == i,
                forall|j: int| 0 <= j < i ==> (#[trigger] words@[j])@ == os_text(args@[j]),
            decreases args.len() - i,
        {
            words.push(lossy_text(&args[i]));
            i = i + 1;
        }
        let current_dir: Option<String> = match &self.0.current_dir {
            Some(dir) => Some(display_text(dir)),
            None => None,
        };
        proof {
            assert(texts(words@) =~= self@.args.map_values(|arg: PathBuf| os_text(arg)));
        }
        command_text(display_text(&self.0.bin).as_str(), &words, &current_dir, &self.0.stdin)
    }

    /// How many arguments there are.
    pub fn arg_count(&self) -> (count: usize)
        ensures
            count == self@.args.len(),
    {
        self.0.args.len()
    }

    /// Whether the command and its output are logged.
    pub fn echoes_cmd(&self) -> (yes: bool)
        ensures
            yes == self@.echo_cmd,
    {
        self.0.echo_cmd
    }

    /// Whether a failure of the command is logged.
    pub fn echoes_err(&self) -> (yes: bool)
        ensures
            yes == self@.echo_err,
    {
        self.0.echo_err
    }

    /// The bytes that are written to the `stdin` of the process, if any are.
    pub fn stdin_data(&self) -> (bytes: Option<Vec<u8>>)
        ensures
            bytes is Some <==> self@.stdin is Some,
            bytes matches Some(b) ==> b@ == self@.stdin->0.bytes(),
            self@.stdin matches Some(DataView::Utf8(t)) ==> bytes->0@ == encode_utf8(t),
            self@.stdin matches Some(DataView::Bin(b)) ==> bytes->0@ == b,
    {
        match &self.0.stdin {
            Some(data) => Some(slice_to_vec(data.as_ref())),
            None => None,
        }
    }

    /// What the process of the command is started from.
    pub fn launch(&self, stdout: Stdio) -> (launch: Launch)
        ensures
            launch@ == self@.launch(stdout),
            launch.bin == self@.bin,
            launch.args@ == self@.args,
            launch.current_dir == self@.current_dir,
            launch.stdin == (if self@.stdin is Some {
                Stdio::Piped
            } else {
                Stdio::Null
            }),
            launch.stdout == stdout,
            launch.stderr == Stdio::Inherit,
    {
        let args: Vec<PathBuf> = self.0.args.clone();
        assert(args@ =~= self.0.args@);
        Launch {
            bin: self.0.bin.clone(),
            args,
            current_dir: self.0.current_dir.clone(),
            stdin: match &self.0.stdin {
                Some(_) => Stdio::Piped,
                None => Stdio::Null,
            },
            stdout,
            stderr: Stdio::Inherit,
        }
    }

    /// The text of the first component of the path of the binary, if it has any.
    pub fn bin_name(&self) -> (name: Option<String>)
        ensures
            optional_text(name) == self@.bin_name(),
    {
        match first_component(&self.0.bin) {
            Some(first) => Some(lossy_text(&first)),
            None => None,
        }
    }
}

} // verus!
