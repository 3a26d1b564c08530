//! The output of a process, line by line.
use crate::message::{line_shown, line_text};
use crate::process::{ChildProcess, ChildView};
use vstd::prelude::*;

verus! {

/// The lines that a process writes to its `stdout`.
pub struct Lines {
    echo: bool,
    id: u32,
    bin_name: String,
}

/// What a [`Lines`] says.
#[verifier::ext_equal]
pub struct LinesView {
    /// Whether the lines are logged.
    pub echo: bool,
    /// The identifier of the process.
    pub id: u32,
    /// The name of the binary of the process.
    pub bin_name: Seq<char>,
}

impl View for Lines {
    type V = LinesView;

    closed spec fn view(&self) -> LinesView {
        LinesView { echo: self.echo, id: self.id, bin_name: self.bin_name@ }
    }
}

/// What comes of an attempt to read a line.
pub enum LineStep {
    /// There are no more lines.
    End,
    /// A line, with what is to be logged before it is handed out, if anything is.
    Line(String, Option<String>),
    /// This process panics with this message.
    Panic(String),
}

/// What a [`LineStep`] says.
#[verifier::ext_equal]
pub enum LineStepView {
    /// There are no more lines.
    End,
    /// A line, with what is to be logged before it is handed out, if anything is.
    Line(Seq<char>, Option<Seq<char>>),
    /// This process panics with this message.
    Panic(Seq<char>),
}

impl View for LineStep {
    type V = LineStepView;

    open spec fn view(&self) -> LineStepView {
        match self {
            LineStep::End => LineStepView::End,
            LineStep::Line(line, None) => LineStepView::Line(line@, None),
            LineStep::Line(line, Some(log)) => LineStepView::Line(line@, Some(log@)),
            LineStep::Panic(message) => LineStepView::Panic(message@),
        }
    }
}

/// What an attempt to read a line came to: `None` at the end of the output.
pub open spec fn read_view(read: Option<Result<String, String>>) -> Option<
    Result<Seq<char>, Seq<char>>,
> {
    match read {
        None => None,
        Some(Ok(line)) => Some(Ok(line@)),
        Some(Err(error)) => Some(Err(error@)),
    }
}

impl LinesView {
    /// What comes of the attempt to read the next line that came to `read`.
    pub open spec fn next(self, read: Option<Result<Seq<char>, Seq<char>>>) -> LineStepView {
        match read {
            None => LineStepView::End,
            Some(Ok(line)) => LineStepView::Line(
                line,
                if self.echo {
                    Some(line_shown(self.id, self.bin_name, line))
                } else {
                    None
                },
            ),
            Some(Err(error)) => LineStepView::Panic("Unexpected io error: "@ + error),
        }
    }
}

impl ChildView {
    /// The lines that the process writes to its `stdout`, if its binary has a name to show.
    pub open spec fn lines(self) -> Option<LinesView> {
        match self.cmd.bin_name() {
            Some(bin_name) => Some(
                LinesView { echo: self.cmd.echo_cmd, id: self.id, bin_name },
            ),
            None => None,
        }
    }
}

impl Lines {
    /// Takes the next line as it was read: `None` at the end of the output, and the text of
    /// the error where the system reported one.
    pub fn next(&self, read: Option<Result<String, String>>) -> (step: LineStep)
        ensures
            step@ == self@.next(read_view(read)),
            step@ == match read {
                None => LineStepView::End,
                Some(Ok(line)) => LineStepView::Line(
                    line@,
                    if self@.echo {
                        Some(line_shown(self@.id, self@.bin_name, line@))
                    } else {
                        None
                    },
                ),
                Some(Err(error)) => LineStepView::Panic("Unexpected io error: "@ + error@),
            },
    {
        match read {
            None => LineStep::End,
            Some(Ok(line)) => {
                if self.echo {
                    let log: String = line_text(self.id, self.bin_name.as_str(), line.as_str());
                    LineStep::Line(line, Some(log))
                } else {
                    LineStep::Line(line, None)
                }
            },
            Some(Err(error)) => {
                let mut message: String = "Unexpected io error: ".to_owned();
                message.append(error.as_str());
                LineStep::Panic(message)
            },
        }
    }
}

impl ChildProcess {
    /// The lines that the process writes to its `stdout`, or the message of the panic where
    /// its binary has no name to show. The process must have been started with a pipe for
    /// its `stdout`.
    pub fn stdout_lines(&self) -> (lines: Result<Lines, String>)
        requires
            self@.piped,
        ensures
            lines is Ok <==> self@.lines() is Some,
            lines matches Ok(it) ==> Some(it@) == self@.lines(),
            match self@.cmd.bin_name() {
                Some(bin_name) => lines is Ok && lines->Ok_0@ == (LinesView {
                    echo: self@.cmd.echo_cmd,
                    id: self@.id,
                    bin_name,
                }),
                None => lines is Err && lines->Err_0@ == crate::session::nameless(),
            },
    {
        match self.cmd().bin_name() {
            Some(bin_name) => Ok(
                Lines { echo: self.cmd().echoes_cmd(), id: self.id(), bin_name },
            ),
            None => Err("Binary name must not be empty".to_owned()),
        }
    }
}

} // verus!
