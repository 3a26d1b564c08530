//! Lines that are logged about processes.
use crate::input::{BinOrUtf8, DataView};
use crate::text::{decimal, push_decimal};
use vstd::prelude::*;

verus! {

/// The line that shows what was captured from the `stdout` of a process.
pub open spec fn output_shown(bin_name: Seq<char>, captured: DataView) -> Seq<char> {
    "[STDOUT "@ + bin_name + "] "@ + captured.shown()
}

/// The line that shows that a process is killed.
pub open spec fn kill_shown(id: u32, bin_name: Seq<char>) -> Seq<char> {
    "[KILL "@ + decimal(id as nat) + "] "@ + bin_name
}

/// The line that shows one line from the `stdout` of a process.
pub open spec fn line_shown(id: u32, bin_name: Seq<char>, line: Seq<char>) -> Seq<char> {
    "["@ + decimal(id as nat) + " "@ + bin_name + "] "@ + line
}

/// The line that shows what was captured from the `stdout` of a process.
pub fn output_text(bin_name: &str, captured: &BinOrUtf8) -> (text: String)
    ensures
        text@ == output_shown(bin_name@, captured@),
{
    let mut text: String = "[STDOUT ".to_owned();
    text.append(bin_name);
    text.append("] ");
    text.append(captured.to_string().as_str());
    text
}

/// The line that shows that a process is killed.
pub fn kill_text(id: u32, bin_name: &str) -> (text: String)
    ensures
        text@ == kill_shown(id, bin_name@),
{
    let mut text: String = "[KILL ".to_owned();
    push_decimal(&mut text, id);
    text.append("] ");
    text.append(bin_name);
    text
}

/// The line that shows one line from the `stdout` of a process.
pub fn line_text(id: u32, bin_name: &str, line: &str) -> (text: String)
    ensures
        text@ == line_shown(id, bin_name@, line@),
{
    let mut text: String = "[".to_owned();
    push_decimal(&mut text, id);
    text.append(" ");
    text.append(bin_name);
    text.append("] ");
    text.append(line);
    text
}

} // verus!
