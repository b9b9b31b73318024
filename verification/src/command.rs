//! A process to be started, described as plain values.

use crate::text::texts;
use vstd::prelude::*;

verus! {

/// A program to run, with its arguments in order and the directory to run it
/// in. `piped` says whether what it prints is to be captured, `checked`
/// whether its ending with another status than success counts as a failure.
#[derive(Debug, PartialEq, Eq)]
pub struct Command {
    pub program: String,
    pub args: Vec<String>,
    pub dir: String,
    pub piped: bool,
    pub checked: bool,
}

/// A `Command` as plain text.
pub struct CommandView {
    pub program: Seq<char>,
    pub args: Seq<Seq<char>>,
    pub dir: Seq<char>,
    pub piped: bool,
    pub checked: bool,
}

impl View for Command {
    type V = CommandView;

    open spec fn view(&self) -> CommandView {
        CommandView {
            program: self.program@,
            args: texts(self.args@),
            dir: self.dir@,
            piped: self.piped,
            checked: self.checked,
        }
    }
}

/// Puts `arg` behind the arguments gathered so far.
pub fn push_arg(args: &mut Vec<String>, arg: &str)
    ensures
        texts(final(args)@) == texts(old(args)@).push(arg@),
{
    let owned = arg.to_owned();
    args.push(owned);
}

} // verus!
