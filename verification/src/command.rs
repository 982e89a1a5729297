//! Command lines handed to the operating system by the caller.

use vstd::prelude::*;
use vstd::string::*;
use crate::install::names_of;

verus! {

/// A program and its arguments, ready to be started.
#[derive(Debug)]
pub struct CommandLine {
    pub program: String,
    pub args: Vec<String>,
}

/// A command line as plain sequences.
pub struct CommandLineView {
    pub program: Seq<char>,
    pub args: Seq<Seq<char>>,
}

impl View for CommandLine {
    type V = CommandLineView;

    open spec fn view(&self) -> CommandLineView {
        CommandLineView { program: self.program@, args: names_of(self.args@) }
    }
}

/// The command that force-kills every process with the image name `name`.
pub open spec fn close_process_line(name: Seq<char>) -> CommandLineView {
    CommandLineView { program: "taskkill"@, args: seq!["/F"@, "/IM"@, name] }
}

/// Builds the command that terminates the process called `process_name`
/// at once, without asking it to shut down.
pub fn close_process(process_name: &str) -> (c: CommandLine)
    ensures
        c@ == close_process_line(process_name@),
{
    let mut args: Vec<String> = Vec::new();
    args.push(String::from_str("/F"));
    args.push(String::from_str("/IM"));
    args.push(String::from_str(process_name));
    assert(names_of(args@) =~= seq!["/F"@, "/IM"@, process_name@]);
    CommandLine { program: String::from_str("taskkill"), args }
}

} // verus!
