//! An external tool invocation as plain data: a program and its arguments.

use crate::text::{join, join_strings, signed_decimal, signed_decimal_string};
use vstd::prelude::*;
use vstd::string::*;

verus! {

/// A program name and the arguments to start it with, in order.
#[derive(Debug, PartialEq, Eq)]
pub struct Invocation {
    pub program: String,
    pub args: Vec<String>,
}

/// What an `Invocation` stands for.
pub struct InvocationView {
    pub program: Seq<char>,
    pub args: Seq<Seq<char>>,
}

impl View for Invocation {
    type V = InvocationView;

    open spec fn view(&self) -> InvocationView {
        InvocationView { program: self.program@, args: self.args.deep_view() }
    }
}

/// The invocation on one line: the program, then each argument after a
/// single space.
pub open spec fn command_line(inv: InvocationView) -> Seq<char> {
    inv.program + " "@ + join(inv.args, " "@)
}

/// Appends a copy of `text` to `args`.
pub fn push_arg(args: &mut Vec<String>, text: &str)
    ensures
        final(args).deep_view() == old(args).deep_view().push(text@),
{
    args.push(String::from_str(text));
    assert(args.deep_view() =~= old(args).deep_view().push(text@));
}

/// Appends `text` itself to `args`.
pub fn push_owned(args: &mut Vec<String>, text: String)
    ensures
        final(args).deep_view() == old(args).deep_view().push(text@),
{
    args.push(text);
    assert(args.deep_view() =~= old(args).deep_view().push(text@));
}

/// An exit code as diagnostics show it: `Some(..)` around the code, or
/// `None` where there is no code.
pub open spec fn exit_code_text(code: Option<i32>) -> Seq<char> {
    match code {
        Some(n) => "Some("@ + signed_decimal(n as int) + ")"@,
        None => "None"@,
    }
}

/// The message that reports how `tool` exited.
pub open spec fn exit_message(tool: Seq<char>, code: Option<i32>) -> Seq<char> {
    tool + " exited with status: "@ + exit_code_text(code)
}

/// Writes `exit_message`.
pub fn describe_exit(tool: &str, code: Option<i32>) -> (r: String)
    ensures
        r@ == exit_message(tool@, code),
{
    let mut r = String::from_str(tool);
    r.append(" exited with status: ");
    match code {
        Some(n) => {
            r.append("Some(");
            r.append(signed_decimal_string(n).as_str());
            r.append(")");
            assert(r@ =~= exit_message(tool@, code));
        },
        None => {
            r.append("None");
            assert(r@ =~= exit_message(tool@, code));
        },
    }
    r
}

impl Invocation {
    /// The one-line rendering used in diagnostics.
    pub fn command_line(&self) -> (r: String)
        ensures
            r@ == command_line(self@),
    {
        let mut r = self.program.clone();
        r.append(" ");
        let joined = join_strings(&self.args, " ");
        r.append(joined.as_str());
        r
    }
}

} // verus!
