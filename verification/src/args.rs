//! The command line: what each token of an argument list stands for.
//!
//! A token is read in one of four ways, decided by the token itself and by
//! whether the token before it was an `-o` waiting for its path. Everything
//! else about an argument list (which paths are inputs, where the output goes,
//! where parsing stops to ask about a file) is defined from that.

use vstd::prelude::*;
use crate::text::{same_text, Text};

verus! {

/// What a token of the command line stands for.
#[derive(Clone, Copy, Debug, PartialEq, Eq, Structural)]
pub enum Role {
    /// The path that follows an `-o`.
    OutputPath,
    /// The flag `-o`, which takes the next token as the output path.
    OutputFlag,
    /// One of the flags that ask for the usage text.
    Help,
    /// A path of a file to read.
    Input,
}

/// The token is the flag that announces the output path.
pub open spec fn output_flag(token: Text) -> bool {
    token == "-o"@
}

/// The token is one of the three spellings of the help flag.
pub open spec fn help_flag(token: Text) -> bool {
    token == "-h"@ || token == "--help"@ || token == "/?"@
}

/// The token is none of the flags: wherever it stands, it is a path.
pub open spec fn plain(token: Text) -> bool {
    !output_flag(token) && !help_flag(token)
}

/// The role of one token, given whether an `-o` is waiting for its path.
/// A waiting `-o` takes any token, flags included; then `-o` is looked for,
/// then the help flags; whatever is left names an input.
pub open spec fn role_of(token: Text, expecting_output: bool) -> Role {
    if expecting_output {
        Role::OutputPath
    } else if output_flag(token) {
        Role::OutputFlag
    } else if help_flag(token) {
        Role::Help
    } else {
        Role::Input
    }
}

/// Whether an `-o` is waiting for its path when token `i` is reached: the
/// token before it was an `-o` that was itself read as a flag. With `i` the
/// length of the list, this says that the list ends in an `-o` left without
/// its path.
pub open spec fn expects_output(args: Seq<Text>, i: int) -> bool
    decreases i,
{
    if i <= 0 {
        false
    } else {
        role_of(args[i - 1], expects_output(args, i - 1)) == Role::OutputFlag
    }
}

/// The role of token `i` of an argument list.
pub open spec fn role(args: Seq<Text>, i: int) -> Role {
    role_of(args[i], expects_output(args, i))
}

/// The input paths among the first `n` tokens, in the order given.
pub open spec fn inputs(args: Seq<Text>, n: int) -> Seq<Text>
    decreases n,
{
    if n <= 0 {
        Seq::empty()
    } else if role(args, n - 1) == Role::Input {
        inputs(args, n - 1).push(args[n - 1])
    } else {
        inputs(args, n - 1)
    }
}

/// The output path that the first `n` tokens give: the token after the last
/// `-o` among them, if there is one.
pub open spec fn output_of(args: Seq<Text>, n: int) -> Option<Text>
    decreases n,
{
    if n <= 0 {
        None
    } else if role(args, n - 1) == Role::OutputPath {
        Some(args[n - 1])
    } else {
        output_of(args, n - 1)
    }
}

/// The first token at or after `i` that is an input path or a help flag, or
/// the length of the list if there is none: where a reader that has reached
/// `i` next has to stop.
pub open spec fn next_stop(args: Seq<Text>, i: int) -> int
    decreases args.len() - i,
{
    if i < 0 || i >= args.len() {
        args.len() as int
    } else if role(args, i) == Role::Input || role(args, i) == Role::Help {
        i
    } else {
        next_stop(args, i + 1)
    }
}

/// The command line that names the given files and, in front of the file at
/// `at` (behind them all, if `at` is their number), `-o` with an output path.
pub open spec fn with_output(files: Seq<Text>, at: int, path: Text) -> Seq<Text> {
    files.subrange(0, at) + seq!["-o"@, path] + files.subrange(at, files.len() as int)
}

/// Tells whether a token is the flag `-o`.
pub fn is_output_flag(token: &str) -> (yes: bool)
    ensures
        yes == output_flag(token@),
{
    same_text(token, "-o")
}

/// Tells whether a token is `-h`, `--help` or `/?`.
pub fn is_help_flag(token: &str) -> (yes: bool)
    ensures
        yes == help_flag(token@),
{
    same_text(token, "-h") || same_text(token, "--help") || same_text(token, "/?")
}

/// Reads one token: its role, given whether an `-o` is waiting for its path.
pub fn classify(token: &str, expecting_output: bool) -> (r: Role)
    ensures
        r == role_of(token@, expecting_output),
{
    if expecting_output {
        Role::OutputPath
    } else if is_output_flag(token) {
        Role::OutputFlag
    } else if is_help_flag(token) {
        Role::Help
    } else {
        Role::Input
    }
}

/// Up to a stop, no token is an input path or a help flag, and the stop
/// itself is one unless it is the end of the list.
pub proof fn lemma_next_stop(args: Seq<Text>, i: int)
    requires
        0 <= i <= args.len(),
    ensures
        i <= next_stop(args, i) <= args.len(),
        forall|j: int|
            i <= j < next_stop(args, i) ==> role(args, j) != Role::Input && role(args, j)
                != Role::Help,
        next_stop(args, i) < args.len() ==> role(args, next_stop(args, i)) == Role::Input
            || role(args, next_stop(args, i)) == Role::Help,
        inputs(args, next_stop(args, i)) == inputs(args, i),
    decreases args.len() - i,
{
    if i < args.len() && role(args, i) != Role::Input && role(args, i) != Role::Help {
        lemma_next_stop(args, i + 1);
    }
}

} // verus!
