//! The usage text.

use vstd::prelude::*;
use vstd::string::*;
use crate::text::Text;

verus! {

/// The four lines of the usage text for a program name: the two ways to call
/// the program, then one line for each flag.
pub open spec fn usage_lines(program: Text) -> Seq<Text> {
    seq![
        "Usage: "@ + program + " <FileA> [FileB [FileC [...]]]"@,
        "       "@ + program + " [-o <OutFile>] <FileA> [FileB ...]"@,
        "    -o <FILE>      --  Output concatenation to a file"@,
        "    -h             --  Display this help message"@,
    ]
}

/// The usage text as it is printed: each of its lines, ended by a line feed.
pub open spec fn usage_text(program: Text) -> Text {
    let lines = usage_lines(program);
    lines[0] + "\n"@ + lines[1] + "\n"@ + lines[2] + "\n"@ + lines[3] + "\n"@
}

/// Builds the usage text for a program name.
pub fn usage(program: &str) -> (text: String)
    ensures
        text@ == usage_text(program@),
{
    let mut text = String::from_str("Usage: ");
    text.append(program);
    text.append(" <FileA> [FileB [FileC [...]]]");
    text.append("\n");
    text.append("       ");
    text.append(program);
    text.append(" [-o <OutFile>] <FileA> [FileB ...]");
    text.append("\n");
    text.append("    -o <FILE>      --  Output concatenation to a file");
    text.append("\n");
    text.append("    -h             --  Display this help message");
    text.append("\n");
    assert(text@ =~= usage_text(program@));
    text
}

} // verus!
