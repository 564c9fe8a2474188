//! The operator console's commands.

use vstd::prelude::*;

verus! {

/// Unicode's White_Space characters.
pub open spec fn is_white_space(c: char) -> bool {
    let u = c as u32;
    ||| 0x9 <= u <= 0xd
    ||| u == 0x20 || u == 0x85 || u == 0xa0 || u == 0x1680
    ||| 0x2000 <= u <= 0x200a
    ||| u == 0x2028 || u == 0x2029 || u == 0x202f || u == 0x205f || u == 0x3000
}

/// The text without its leading white space.
pub open spec fn trim_start_of(s: Seq<char>) -> Seq<char>
    decreases s.len(),
{
    if s.len() > 0 && is_white_space(s[0]) {
        trim_start_of(s.drop_first())
    } else {
        s
    }
}

/// The text without its trailing white space.
pub open spec fn trim_end_of(s: Seq<char>) -> Seq<char>
    decreases s.len(),
{
    if s.len() > 0 && is_white_space(s.last()) {
        trim_end_of(s.drop_last())
    } else {
        s
    }
}

/// The text with its leading and trailing white space removed.
pub open spec fn trim_of(s: Seq<char>) -> Seq<char> {
    trim_start_of(trim_end_of(s))
}

/// What an operator's line asks for.
#[derive(Debug, Clone, Copy, PartialEq, Eq, Structural)]
pub enum ConsoleCommand {
    /// Stop the whole process at once.
    Exit,
    /// Anything else: reported as not valid.
    Unknown,
}

/// Relies on str::trim: the line without leading and trailing characters for
/// which char::is_whitespace holds, that is Unicode's White_Space.
#[verifier::external_body]
fn trimmed(s: &str) -> (r: String)
    ensures
        r@ == trim_of(s@),
{
    s.trim().to_string()
}

/// Reads an operator's line: `--exit`, once surrounding whitespace is
/// removed, asks to stop; every other line is unknown.
pub fn console_command(line: &str) -> (c: ConsoleCommand)
    ensures
        c == (if trim_of(line@) == "--exit"@ {
            ConsoleCommand::Exit
        } else {
            ConsoleCommand::Unknown
        }),
{
    let t = trimmed(line);
    let exit = "--exit".to_owned();
    if t == exit {
        ConsoleCommand::Exit
    } else {
        ConsoleCommand::Unknown
    }
}

} // verus!
