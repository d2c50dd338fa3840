//! The command interpreter: from a submitted command line to its response.

use crate::text::{joined, owned};
use vstd::prelude::*;
use vstd::string::StrSliceExecFns;

verus! {

/// What `/help` answers.
pub const HELP_TEXT: &'static str = "Available commands: /help, /clear";

/// What precedes the name of a command that is not known.
pub const UNKNOWN_PREFIX: &'static str = "Unknown command: ";

/// `text` without its leading slash, if it has one. Only one slash goes.
pub open spec fn strip_slash(text: Seq<char>) -> Seq<char> {
    if text.len() > 0 && text[0] == '/' {
        text.subrange(1, text.len() as int)
    } else {
        text
    }
}

/// The response to the command line `text`. Names are matched exactly and
/// with case: `help` lists the commands, `clear` answers with the empty
/// text, and any other name is reported as unknown.
pub open spec fn response(text: Seq<char>) -> Seq<char> {
    let name = strip_slash(text);
    if name == "help"@ {
        HELP_TEXT@
    } else if name == "clear"@ {
        Seq::empty()
    } else {
        UNKNOWN_PREFIX@ + name
    }
}

/// Whether two texts hold the same characters.
fn same_text(a: &str, b: &str) -> (same: bool)
    ensures
        same == (a@ == b@),
{
    a.to_owned() == b.to_owned()
}

/// Interprets one command line and returns the response. The interpreter
/// keeps nothing between calls.
pub fn handle_command(command: &str) -> (reply: String)
    ensures
        reply@ == response(command@),
{
    let length = command.unicode_len();
    let name: &str = if length > 0 && command.get_char(0) == '/' {
        command.substring_char(1, length)
    } else {
        command
    };
    if same_text(name, "help") {
        owned(HELP_TEXT)
    } else if same_text(name, "clear") {
        String::new()
    } else {
        joined(UNKNOWN_PREFIX, name)
    }
}

} // verus!
