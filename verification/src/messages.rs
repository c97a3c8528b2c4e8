//! The texts that the dialogs show.

use vstd::prelude::*;
use vstd::string::StringExecFns;

verus! {

/// The caption of every dialog.
pub const CAPTION: &'static str = "Really Start?";

/// The usage line, for a program that was started as `program`.
pub open spec fn usage_text(program: Seq<char>) -> Seq<char> {
    "Usage: "@ + program + " TITLE PROGRAM [ARG...]"@
}

/// The question that is asked before `title` is started.
pub open spec fn confirmation_text(title: Seq<char>) -> Seq<char> {
    "Really start "@ + title + "?"@
}

/// The report of a process handle that could not be released.
pub open spec fn process_handle_text(message: Seq<char>) -> Seq<char> {
    "Failed to close process handle: "@ + message
}

/// The report of a thread handle that could not be released.
pub open spec fn thread_handle_text(message: Seq<char>) -> Seq<char> {
    "Failed to close thread handle: "@ + message
}

/// Builds the usage line.
pub fn usage(program: &str) -> (text: String)
    ensures
        text@ == usage_text(program@),
{
    let mut text = String::from_str("Usage: ");
    text.append(program);
    text.append(" TITLE PROGRAM [ARG...]");
    text
}

/// Builds the question that is asked before `title` is started.
pub fn confirmation(title: &str) -> (text: String)
    ensures
        text@ == confirmation_text(title@),
{
    let mut text = String::from_str("Really start ");
    text.append(title);
    text.append("?");
    text
}

/// Builds the report of a process handle that could not be released.
pub fn process_handle_failure(message: &str) -> (text: String)
    ensures
        text@ == process_handle_text(message@),
{
    let mut text = String::from_str("Failed to close process handle: ");
    text.append(message);
    text
}

/// Builds the report of a thread handle that could not be released.
pub fn thread_handle_failure(message: &str) -> (text: String)
    ensures
        text@ == thread_handle_text(message@),
{
    let mut text = String::from_str("Failed to close thread handle: ");
    text.append(message);
    text
}

} // verus!
