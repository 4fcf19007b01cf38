//! What a line typed by the user asks for.

use vstd::prelude::*;
use crate::text;

verus! {

/// A line of input, read: nothing to do, the end of the session, or a
/// request to the assistant.
#[derive(Debug)]
pub enum Command {
    Skip,
    Quit,
    Say(String),
}

/// A `Command` as plain text.
pub enum CommandView {
    Skip,
    Quit,
    Say(Seq<char>),
}

impl View for Command {
    type V = CommandView;

    open spec fn view(&self) -> CommandView {
        match self {
            Command::Skip => CommandView::Skip,
            Command::Quit => CommandView::Quit,
            Command::Say(text) => CommandView::Say(text@),
        }
    }
}

/// What a trimmed line asks for: nothing where it is empty, the end of the
/// session where it is exactly `quit` or `exit`, else a request.
pub open spec fn command_of(input: Seq<char>) -> CommandView {
    if input.len() == 0 {
        CommandView::Skip
    } else if input == "quit"@ || input == "exit"@ {
        CommandView::Quit
    } else {
        CommandView::Say(input)
    }
}

impl Command {
    /// Reads a line as it was typed: trims it, and reads the rest.
    pub fn parse(line: &str) -> (c: Command)
        ensures
            c@ == command_of(text::trimmed(line@)),
    {
        let input = text::trim(line);
        if input.is_empty() {
            Command::Skip
        } else if text::same_text(input, "quit") || text::same_text(input, "exit") {
            Command::Quit
        } else {
            Command::Say(input.to_owned())
        }
    }
}

} // verus!
