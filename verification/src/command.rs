//! What one line of user input asks for.

use crate::text::{trim_end, trimmed};
use vstd::prelude::*;

verus! {

/// The command that one line of input stands for.
#[derive(Clone, PartialEq, Eq, Debug)]
pub enum UserCommand {
    /// Leave the loop.
    Exit,
    /// Nothing was typed: ask again.
    Empty,
    /// Echo the file at this path.
    PathRequest(String),
}

/// The mathematical value of a [`UserCommand`].
pub enum CommandView {
    Exit,
    Empty,
    PathRequest(Seq<char>),
}

impl View for UserCommand {
    type V = CommandView;

    open spec fn view(&self) -> CommandView {
        match self {
            UserCommand::Exit => CommandView::Exit,
            UserCommand::Empty => CommandView::Empty,
            UserCommand::PathRequest(path) => CommandView::PathRequest(path@),
        }
    }
}

/// The word that ends the loop.
pub open spec fn exit_word() -> Seq<char> {
    "exit"@
}

/// The command that `line` stands for: the line is trimmed at its end, then
/// the exit word leaves the loop, no text at all is an empty command, and any
/// other text is taken as a path.
pub open spec fn classify(line: Seq<char>) -> CommandView {
    let text = trimmed(line);
    if text == exit_word() {
        CommandView::Exit
    } else if text.len() == 0 {
        CommandView::Empty
    } else {
        CommandView::PathRequest(text)
    }
}

impl UserCommand {
    /// Reads the command out of one line of input, its line end included or
    /// not.
    pub fn parse(line: &str) -> (command: UserCommand)
        ensures
            command@ == classify(line@),
    {
        let text = String::from_str(trim_end(line));
        if text == String::from_str("exit") {
            UserCommand::Exit
        } else if text.as_str().is_empty() {
            UserCommand::Empty
        } else {
            UserCommand::PathRequest(text)
        }
    }
}

} // verus!
