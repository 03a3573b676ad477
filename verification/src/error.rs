//! What can be wrong with a command line.

use vstd::prelude::*;

verus! {

/// A usage error as plain values.
pub enum UsageErrorView {
    /// The first token names no command.
    UnknownCommand(Seq<char>),
    /// The template token names no template.
    UnknownTemplate(Seq<char>),
}

/// A command line that cannot be carried out. Each variant holds the token
/// that was not understood.
#[derive(Debug)]
pub enum UsageError {
    /// The first token, in lower case, names no command.
    UnknownCommand(String),
    /// The template token names no template.
    UnknownTemplate(String),
}

impl View for UsageError {
    type V = UsageErrorView;

    open spec fn view(&self) -> UsageErrorView {
        match self {
            UsageError::UnknownCommand(name) => UsageErrorView::UnknownCommand(name@),
            UsageError::UnknownTemplate(name) => UsageErrorView::UnknownTemplate(name@),
        }
    }
}

/// The message for a usage error: what was looked for, and the name that was
/// not found, in single quotes.
pub open spec fn message_of(error: UsageErrorView) -> Seq<char> {
    match error {
        UsageErrorView::UnknownCommand(name) => "There is no comand with the name '"@ + name
            + "'"@,
        UsageErrorView::UnknownTemplate(name) => "There is no template with the name '"@ + name
            + "'"@,
    }
}

impl UsageError {
    /// The message for this error.
    pub fn message(&self) -> (text: String)
        ensures
            text@ == message_of(self@),
    {
        match self {
            UsageError::UnknownCommand(name) => {
                let mut text = String::from_str("There is no comand with the name '");
                text.append(name.as_str());
                text.append("'");
                text
            },
            UsageError::UnknownTemplate(name) => {
                let mut text = String::from_str("There is no template with the name '");
                text.append(name.as_str());
                text.append("'");
                text
            },
        }
    }
}

} // verus!
