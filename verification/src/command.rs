//! The command line as a whole: which command the tokens name, and what is
//! to be done for it.

use crate::config::{default_config, overridden, ConfigView, ProjectConfig};
use crate::error::{UsageError, UsageErrorView};
use crate::text::str_eq;
use vstd::prelude::*;

verus! {

/// A command as plain values.
pub enum CommandView {
    /// Show how the tool is used.
    Help,
    /// Create a project with this configuration.
    New(ConfigView),
}

/// What a command line asks for.
#[derive(Debug)]
pub enum Command {
    /// Show how the tool is used.
    Help,
    /// Create a project with this configuration.
    New(ProjectConfig),
}

impl View for Command {
    type V = CommandView;

    open spec fn view(&self) -> CommandView {
        match self {
            Command::Help => CommandView::Help,
            Command::New(config) => CommandView::New(config@),
        }
    }
}

/// The outcome of reading a command line, as plain values.
pub open spec fn outcome_view(outcome: Result<Command, UsageError>) -> Result<
    CommandView,
    UsageErrorView,
> {
    match outcome {
        Ok(command) => Ok(command@),
        Err(error) => Err(error@),
    }
}

/// The lower-case form of a text, as the standard library's
/// `str::to_lowercase` gives it.
pub uninterp spec fn lowercase_of(text: Seq<char>) -> Seq<char>;

/// Calls `str::to_lowercase` of the standard library. Its result depends on
/// the characters of `text` alone, by the Unicode mapping that the library
/// is built with, and bears the name `lowercase_of`. Nothing more is claimed
/// of it.
#[verifier::external_body]
fn to_lowercase(text: &str) -> (lower: String)
    ensures
        lower@ == lowercase_of(text@),
{
    text.to_lowercase()
}

/// What `tokens` ask for when their first token, in lower case, is
/// `command`: `new` creates a project with what the tokens configure; any
/// other word is an unknown command.
pub open spec fn dispatched(command: Seq<char>, tokens: Seq<Seq<char>>) -> Result<
    CommandView,
    UsageErrorView,
> {
    if command == "new"@ {
        Ok(CommandView::New(overridden(default_config(), tokens)))
    } else {
        Err(UsageErrorView::UnknownCommand(command))
    }
}

/// What `tokens` ask for: with no token, help; else what their first token
/// in lower case stands for.
pub open spec fn parsed(tokens: Seq<Seq<char>>) -> Result<CommandView, UsageErrorView> {
    if tokens.len() == 0 {
        Ok(CommandView::Help)
    } else {
        dispatched(lowercase_of(tokens[0]), tokens)
    }
}

/// Decides what to do for the command named `command`, given all tokens of
/// the command line, the command's own among them.
pub fn dispatch(command: &str, cmds: &[String]) -> (outcome: Result<Command, UsageError>)
    ensures
        outcome_view(outcome) == dispatched(command@, cmds.deep_view()),
{
    if str_eq(command, "new") {
        Ok(Command::New(ProjectConfig::from_tokens(cmds)))
    } else {
        Err(UsageError::UnknownCommand(String::from_str(command)))
    }
}

/// Reads a command line. No token at all asks for help. Otherwise the first
/// token names the command, in any mix of upper and lower case.
pub fn parse_commands(cmds: &[String]) -> (outcome: Result<Command, UsageError>)
    ensures
        outcome_view(outcome) == parsed(cmds.deep_view()),
{
    if cmds.len() == 0 {
        return Ok(Command::Help);
    }
    let command = to_lowercase(cmds[0].as_str());
    dispatch(command.as_str(), cmds)
}

/// The lines of the usage text.
pub open spec fn help_text() -> Seq<Seq<char>> {
    seq![
        "Commands:"@,
        "    new"@,
        "    help"@,
        "Flags:"@,
        "    '-n', '--name' : Name of the project,"@,
        "    '-s', '--std' : Required version of C++ standard,"@,
        "    '-c', '--cmake-min' : Minimal required version of CMake,"@,
    ]
}

/// The usage text, line by line.
pub fn help_lines() -> (lines: Vec<&'static str>)
    ensures
        lines.deep_view() == help_text(),
{
    let mut lines: Vec<&'static str> = Vec::new();
    lines.push("Commands:");
    lines.push("    new");
    lines.push("    help");
    lines.push("Flags:");
    lines.push("    '-n', '--name' : Name of the project,");
    lines.push("    '-s', '--std' : Required version of C++ standard,");
    lines.push("    '-c', '--cmake-min' : Minimal required version of CMake,");
    proof {
        assert(lines.deep_view() =~= help_text());
    }
    lines
}

} // verus!
