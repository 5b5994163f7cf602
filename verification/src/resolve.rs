//! Command resolution: a command word names one of the five builtins, or
//! an executable that a scan of the PATH directories finds, or nothing.

use vstd::prelude::*;
use vstd::string::StringExecFns;
use crate::strutil::{str_eq, opt_str_view};

verus! {

/// The five in-process commands.
#[derive(Clone, Copy, Debug, PartialEq, Eq, Structural)]
pub enum BuiltinCommand {
    Exit,
    Echo,
    Type,
    Pwd,
    Cd,
}

/// An external command, resolved to the path the PATH scan found.
pub struct ExecutableCommand {
    pub path: String,
}

/// What a command word resolves to.
pub enum Command {
    BuiltinCommand(BuiltinCommand),
    ExecutableCommand(ExecutableCommand),
}

/// The mathematical image of a [`Command`].
pub enum CommandView {
    Builtin(BuiltinCommand),
    Executable(Seq<char>),
}

impl View for Command {
    type V = CommandView;

    open spec fn view(&self) -> CommandView {
        match self {
            Command::BuiltinCommand(b) => CommandView::Builtin(*b),
            Command::ExecutableCommand(e) => CommandView::Executable(e.path@),
        }
    }
}

/// The view of an optional resolution.
pub open spec fn cmd_view(r: Option<Command>) -> Option<CommandView> {
    match r {
        Some(c) => Some(c@),
        None => None,
    }
}

/// The builtin named by a command word, if any.
pub open spec fn builtin_of(w: Seq<char>) -> Option<BuiltinCommand> {
    if w == "exit"@ {
        Some(BuiltinCommand::Exit)
    } else if w == "echo"@ {
        Some(BuiltinCommand::Echo)
    } else if w == "type"@ {
        Some(BuiltinCommand::Type)
    } else if w == "pwd"@ {
        Some(BuiltinCommand::Pwd)
    } else if w == "cd"@ {
        Some(BuiltinCommand::Cd)
    } else {
        None
    }
}

impl BuiltinCommand {
    /// Match a command word against the builtin names.
    pub fn from_str(command: &str) -> (r: Option<Self>)
        ensures
            r == builtin_of(command@),
    {
        let c = String::from_str(command);
        if str_eq(&c, "exit") {
            Some(Self::Exit)
        } else if str_eq(&c, "echo") {
            Some(Self::Echo)
        } else if str_eq(&c, "type") {
            Some(Self::Type)
        } else if str_eq(&c, "pwd") {
            Some(Self::Pwd)
        } else if str_eq(&c, "cd") {
            Some(Self::Cd)
        } else {
            None
        }
    }
}

/// How a command word resolves, given what the PATH search returned for
/// it: builtins win, then the found executable, then nothing.
pub open spec fn resolve_spec(w: Seq<char>, found: Option<Seq<char>>) -> Option<CommandView> {
    match builtin_of(w) {
        Some(b) => Some(CommandView::Builtin(b)),
        None => match found {
            Some(p) => Some(CommandView::Executable(p)),
            None => None,
        },
    }
}

/// A word that names no builtin and that the PATH search did not find
/// resolves to nothing.
pub proof fn lemma_unresolved_word(w: Seq<char>, found: Option<Seq<char>>)
    requires
        builtin_of(w) is None,
        found is None,
    ensures
        resolve_spec(w, found) is None,
{
}

/// Classify a command word, given the result the PATH search produced
/// for that word.
pub fn resolve_with(command: &str, found: Option<String>) -> (r: Option<Command>)
    ensures
        cmd_view(r) == resolve_spec(command@, opt_str_view(found)),
{
    match BuiltinCommand::from_str(command) {
        Some(b) => Some(Command::BuiltinCommand(b)),
        None => match found {
            Some(p) => Some(Command::ExecutableCommand(ExecutableCommand { path: p })),
            None => None,
        },
    }
}

/// Relies on pathsearch::find_executable_in_path: walks the directories
/// of the PATH environment variable, in order, and returns the first
/// executable file there with the given name. What it returns depends on
/// the filesystem and the environment, so nothing is claimed of it.
#[verifier::external_body]
fn find_in_path(command: &str) -> (r: Option<String>) {
    pathsearch::find_executable_in_path(command).map(|p| p.display().to_string())
}

/// Resolve a command word: the builtin names first, then the PATH scan.
/// Which executable the scan finds depends on the filesystem, so for a
/// non-builtin word only the shape of the result is pinned; the exact
/// classification for a given scan result is [`resolve_with`]'s.
pub fn search_command(command: &str) -> (r: Option<Command>)
    ensures
        builtin_of(command@) matches Some(b) ==> cmd_view(r) == Some(CommandView::Builtin(b)),
        builtin_of(command@) is None ==> !(cmd_view(r) matches Some(CommandView::Builtin(_))),
{
    if let Some(b) = BuiltinCommand::from_str(command) {
        return Some(Command::BuiltinCommand(b));
    }
    let found = find_in_path(command);
    resolve_with(command, found)
}

/// The line reported for a word that resolves nowhere.
pub fn not_found_line(command: &str) -> (r: String)
    ensures
        r@ == command@ + ": command not found"@,
{
    String::from_str(command).concat(": command not found")
}

} // verus!
