//! The slash-command vocabulary, and its parser.

use vstd::prelude::*;
use crate::fs_path::str_eq;

verus! {

/// An explicit command; receiving one always resets the session first.
#[derive(Debug, Clone, Copy, PartialEq, Eq, Structural)]
pub enum Command {
    Start,
    Help,
    Info,
    MkDir,
    Explorer,
    RenameFile,
    MoveFile,
    DeleteDir,
    DeleteFile,
}

/// The command a text stands for, if any.
pub open spec fn command_of(s: Seq<char>) -> Option<Command> {
    if s == "/start"@ {
        Some(Command::Start)
    } else if s == "/help"@ {
        Some(Command::Help)
    } else if s == "/info"@ {
        Some(Command::Info)
    } else if s == "/mkdir"@ {
        Some(Command::MkDir)
    } else if s == "/explorer"@ {
        Some(Command::Explorer)
    } else if s == "/rename_file"@ {
        Some(Command::RenameFile)
    } else if s == "/move_file"@ {
        Some(Command::MoveFile)
    } else if s == "/delete_dir"@ {
        Some(Command::DeleteDir)
    } else if s == "/delete_file"@ {
        Some(Command::DeleteFile)
    } else {
        None
    }
}

impl Command {
    /// Parse a command text; `None` when it is not a known command.
    pub fn parse(s: &str) -> (r: Option<Command>)
        ensures
            r == command_of(s@),
    {
        if str_eq(s, "/start") {
            Some(Command::Start)
        } else if str_eq(s, "/help") {
            Some(Command::Help)
        } else if str_eq(s, "/info") {
            Some(Command::Info)
        } else if str_eq(s, "/mkdir") {
            Some(Command::MkDir)
        } else if str_eq(s, "/explorer") {
            Some(Command::Explorer)
        } else if str_eq(s, "/rename_file") {
            Some(Command::RenameFile)
        } else if str_eq(s, "/move_file") {
            Some(Command::MoveFile)
        } else if str_eq(s, "/delete_dir") {
            Some(Command::DeleteDir)
        } else if str_eq(s, "/delete_file") {
            Some(Command::DeleteFile)
        } else {
            None
        }
    }
}

} // verus!
