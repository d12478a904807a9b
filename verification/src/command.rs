//! The words of the command line: commands, questions and path dialects.

use crate::token::is_word;
use vstd::prelude::*;
use vstd::string::StringSliceAdditionalSpecFns;

verus! {

/// What the tool is asked to do.
#[derive(Debug, Clone, Copy, PartialEq, Eq, Structural)]
pub enum Command {
    /// Read a part of a path.
    Get,
    /// Write a part of a path; the word for it is `set`.
    Put,
    /// Write a part of a path where the path has it.
    Replace,
    /// Remove a part of a path.
    Delete,
    /// Tell whether a path has a part.
    Has,
    /// Answer a question about a path.
    Is,
    /// Resolve the `.` and `..` segments of a path.
    Normalize,
    /// Write a path in the other dialect.
    Convert,
    /// Describe a path.
    Info,
    /// Count how deep a path lies.
    Depth,
}

/// A question about a path that is answered with yes or no.
#[derive(Debug, Clone, Copy, PartialEq, Eq, Structural)]
pub enum Question {
    Absolute,
    Relative,
    Unix,
    Windows,
    Normalized,
}

/// The lexical dialect under which the bytes of a path are read.
#[derive(Debug, Clone, Copy, PartialEq, Eq, Structural)]
pub enum PathKind {
    Unix,
    Windows,
}

/// The command that a word of the command line names.
pub open spec fn command_of_token(token: Seq<u8>) -> Option<Command> {
    if token == "get".spec_bytes() {
        Some(Command::Get)
    } else if token == "set".spec_bytes() {
        Some(Command::Put)
    } else if token == "replace".spec_bytes() {
        Some(Command::Replace)
    } else if token == "delete".spec_bytes() {
        Some(Command::Delete)
    } else if token == "has".spec_bytes() {
        Some(Command::Has)
    } else if token == "is".spec_bytes() {
        Some(Command::Is)
    } else if token == "normalize".spec_bytes() {
        Some(Command::Normalize)
    } else if token == "convert".spec_bytes() {
        Some(Command::Convert)
    } else if token == "info".spec_bytes() {
        Some(Command::Info)
    } else if token == "depth".spec_bytes() {
        Some(Command::Depth)
    } else {
        None
    }
}

impl TryFrom<&str> for Command {
    type Error = ();

    /// Reads a word of the command line as a command.
    fn try_from(s: &str) -> (r: Result<Command, ()>) {
        let token = s.as_bytes();
        if is_word(token, "get") {
            Ok(Command::Get)
        } else if is_word(token, "set") {
            Ok(Command::Put)
        } else if is_word(token, "replace") {
            Ok(Command::Replace)
        } else if is_word(token, "delete") {
            Ok(Command::Delete)
        } else if is_word(token, "has") {
            Ok(Command::Has)
        } else if is_word(token, "is") {
            Ok(Command::Is)
        } else if is_word(token, "normalize") {
            Ok(Command::Normalize)
        } else if is_word(token, "convert") {
            Ok(Command::Convert)
        } else if is_word(token, "info") {
            Ok(Command::Info)
        } else if is_word(token, "depth") {
            Ok(Command::Depth)
        } else {
            Err(())
        }
    }
}

impl vstd::std_specs::convert::TryFromSpecImpl<&str> for Command {
    open spec fn obeys_try_from_spec() -> bool {
        true
    }

    open spec fn try_from_spec(s: &str) -> Result<Command, ()> {
        match command_of_token(s.spec_bytes()) {
            Some(command) => Ok(command),
            None => Err(()),
        }
    }
}

impl Command {
    /// The word that names this command on the command line.
    pub open spec fn spec_word(self) -> &'static str {
        match self {
            Command::Get => "get",
            Command::Put => "set",
            Command::Replace => "replace",
            Command::Delete => "delete",
            Command::Has => "has",
            Command::Is => "is",
            Command::Normalize => "normalize",
            Command::Convert => "convert",
            Command::Info => "info",
            Command::Depth => "depth",
        }
    }

    /// The word that names this command on the command line.
    pub fn word(self) -> (r: &'static str)
        ensures
            r == self.spec_word(),
    {
        match self {
            Command::Get => "get",
            Command::Put => "set",
            Command::Replace => "replace",
            Command::Delete => "delete",
            Command::Has => "has",
            Command::Is => "is",
            Command::Normalize => "normalize",
            Command::Convert => "convert",
            Command::Info => "info",
            Command::Depth => "depth",
        }
    }
}

impl Question {
    /// The word that names this question on the command line.
    pub open spec fn spec_word(self) -> &'static str {
        match self {
            Question::Absolute => "absolute",
            Question::Relative => "relative",
            Question::Unix => "unix",
            Question::Windows => "windows",
            Question::Normalized => "normalized",
        }
    }

    /// The word that names this question on the command line.
    pub fn word(self) -> (r: &'static str)
        ensures
            r == self.spec_word(),
    {
        match self {
            Question::Absolute => "absolute",
            Question::Relative => "relative",
            Question::Unix => "unix",
            Question::Windows => "windows",
            Question::Normalized => "normalized",
        }
    }
}

impl PathKind {
    /// Whether this is the Windows dialect.
    pub open spec fn windows(self) -> bool {
        self == PathKind::Windows
    }

    /// The word that names this dialect on the command line.
    pub open spec fn spec_word(self) -> &'static str {
        match self {
            PathKind::Unix => "unix",
            PathKind::Windows => "win",
        }
    }

    /// The word that names this dialect on the command line.
    pub fn word(self) -> (r: &'static str)
        ensures
            r == self.spec_word(),
    {
        match self {
            PathKind::Unix => "unix",
            PathKind::Windows => "win",
        }
    }
}

} // verus!
