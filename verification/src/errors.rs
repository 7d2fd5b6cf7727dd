//! What can go wrong, and how it is told to the user.

use crate::text::{decimal, to_decimal};
use crate::utils::ClockError;
use vstd::prelude::*;
use vstd::string::*;

verus! {

/// A command that failed, with what it wrote to its error stream.
#[derive(Debug)]
pub struct CommandError {
    pub command: String,
    pub error: String,
}

/// How a failed command is told.
pub open spec fn command_message(command: Seq<char>, error: Seq<char>) -> Seq<char> {
    "[Command] `"@ + command + "` failed with message "@ + error
}

impl CommandError {
    /// The failure of `command` with the message `error`.
    pub fn new(command: String, error: String) -> (e: CommandError)
        ensures
            e.command == command,
            e.error == error,
    {
        CommandError { command, error }
    }

    /// The failure in words.
    pub fn describe(&self) -> (s: String)
        ensures
            s@ == command_message(self.command@, self.error@),
    {
        let mut s = String::from_str("[Command] `");
        s.append(self.command.as_str());
        s.append("` failed with message ");
        s.append(self.error.as_str());
        s
    }

    /// What the command wrote to its error stream.
    pub fn description(&self) -> (s: &str)
        ensures
            s@ == self.error@,
    {
        self.error.as_str()
    }
}

/// What the user left undone.
#[derive(Debug)]
pub enum UserError {
    /// The tag message was left empty.
    TagMessage,
}

impl UserError {
    /// The failure in words.
    pub fn describe(&self) -> (s: String)
        ensures
            s@ == "No tag message was provided"@,
    {
        String::from_str("No tag message was provided")
    }
}

/// Why a protocol run ended without a result.
#[derive(Debug, Clone, Copy, PartialEq, Eq)]
pub enum ProtocolError {
    Timeout,
    /// The server could not be reached, or no longer answered.
    Connection,
    /// A participant's message failed verification.
    Blame,
    /// The operation has all the participants it takes.
    Full,
}

/// Where in a JSON text the decoder stopped, as `serde_json` classifies it.
#[derive(Debug, Clone, Copy)]
pub enum JsonCategory {
    Io,
    Syntax,
    Data,
    Eof,
}

impl JsonCategory {
    /// The name of the category.
    pub open spec fn name(self) -> Seq<char> {
        match self {
            JsonCategory::Io => "IO"@,
            JsonCategory::Syntax => "Syntax"@,
            JsonCategory::Data => "Data"@,
            JsonCategory::Eof => "End of file"@,
        }
    }

    fn name_text(self) -> (s: &'static str)
        ensures
            s@ == self.name(),
    {
        match self {
            JsonCategory::Io => "IO",
            JsonCategory::Syntax => "Syntax",
            JsonCategory::Data => "Data",
            JsonCategory::Eof => "End of file",
        }
    }
}

/// The five kinds of failure.
#[derive(Debug, Clone, Copy, PartialEq, Eq)]
pub enum ErrorKind {
    /// A stage failed verification, an operation was full, shares disagreed.
    Protocol,
    /// The server could not be reached.
    Connection,
    /// Malformed JSON or TOML, or output that is no UTF-8.
    Decode,
    /// A file or a command failed.
    Filesystem,
    /// The user declined or left something empty.
    User,
}

/// A failure that ends the run, with what its message needs.
#[derive(Debug)]
pub enum CriticalError {
    /// A file operation failed: the failure in words, and its cause where
    /// the system names one.
    FileSystem { description: String, cause: Option<String> },
    Network,
    /// A JSON text did not decode.
    JSON { category: JsonCategory, line: usize, column: usize },
    /// The configuration did not decode: the place, where the decoder gives
    /// one, and its message.
    TOML { place: Option<(usize, usize)>, message: String },
    HTTP { message: String },
    /// The output of a command was no UTF-8.
    Encoding { message: String },
    Command(CommandError),
    User(UserError),
    Clock(ClockError),
    /// A protocol run ended without a result.
    Protocol(ProtocolError),
}

/// What a critical error holds.
pub enum CriticalErrorView {
    FileSystem { description: Seq<char>, cause: Option<Seq<char>> },
    Network,
    JSON { category: JsonCategory, line: usize, column: usize },
    TOML { place: Option<(usize, usize)>, message: Seq<char> },
    HTTP { message: Seq<char> },
    Encoding { message: Seq<char> },
    Command { command: Seq<char>, error: Seq<char> },
    User,
    Clock,
    Protocol(ProtocolError),
}

impl View for CriticalError {
    type V = CriticalErrorView;

    open spec fn view(&self) -> CriticalErrorView {
        match self {
            CriticalError::FileSystem { description, cause } => CriticalErrorView::FileSystem {
                description: description@,
                cause: match cause {
                    Some(c) => Some(c@),
                    None => None,
                },
            },
            CriticalError::Network => CriticalErrorView::Network,
            CriticalError::JSON { category, line, column } => CriticalErrorView::JSON {
                category: *category,
                line: *line,
                column: *column,
            },
            CriticalError::TOML { place, message } => CriticalErrorView::TOML {
                place: *place,
                message: message@,
            },
            CriticalError::HTTP { message } => CriticalErrorView::HTTP { message: message@ },
            CriticalError::Encoding { message } => CriticalErrorView::Encoding {
                message: message@,
            },
            CriticalError::Command(e) => CriticalErrorView::Command {
                command: e.command@,
                error: e.error@,
            },
            CriticalError::User(_) => CriticalErrorView::User,
            CriticalError::Clock(_) => CriticalErrorView::Clock,
            CriticalError::Protocol(p) => CriticalErrorView::Protocol(*p),
        }
    }
}

/// The name of a protocol failure.
pub open spec fn protocol_error_name(p: ProtocolError) -> Seq<char> {
    match p {
        ProtocolError::Timeout => "Timeout"@,
        ProtocolError::Connection => "Connection"@,
        ProtocolError::Blame => "Blame"@,
        ProtocolError::Full => "Full"@,
    }
}

/// The message of a critical error: its category between square brackets,
/// then what is known of it.
pub open spec fn critical_message(e: CriticalErrorView) -> Seq<char> {
    match e {
        CriticalErrorView::FileSystem { description, cause } => match cause {
            Some(c) => "[File System]:\t "@ + description + " caused by "@ + c,
            None => "[File System]:\t "@ + description,
        },
        CriticalErrorView::Network => "[Network   ]"@,
        CriticalErrorView::JSON { category, line, column } => "[JSON]\t\""@ + category.name()
            + "\" error: line "@ + decimal(line as nat) + ", col "@ + decimal(column as nat),
        CriticalErrorView::TOML { place, message } => match place {
            Some((line, column)) => "[TOML]\t Decoding error at line "@ + decimal(line as nat)
                + ", col "@ + decimal(column as nat) + ": "@ + message,
            None => "[TOML]\t Decoding error "@ + message,
        },
        CriticalErrorView::HTTP { message } => "[HTTP]\t"@ + message,
        CriticalErrorView::Encoding { message } => "[Encoding]\t"@ + message,
        CriticalErrorView::Command { command, error } => "[Command]\t"@ + command_message(
            command,
            error,
        ),
        CriticalErrorView::User => "[User]\tNo tag message was provided"@,
        CriticalErrorView::Clock => "[Clock]\tsecond time provided was later than self"@,
        CriticalErrorView::Protocol(p) => "[Protocol]\t"@ + protocol_error_name(p),
    }
}

/// The kind of a critical error.
pub open spec fn critical_kind(e: CriticalErrorView) -> ErrorKind {
    match e {
        CriticalErrorView::FileSystem { .. } => ErrorKind::Filesystem,
        CriticalErrorView::Network => ErrorKind::Connection,
        CriticalErrorView::JSON { .. } => ErrorKind::Decode,
        CriticalErrorView::TOML { .. } => ErrorKind::Decode,
        CriticalErrorView::HTTP { .. } => ErrorKind::Connection,
        CriticalErrorView::Encoding { .. } => ErrorKind::Decode,
        CriticalErrorView::Command { .. } => ErrorKind::Filesystem,
        CriticalErrorView::User => ErrorKind::User,
        CriticalErrorView::Clock => ErrorKind::Filesystem,
        CriticalErrorView::Protocol(p) => match p {
            ProtocolError::Connection => ErrorKind::Connection,
            _ => ErrorKind::Protocol,
        },
    }
}

/// Whether a failure of this kind ends an operation that is under way.
/// Every kind does. Outside an operation a failed connection does not end
/// the run: the tool then hands its arguments to `git` as they are.
pub open spec fn fatal(kind: ErrorKind, in_operation: bool) -> bool {
    in_operation || kind != ErrorKind::Connection
}

impl ProtocolError {
    /// The name of the failure.
    pub fn describe(&self) -> (s: String)
        ensures
            s@ == protocol_error_name(*self),
    {
        match self {
            ProtocolError::Timeout => String::from_str("Timeout"),
            ProtocolError::Connection => String::from_str("Connection"),
            ProtocolError::Blame => String::from_str("Blame"),
            ProtocolError::Full => String::from_str("Full"),
        }
    }
}

impl ErrorKind {
    /// Whether a failure of this kind ends the run.
    pub fn is_fatal(self, in_operation: bool) -> (yes: bool)
        ensures
            yes == fatal(self, in_operation),
    {
        match self {
            ErrorKind::Connection => in_operation,
            _ => true,
        }
    }
}

impl CriticalError {
    /// The message printed for the error.
    pub fn describe(&self) -> (s: String)
        ensures
            s@ == critical_message(self@),
    {
        match self {
            CriticalError::FileSystem { description, cause } => {
                let mut s = String::from_str("[File System]:\t ");
                s.append(description.as_str());
                match cause {
                    Some(c) => {
                        s.append(" caused by ");
                        s.append(c.as_str());
                    },
                    None => {},
                }
                s
            },
            CriticalError::Network => String::from_str("[Network   ]"),
            CriticalError::JSON { category, line, column } => {
                let mut s = String::from_str("[JSON]\t\"");
                s.append(category.name_text());
                s.append("\" error: line ");
                s.append(to_decimal(*line as u64).as_str());
                s.append(", col ");
                s.append(to_decimal(*column as u64).as_str());
                s
            },
            CriticalError::TOML { place, message } => {
                match place {
                    Some((line, column)) => {
                        let mut s = String::from_str("[TOML]\t Decoding error at line ");
                        s.append(to_decimal(*line as u64).as_str());
                        s.append(", col ");
                        s.append(to_decimal(*column as u64).as_str());
                        s.append(": ");
                        s.append(message.as_str());
                        s
                    },
                    None => {
                        let mut s = String::from_str("[TOML]\t Decoding error ");
                        s.append(message.as_str());
                        s
                    },
                }
            },
            CriticalError::HTTP { message } => {
                let mut s = String::from_str("[HTTP]\t");
                s.append(message.as_str());
                s
            },
            CriticalError::Encoding { message } => {
                let mut s = String::from_str("[Encoding]\t");
                s.append(message.as_str());
                s
            },
            CriticalError::Command(e) => {
                let mut s = String::from_str("[Command]\t");
                s.append(e.describe().as_str());
                s
            },
            CriticalError::User(_) => String::from_str("[User]\tNo tag message was provided"),
            CriticalError::Clock(_) => String::from_str(
                "[Clock]\tsecond time provided was later than self",
            ),
            CriticalError::Protocol(p) => {
                let mut s = String::from_str("[Protocol]\t");
                s.append(p.describe().as_str());
                s
            },
        }
    }

    /// The kind of the error.
    pub fn kind(&self) -> (k: ErrorKind)
        ensures
            k == critical_kind(self@),
    {
        match self {
            CriticalError::FileSystem { .. } => ErrorKind::Filesystem,
            CriticalError::Network => ErrorKind::Connection,
            CriticalError::JSON { .. } => ErrorKind::Decode,
            CriticalError::TOML { .. } => ErrorKind::Decode,
            CriticalError::HTTP { .. } => ErrorKind::Connection,
            CriticalError::Encoding { .. } => ErrorKind::Decode,
            CriticalError::Command(_) => ErrorKind::Filesystem,
            CriticalError::User(_) => ErrorKind::User,
            CriticalError::Clock(_) => ErrorKind::Filesystem,
            CriticalError::Protocol(p) => match p {
                ProtocolError::Connection => ErrorKind::Connection,
                _ => ErrorKind::Protocol,
            },
        }
    }
}

} // verus!
