//! The session of the inspection shell: what each line of input does to the
//! session and what the shell must do in answer.
//!
//! The session performs no input or output. It is told each line and each
//! outcome, and names the action to take: the caller prints, opens the
//! database and walks its entries.

use vstd::prelude::*;
use crate::command::message_text;
use crate::command::parse_line;
use crate::command::Command;
use crate::command::CommandView;
use crate::db::OpenError;
use crate::db::OpenErrorView;
use crate::decode::decode_key;
use crate::decode::decode_value_in;
use crate::decode::key_decoding;
use crate::decode::show;
use crate::decode::shown;
use crate::decode::value_decoding;
use crate::format::key_format_name;
use crate::format::value_format_name;
use crate::format::KeyFormat;
use crate::format::ValueFormat;
use crate::render::quoted_ascii;
use crate::utf16::native_byte_order;
use crate::utf16::ByteOrder;

verus! {

/// Whether the session holds an open database.
#[derive(Debug, Clone, Copy, PartialEq, Eq, Structural)]
pub enum State {
    NoDatabaseOpen,
    DatabaseOpen,
}

/// The state of a session: whether a database is open, and the formats in
/// which keys and values are displayed.
#[derive(Debug, Clone, Copy, PartialEq, Eq, Structural)]
pub struct Session {
    pub state: State,
    pub key_format: KeyFormat,
    pub value_format: ValueFormat,
}

/// What the shell must do in answer to a line.
#[derive(Debug, Clone, PartialEq, Eq)]
pub enum Action {
    /// Print the text and read the next line.
    Report { text: String },
    /// Open the database at the path, report the outcome with
    /// [`Session::open_finished`] and print what it returns.
    Open { path: String },
    /// Print the lines of [`Session::entry_lines`] for every entry of the
    /// open database, in the engine's order.
    List,
    /// Print the text and end the session.
    Exit { text: String },
}

/// The mathematical value of an [`Action`].
pub enum ActionView {
    Report { text: Seq<char> },
    Open { path: Seq<char> },
    List,
    Exit { text: Seq<char> },
}

impl View for Action {
    type V = ActionView;

    open spec fn view(&self) -> ActionView {
        match self {
            Action::Report { text } => ActionView::Report { text: text@ },
            Action::Open { path } => ActionView::Open { path: path@ },
            Action::List => ActionView::List,
            Action::Exit { text } => ActionView::Exit { text: text@ },
        }
    }
}

/// The session at the start: no database, keys and values shown as bytes.
pub open spec fn initial() -> Session {
    Session {
        state: State::NoDatabaseOpen,
        key_format: KeyFormat::Bytes,
        value_format: ValueFormat::Bytes,
    }
}

/// The session after `command`, and the action that answers it.
pub open spec fn respond(session: Session, command: CommandView) -> (Session, ActionView) {
    match command {
        CommandView::Exit => (session, ActionView::Exit { text: "Goodbye!"@ }),
        CommandView::Open { path } => match session.state {
            State::DatabaseOpen => (
                session,
                ActionView::Report { text: "Error: Another database is already open"@ },
            ),
            State::NoDatabaseOpen => (session, ActionView::Open { path }),
        },
        CommandView::List => match session.state {
            State::NoDatabaseOpen => (
                session,
                ActionView::Report { text: "Error: No database is open"@ },
            ),
            State::DatabaseOpen => (session, ActionView::List),
        },
        CommandView::KeyFormat { format } => (
            Session { key_format: format, ..session },
            ActionView::Report {
                text: "Key format changed to \""@ + key_format_name(format) + "\""@,
            },
        ),
        CommandView::ValueFormat { format } => (
            Session { value_format: format, ..session },
            ActionView::Report {
                text: "Value format changed to \""@ + value_format_name(format) + "\""@,
            },
        ),
    }
}

/// The session after a line of input, and the action that answers it: a line
/// that is no command is reported and changes nothing.
pub open spec fn respond_to_line(session: Session, line: Seq<char>) -> (Session, ActionView) {
    match parse_line(line) {
        Ok(command) => respond(session, command),
        Err(error) => (session, ActionView::Report { text: "Error: "@ + message_text(error) }),
    }
}

/// The session after a request to open `path` has been answered, and the
/// text that reports the outcome. `error` is why the database was not opened,
/// if it was not.
pub open spec fn open_outcome(session: Session, path: Seq<char>, error: Option<OpenErrorView>) -> (
    Session,
    Seq<char>,
) {
    match error {
        None => (Session { state: State::DatabaseOpen, ..session }, "Opened \""@ + path + "\""@),
        Some(OpenErrorView::Engine(message)) => (session, "Error: "@ + quoted_ascii(message)),
        Some(OpenErrorView::InvalidPath) => (session, "Error: InvalidPath"@),
    }
}

/// The line that shows a key.
pub open spec fn key_line(format: KeyFormat, key: Seq<u8>) -> Seq<char> {
    "Key: "@ + shown(key_decoding(format, key))
}

/// The line that shows a value, with UTF-16 code units in `order`.
pub open spec fn value_line(format: ValueFormat, value: Seq<u8>, order: ByteOrder) -> Seq<char> {
    "Value: "@ + shown(value_decoding(format, value, order))
}

/// The lines that show one entry: the key, the value, and an empty line.
pub open spec fn entry_text(session: Session, key: Seq<u8>, value: Seq<u8>, order: ByteOrder) -> Seq<
    Seq<char>,
> {
    seq![
        key_line(session.key_format, key),
        value_line(session.value_format, value, order),
        Seq::empty(),
    ]
}

/// The texts of `lines`.
pub open spec fn texts(lines: Seq<String>) -> Seq<Seq<char>> {
    Seq::new(lines.len(), |i: int| lines[i]@)
}

impl Session {
    /// A session with no database open, showing keys and values as bytes.
    pub fn new() -> (session: Self)
        ensures
            session == initial(),
    {
        Session {
            state: State::NoDatabaseOpen,
            key_format: KeyFormat::Bytes,
            value_format: ValueFormat::Bytes,
        }
    }

    /// The text that asks for the next line.
    pub fn prompt() -> (text: &'static str)
        ensures
            text@ == "leveldb> "@,
    {
        "leveldb> "
    }

    /// Takes one line of input.
    pub fn handle_line(&mut self, line: &str) -> (action: Action)
        ensures
            (*final(self), action@) == respond_to_line(*old(self), line@),
    {
        match Command::from_str(line) {
            Ok(command) => self.execute(command),
            Err(error) => {
                let mut text = String::from_str("Error: ");
                text.append(error.message().as_str());
                Action::Report { text }
            },
        }
    }

    /// Takes one command.
    pub fn execute(&mut self, command: Command) -> (action: Action)
        ensures
            (*final(self), action@) == respond(*old(self), command@),
    {
        match command {
            Command::Exit => Action::Exit { text: String::from_str("Goodbye!") },
            Command::Open { path } => match self.state {
                State::DatabaseOpen => Action::Report {
                    text: String::from_str("Error: Another database is already open"),
                },
                State::NoDatabaseOpen => Action::Open { path },
            },
            Command::List => match self.state {
                State::NoDatabaseOpen => Action::Report {
                    text: String::from_str("Error: No database is open"),
                },
                State::DatabaseOpen => Action::List,
            },
            Command::KeyFormat { format } => {
                self.key_format = format;
                let mut text = String::from_str("Key format changed to \"");
                text.append(format.name());
                text.append("\"");
                Action::Report { text }
            },
            Command::ValueFormat { format } => {
                self.value_format = format;
                let mut text = String::from_str("Value format changed to \"");
                text.append(format.name());
                text.append("\"");
                Action::Report { text }
            },
        }
    }

    /// Takes the outcome of opening `path`: `error` is why the database was
    /// not opened, if it was not. Returns the text that reports the outcome.
    pub fn open_finished(&mut self, path: &str, error: Option<&OpenError>) -> (text: String)
        ensures
            (*final(self), text@) == open_outcome(
                *old(self),
                path@,
                match error {
                    Some(error) => Some(error@),
                    None => None,
                },
            ),
    {
        match error {
            None => {
                self.state = State::DatabaseOpen;
                let mut text = String::from_str("Opened \"");
                text.append(path);
                text.append("\"");
                text
            },
            Some(OpenError::Engine(message)) => {
                let mut text = String::from_str("Error: ");
                text.append(message.debug().as_str());
                text
            },
            Some(OpenError::InvalidPath) => String::from_str("Error: InvalidPath"),
        }
    }

    /// The lines that show one entry in the session's formats, with UTF-16
    /// code units in `order`.
    pub fn entry_lines_in(&self, key: &[u8], value: &[u8], order: ByteOrder) -> (lines: Vec<
        String,
    >)
        ensures
            texts(lines@) == entry_text(*self, key@, value@, order),
    {
        let mut key_text = String::from_str("Key: ");
        key_text.append(show(&decode_key(self.key_format, key)).as_str());
        let mut value_text = String::from_str("Value: ");
        value_text.append(show(&decode_value_in(self.value_format, value, order)).as_str());
        let mut lines: Vec<String> = Vec::new();
        lines.push(key_text);
        lines.push(value_text);
        lines.push(String::new());
        assert(texts(lines@) =~= entry_text(*self, key@, value@, order));
        lines
    }

    /// The lines that show one entry in the session's formats, with UTF-16
    /// code units in the byte order of this machine.
    pub fn entry_lines(&self, key: &[u8], value: &[u8]) -> (lines: Vec<String>)
        ensures
            texts(lines@) == entry_text(*self, key@, value@, ByteOrder::Little) || texts(lines@)
                == entry_text(*self, key@, value@, ByteOrder::Big),
    {
        self.entry_lines_in(key, value, native_byte_order())
    }
}

/// A database that could not be opened leaves the session as it was: in
/// particular, without an open database if it had none.
pub proof fn lemma_failed_open_changes_nothing(
    session: Session,
    path: Seq<char>,
    error: OpenErrorView,
)
    ensures
        open_outcome(session, path, Some(error)).0 == session,
{
}

/// After a database has been opened, a further request to open one is
/// answered with a report and changes nothing: the first database stays
/// open, and no request reaches the engine.
pub proof fn lemma_second_open_is_refused(session: Session, first: Seq<char>, second: Seq<char>)
    ensures
        ({
            let opened = open_outcome(session, first, None).0;
            &&& opened.state == State::DatabaseOpen
            &&& respond(opened, CommandView::Open { path: second }) == (
                opened,
                ActionView::Report { text: "Error: Another database is already open"@ },
            )
        }),
{
}

/// A line that is no command changes nothing and is answered with a report.
pub proof fn lemma_bad_line_changes_nothing(session: Session, line: Seq<char>)
    requires
        parse_line(line) is Err,
    ensures
        respond_to_line(session, line).0 == session,
        respond_to_line(session, line).1 is Report,
{
}

/// No command but the two that set a format changes the formats, and none
/// but a successful open changes whether a database is open.
pub proof fn lemma_commands_keep_state(session: Session, command: CommandView)
    ensures
        respond(session, command).0.state == session.state,
        !(command is KeyFormat) ==> respond(session, command).0.key_format
            == session.key_format,
        !(command is ValueFormat) ==> respond(session, command).0.value_format
            == session.value_format,
{
}

} // verus!
