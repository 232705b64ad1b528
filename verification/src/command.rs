//! The command language of the inspection shell: one command per line,
//! introduced by a dot, with at most one argument after the first space.

use vstd::prelude::*;
use crate::format::KeyFormat;
use crate::format::ValueFormat;
use crate::text::after_space;
use crate::text::before_space;
use crate::text::chars_of;
use crate::text::find_space;
use crate::text::range_equals;
use crate::text::trim;
use crate::text::trim_bounds;

verus! {

/// A parsed command.
#[derive(Debug, Clone, PartialEq, Eq)]
#[allow(inconsistent_fields)]
pub enum Command {
    /// Leave the shell.
    Exit,
    /// Open a database.
    Open {
        /// The path to the database.
        path: String,
    },
    /// List entries.
    List,
    /// Set the key format.
    KeyFormat {
        /// The new format.
        format: KeyFormat,
    },
    /// Set the value format.
    ValueFormat {
        /// The new format.
        format: ValueFormat,
    },
}

/// The mathematical value of a [`Command`].
#[allow(inconsistent_fields)]
pub enum CommandView {
    Exit,
    Open { path: Seq<char> },
    List,
    KeyFormat { format: KeyFormat },
    ValueFormat { format: ValueFormat },
}

impl View for Command {
    type V = CommandView;

    open spec fn view(&self) -> CommandView {
        match self {
            Command::Exit => CommandView::Exit,
            Command::Open { path } => CommandView::Open { path: path@ },
            Command::List => CommandView::List,
            Command::KeyFormat { format } => CommandView::KeyFormat { format: *format },
            Command::ValueFormat { format } => CommandView::ValueFormat { format: *format },
        }
    }
}

/// The words that name a command.
#[derive(Debug, Clone, Copy, PartialEq, Eq, Structural)]
pub enum Keyword {
    Exit,
    Open,
    List,
    KeyFormat,
    ValueFormat,
}

/// Why a line is no command.
#[derive(Debug, Clone, PartialEq, Eq)]
pub enum ParseError {
    /// The line does not start with a dot.
    MissingMarker,
    /// An argument follows a command that takes none.
    UnexpectedArgument { command: Keyword },
    /// No argument follows a command that needs one.
    MissingArgument { command: Keyword },
    /// The argument names no key format.
    UnknownKeyFormat { name: String },
    /// The argument names no value format.
    UnknownValueFormat { name: String },
    /// The word after the dot names no command.
    UnknownCommand { name: String },
}

/// The mathematical value of a [`ParseError`].
pub enum ParseErrorView {
    MissingMarker,
    UnexpectedArgument { command: Keyword },
    MissingArgument { command: Keyword },
    UnknownKeyFormat { name: Seq<char> },
    UnknownValueFormat { name: Seq<char> },
    UnknownCommand { name: Seq<char> },
}

impl View for ParseError {
    type V = ParseErrorView;

    open spec fn view(&self) -> ParseErrorView {
        match self {
            ParseError::MissingMarker => ParseErrorView::MissingMarker,
            ParseError::UnexpectedArgument { command } => ParseErrorView::UnexpectedArgument {
                command: *command,
            },
            ParseError::MissingArgument { command } => ParseErrorView::MissingArgument {
                command: *command,
            },
            ParseError::UnknownKeyFormat { name } => ParseErrorView::UnknownKeyFormat {
                name: name@,
            },
            ParseError::UnknownValueFormat { name } => ParseErrorView::UnknownValueFormat {
                name: name@,
            },
            ParseError::UnknownCommand { name } => ParseErrorView::UnknownCommand { name: name@ },
        }
    }
}

/// The word that selects `keyword`.
pub open spec fn keyword_text(keyword: Keyword) -> Seq<char> {
    match keyword {
        Keyword::Exit => "exit"@,
        Keyword::Open => "open"@,
        Keyword::List => "list"@,
        Keyword::KeyFormat => "keyformat"@,
        Keyword::ValueFormat => "valueformat"@,
    }
}

/// The key format that `name` selects.
pub open spec fn key_format_named(name: Seq<char>) -> Option<KeyFormat> {
    if name == "bytes"@ {
        Some(KeyFormat::Bytes)
    } else if name == "utf8"@ {
        Some(KeyFormat::Utf8)
    } else {
        None
    }
}

/// The value format that `name` selects.
pub open spec fn value_format_named(name: Seq<char>) -> Option<ValueFormat> {
    if name == "bytes"@ {
        Some(ValueFormat::Bytes)
    } else if name == "chromelocalstorage"@ {
        Some(ValueFormat::ChromeLocalStorage)
    } else {
        None
    }
}

/// What a command word and its argument mean.
pub open spec fn parse_words(name: Seq<char>, argument: Option<Seq<char>>) -> Result<
    CommandView,
    ParseErrorView,
> {
    if name == keyword_text(Keyword::Exit) {
        match argument {
            None => Ok(CommandView::Exit),
            Some(_) => Err(ParseErrorView::UnexpectedArgument { command: Keyword::Exit }),
        }
    } else if name == keyword_text(Keyword::Open) {
        match argument {
            Some(path) => Ok(CommandView::Open { path }),
            None => Err(ParseErrorView::MissingArgument { command: Keyword::Open }),
        }
    } else if name == keyword_text(Keyword::List) {
        match argument {
            None => Ok(CommandView::List),
            Some(_) => Err(ParseErrorView::UnexpectedArgument { command: Keyword::List }),
        }
    } else if name == keyword_text(Keyword::KeyFormat) {
        match argument {
            Some(format) => match key_format_named(format) {
                Some(format) => Ok(CommandView::KeyFormat { format }),
                None => Err(ParseErrorView::UnknownKeyFormat { name: format }),
            },
            None => Err(ParseErrorView::MissingArgument { command: Keyword::KeyFormat }),
        }
    } else if name == keyword_text(Keyword::ValueFormat) {
        match argument {
            Some(format) => match value_format_named(format) {
                Some(format) => Ok(CommandView::ValueFormat { format }),
                None => Err(ParseErrorView::UnknownValueFormat { name: format }),
            },
            None => Err(ParseErrorView::MissingArgument { command: Keyword::ValueFormat }),
        }
    } else {
        Err(ParseErrorView::UnknownCommand { name })
    }
}

/// What a line means: surrounding whitespace is dropped, a dot must lead, the
/// command word runs up to the first space and the argument is all that
/// follows that space.
pub open spec fn parse_line(input: Seq<char>) -> Result<CommandView, ParseErrorView> {
    let line = trim(input);
    if line.len() == 0 || line[0] != '.' {
        Err(ParseErrorView::MissingMarker)
    } else {
        parse_words(before_space(line.drop_first()), after_space(line.drop_first()))
    }
}

/// The mathematical value of a parse result.
pub open spec fn parsed_view(result: Result<Command, ParseError>) -> Result<
    CommandView,
    ParseErrorView,
> {
    match result {
        Ok(command) => Ok(command@),
        Err(error) => Err(error@),
    }
}

/// What [`ParseError::message`] says of an error.
pub open spec fn message_text(error: ParseErrorView) -> Seq<char> {
    match error {
        ParseErrorView::MissingMarker => "commands must start with a \".\""@,
        ParseErrorView::UnexpectedArgument { command } => "\"."@ + keyword_text(command)
            + "\" takes no arguments"@,
        ParseErrorView::MissingArgument { command } => "\"."@ + keyword_text(command)
            + "\" needs 1 argument"@,
        ParseErrorView::UnknownKeyFormat { name } => "unknown key format \""@ + name + "\""@,
        ParseErrorView::UnknownValueFormat { name } => "unknown value format \""@ + name
            + "\""@,
        ParseErrorView::UnknownCommand { name } => "unknown command \"."@ + name + "\""@,
    }
}

impl Keyword {
    /// The word that selects this command.
    pub fn text(self) -> (word: &'static str)
        ensures
            word@ == keyword_text(self),
    {
        match self {
            Keyword::Exit => "exit",
            Keyword::Open => "open",
            Keyword::List => "list",
            Keyword::KeyFormat => "keyformat",
            Keyword::ValueFormat => "valueformat",
        }
    }
}

impl ParseError {
    /// The text that tells the user what is wrong with the line.
    pub fn message(&self) -> (text: String)
        ensures
            text@ == message_text(self@),
    {
        match self {
            ParseError::MissingMarker => String::from_str("commands must start with a \".\""),
            ParseError::UnexpectedArgument { command } => {
                let mut text = String::from_str("\".");
                text.append(command.text());
                text.append("\" takes no arguments");
                text
            },
            ParseError::MissingArgument { command } => {
                let mut text = String::from_str("\".");
                text.append(command.text());
                text.append("\" needs 1 argument");
                text
            },
            ParseError::UnknownKeyFormat { name } => {
                let mut text = String::from_str("unknown key format \"");
                text.append(name.as_str());
                text.append("\"");
                text
            },
            ParseError::UnknownValueFormat { name } => {
                let mut text = String::from_str("unknown value format \"");
                text.append(name.as_str());
                text.append("\"");
                text
            },
            ParseError::UnknownCommand { name } => {
                let mut text = String::from_str("unknown command \".");
                text.append(name.as_str());
                text.append("\"");
                text
            },
        }
    }
}

impl Command {
    /// Parses one line of input.
    pub fn from_str(input: &str) -> (result: Result<Command, ParseError>)
        ensures
            parsed_view(result) == parse_line(input@),
    {
        let chars = chars_of(input);
        let (start, end) = trim_bounds(&chars);
        if start == end || chars[start] != '.' {
            return Err(ParseError::MissingMarker);
        }
        let from: usize = start + 1;
        let at: usize = find_space(&chars, from, end);
        let ghost body = trim(input@).drop_first();
        let ghost name = before_space(body);
        let ghost argument = after_space(body);
        proof {
            assert(body =~= chars@.subrange(from as int, end as int));
            assert(name =~= chars@.subrange(from as int, at as int));
            if at < end {
                assert(argument == Some(chars@.subrange(at + 1, end as int))) by {
                    assert(body.skip(at - from + 1) =~= chars@.subrange(at + 1, end as int));
                }
            } else {
                assert(argument.is_none());
            }
        }
        let has_argument = at < end;
        if range_equals(&chars, from, at, Keyword::Exit.text()) {
            if has_argument {
                Err(ParseError::UnexpectedArgument { command: Keyword::Exit })
            } else {
                Ok(Command::Exit)
            }
        } else if range_equals(&chars, from, at, Keyword::Open.text()) {
            if has_argument {
                let path = input.substring_char(at + 1, end).to_owned();
                Ok(Command::Open { path })
            } else {
                Err(ParseError::MissingArgument { command: Keyword::Open })
            }
        } else if range_equals(&chars, from, at, Keyword::List.text()) {
            if has_argument {
                Err(ParseError::UnexpectedArgument { command: Keyword::List })
            } else {
                Ok(Command::List)
            }
        } else if range_equals(&chars, from, at, Keyword::KeyFormat.text()) {
            if !has_argument {
                Err(ParseError::MissingArgument { command: Keyword::KeyFormat })
            } else if range_equals(&chars, at + 1, end, "bytes") {
                Ok(Command::KeyFormat { format: KeyFormat::Bytes })
            } else if range_equals(&chars, at + 1, end, "utf8") {
                Ok(Command::KeyFormat { format: KeyFormat::Utf8 })
            } else {
                let name = input.substring_char(at + 1, end).to_owned();
                Err(ParseError::UnknownKeyFormat { name })
            }
        } else if range_equals(&chars, from, at, Keyword::ValueFormat.text()) {
            if !has_argument {
                Err(ParseError::MissingArgument { command: Keyword::ValueFormat })
            } else if range_equals(&chars, at + 1, end, "bytes") {
                Ok(Command::ValueFormat { format: ValueFormat::Bytes })
            } else if range_equals(&chars, at + 1, end, "chromelocalstorage") {
                Ok(Command::ValueFormat { format: ValueFormat::ChromeLocalStorage })
            } else {
                let name = input.substring_char(at + 1, end).to_owned();
                Err(ParseError::UnknownValueFormat { name })
            }
        } else {
            let name = input.substring_char(from, at).to_owned();
            Err(ParseError::UnknownCommand { name })
        }
    }
}

} // verus!
