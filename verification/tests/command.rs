use leveldb::command::Command;
use leveldb::command::Keyword;
use leveldb::command::ParseError;
use leveldb::format::KeyFormat;
use leveldb::format::ValueFormat;

#[test]
fn exit_is_parsed() {
    assert_eq!(Command::from_str(".exit"), Ok(Command::Exit));
}

#[test]
fn list_is_parsed() {
    assert_eq!(Command::from_str(".list"), Ok(Command::List));
}

#[test]
fn open_takes_the_rest_of_the_line_as_path() {
    assert_eq!(
        Command::from_str(".open ./testdb"),
        Ok(Command::Open { path: "./testdb".to_string() })
    );
    assert_eq!(
        Command::from_str(".open my data/db one"),
        Ok(Command::Open { path: "my data/db one".to_string() })
    );
}

#[test]
fn argument_starts_after_the_first_space_only() {
    assert_eq!(
        Command::from_str(".open  x"),
        Ok(Command::Open { path: " x".to_string() })
    );
}

#[test]
fn surrounding_whitespace_is_dropped() {
    assert_eq!(Command::from_str("  .exit\n"), Ok(Command::Exit));
    assert_eq!(Command::from_str("\t.list \r\n"), Ok(Command::List));
    assert_eq!(
        Command::from_str("\u{3000}.open db\u{2003}\u{85}"),
        Ok(Command::Open { path: "db".to_string() })
    );
}

#[test]
fn a_trailing_space_is_no_argument() {
    assert_eq!(
        Command::from_str(".open "),
        Err(ParseError::MissingArgument { command: Keyword::Open })
    );
}

#[test]
fn key_formats_are_parsed() {
    assert_eq!(
        Command::from_str(".keyformat bytes"),
        Ok(Command::KeyFormat { format: KeyFormat::Bytes })
    );
    assert_eq!(
        Command::from_str(".keyformat utf8"),
        Ok(Command::KeyFormat { format: KeyFormat::Utf8 })
    );
}

#[test]
fn value_formats_are_parsed() {
    assert_eq!(
        Command::from_str(".valueformat bytes"),
        Ok(Command::ValueFormat { format: ValueFormat::Bytes })
    );
    assert_eq!(
        Command::from_str(".valueformat chromelocalstorage"),
        Ok(Command::ValueFormat { format: ValueFormat::ChromeLocalStorage })
    );
}

#[test]
fn missing_marker_is_reported() {
    let error = Command::from_str("exit").unwrap_err();
    assert_eq!(error, ParseError::MissingMarker);
    assert_eq!(error.message(), "commands must start with a \".\"");
}

#[test]
fn empty_and_blank_lines_miss_the_marker() {
    assert_eq!(Command::from_str(""), Err(ParseError::MissingMarker));
    assert_eq!(Command::from_str("   \n"), Err(ParseError::MissingMarker));
}

#[test]
fn unexpected_argument_is_reported() {
    let error = Command::from_str(".exit now").unwrap_err();
    assert_eq!(error, ParseError::UnexpectedArgument { command: Keyword::Exit });
    assert_eq!(error.message(), "\".exit\" takes no arguments");
    let error = Command::from_str(".list all").unwrap_err();
    assert_eq!(error, ParseError::UnexpectedArgument { command: Keyword::List });
    assert_eq!(error.message(), "\".list\" takes no arguments");
}

#[test]
fn missing_argument_is_reported() {
    let error = Command::from_str(".open").unwrap_err();
    assert_eq!(error, ParseError::MissingArgument { command: Keyword::Open });
    assert_eq!(error.message(), "\".open\" needs 1 argument");
    let error = Command::from_str(".keyformat").unwrap_err();
    assert_eq!(error, ParseError::MissingArgument { command: Keyword::KeyFormat });
    assert_eq!(error.message(), "\".keyformat\" needs 1 argument");
    let error = Command::from_str(".valueformat").unwrap_err();
    assert_eq!(error, ParseError::MissingArgument { command: Keyword::ValueFormat });
    assert_eq!(error.message(), "\".valueformat\" needs 1 argument");
}

#[test]
fn unknown_key_format_is_reported() {
    let error = Command::from_str(".keyformat hex").unwrap_err();
    assert_eq!(error, ParseError::UnknownKeyFormat { name: "hex".to_string() });
    assert_eq!(error.message(), "unknown key format \"hex\"");
    assert_eq!(
        Command::from_str(".keyformat chromelocalstorage"),
        Err(ParseError::UnknownKeyFormat { name: "chromelocalstorage".to_string() })
    );
}

#[test]
fn unknown_value_format_is_reported() {
    let error = Command::from_str(".valueformat utf8").unwrap_err();
    assert_eq!(error, ParseError::UnknownValueFormat { name: "utf8".to_string() });
    assert_eq!(error.message(), "unknown value format \"utf8\"");
}

#[test]
fn unknown_command_is_reported() {
    let error = Command::from_str(".close").unwrap_err();
    assert_eq!(error, ParseError::UnknownCommand { name: "close".to_string() });
    assert_eq!(error.message(), "unknown command \".close\"");
    let error = Command::from_str(".").unwrap_err();
    assert_eq!(error, ParseError::UnknownCommand { name: String::new() });
    assert_eq!(error.message(), "unknown command \".\"");
}

#[test]
fn command_words_are_case_sensitive_and_whole() {
    assert_eq!(
        Command::from_str(".Exit"),
        Err(ParseError::UnknownCommand { name: "Exit".to_string() })
    );
    assert_eq!(
        Command::from_str(".exits"),
        Err(ParseError::UnknownCommand { name: "exits".to_string() })
    );
    assert_eq!(
        Command::from_str(".exi"),
        Err(ParseError::UnknownCommand { name: "exi".to_string() })
    );
}

#[test]
fn paths_may_hold_any_characters() {
    assert_eq!(
        Command::from_str(".open données/é🙂"),
        Ok(Command::Open { path: "données/é🙂".to_string() })
    );
}

#[test]
fn keywords_spell_their_commands() {
    assert_eq!(Keyword::Exit.text(), "exit");
    assert_eq!(Keyword::Open.text(), "open");
    assert_eq!(Keyword::List.text(), "list");
    assert_eq!(Keyword::KeyFormat.text(), "keyformat");
    assert_eq!(Keyword::ValueFormat.text(), "valueformat");
}
