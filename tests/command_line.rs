use bpproc::command_line::{parse_call, parse_process_args, tokenize, ArgError, ProcessArgs};
use bpproc::status::CallError;

fn words(ws: &[&str]) -> Vec<String> {
    ws.iter().map(|w| w.to_string()).collect()
}

#[test]
fn tokenize_plain_word() {
    assert_eq!(tokenize("myapp.exe"), Ok(words(&["myapp.exe"])));
}

#[test]
fn tokenize_quoted_word_keeps_space() {
    assert_eq!(tokenize("\"my app.exe\""), Ok(words(&["my app.exe"])));
    assert_eq!(tokenize("'my app.exe'"), Ok(words(&["my app.exe"])));
}

#[test]
fn tokenize_splits_on_whitespace_in_order() {
    assert_eq!(tokenize("  a  b\tc "), Ok(words(&["a", "b", "c"])));
}

#[test]
fn tokenize_backslash_escape() {
    assert_eq!(tokenize("my\\ app.exe"), Ok(words(&["my app.exe"])));
}

#[test]
fn tokenize_empty_line_has_no_words() {
    assert_eq!(tokenize(""), Ok(Vec::new()));
}

#[test]
fn tokenize_open_quote_fails() {
    assert_eq!(tokenize("\"my app.exe"), Err(CallError::Tokenize));
    assert_eq!(tokenize("'x"), Err(CallError::Tokenize));
}

#[test]
fn parse_single_value() {
    assert_eq!(
        parse_process_args(&words(&["foo.exe"])),
        Ok(ProcessArgs { process: "foo.exe".to_string() })
    );
}

#[test]
fn parse_keeps_value_exactly() {
    assert_eq!(
        parse_process_args(&words(&[" spaced  value "])),
        Ok(ProcessArgs { process: " spaced  value ".to_string() })
    );
    assert_eq!(parse_process_args(&words(&["-"])), Ok(ProcessArgs { process: "-".to_string() }));
}

#[test]
fn parse_value_after_separator() {
    assert_eq!(
        parse_process_args(&words(&["--", "-x"])),
        Ok(ProcessArgs { process: "-x".to_string() })
    );
    assert_eq!(
        parse_process_args(&words(&["--", "--"])),
        Ok(ProcessArgs { process: "--".to_string() })
    );
}

#[test]
fn parse_no_words_is_missing() {
    assert_eq!(parse_process_args(&Vec::new()), Err(ArgError::MissingProcess));
    assert_eq!(parse_process_args(&words(&["--"])), Err(ArgError::MissingProcess));
}

#[test]
fn parse_second_value_is_unexpected() {
    assert_eq!(
        parse_process_args(&words(&["a", "b", "c"])),
        Err(ArgError::UnexpectedArgument("b".to_string()))
    );
}

#[test]
fn parse_unknown_option_is_unexpected() {
    assert_eq!(
        parse_process_args(&words(&["-x", "a"])),
        Err(ArgError::UnexpectedArgument("-x".to_string()))
    );
    assert_eq!(
        parse_process_args(&words(&["a", "--verbose"])),
        Err(ArgError::UnexpectedArgument("--verbose".to_string()))
    );
}

#[test]
fn parse_help_option() {
    assert_eq!(parse_process_args(&words(&["-h"])), Err(ArgError::HelpRequested));
    assert_eq!(parse_process_args(&words(&["a", "--help"])), Err(ArgError::HelpRequested));
}

#[test]
fn parse_call_line() {
    assert_eq!(parse_call("foo.exe"), Ok(ProcessArgs { process: "foo.exe".to_string() }));
    assert_eq!(
        parse_call("\"my app.exe\""),
        Ok(ProcessArgs { process: "my app.exe".to_string() })
    );
    assert_eq!(parse_call(""), Err(CallError::Parse(ArgError::MissingProcess)));
    assert_eq!(parse_call("\"my app.exe"), Err(CallError::Tokenize));
    assert_eq!(
        parse_call("my app.exe"),
        Err(CallError::Parse(ArgError::UnexpectedArgument("app.exe".to_string())))
    );
}
