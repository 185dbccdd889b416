use async_cli::event::CliEvent;
use async_cli::tokenize::{
    classify_split, classify_words, input_error_text, is_exit_command, parse_line, LineOutcome,
};

fn words(ws: &[&str]) -> Vec<String> {
    ws.iter().map(|w| w.to_string()).collect()
}

#[test]
fn parse_line_splits_like_a_shell() {
    assert_eq!(
        parse_line("foo bar baz"),
        LineOutcome::Command("foo".to_string(), words(&["bar", "baz"]))
    );
    assert_eq!(
        parse_line("cp 'a b' c\\ d"),
        LineOutcome::Command("cp".to_string(), words(&["a b", "c d"]))
    );
}

#[test]
fn parse_line_blank_and_exit() {
    assert_eq!(parse_line("   "), LineOutcome::Blank);
    assert_eq!(parse_line(""), LineOutcome::Blank);
    assert_eq!(parse_line("quit now"), LineOutcome::Exit);
}

#[test]
fn parse_line_reports_open_quote() {
    assert_eq!(
        parse_line("say \"hi"),
        LineOutcome::Malformed("[Input Error] missing closing quote".to_string())
    );
}

#[test]
fn classify_words_cases() {
    assert_eq!(classify_words(vec![]), LineOutcome::Blank);
    assert_eq!(classify_words(words(&["q"])), LineOutcome::Exit);
    assert_eq!(classify_words(words(&["exit", "x"])), LineOutcome::Exit);
    assert_eq!(
        classify_words(words(&["Quit", "x"])),
        LineOutcome::Command("Quit".to_string(), words(&["x"]))
    );
}

#[test]
fn classify_split_reports_error_text() {
    assert_eq!(
        classify_split(Err("bad".to_string())),
        LineOutcome::Malformed("[Input Error] bad".to_string())
    );
    assert_eq!(
        classify_split(Ok(words(&["ls", "-l"]))),
        LineOutcome::Command("ls".to_string(), words(&["-l"]))
    );
}

#[test]
fn input_error_text_prefixes() {
    assert_eq!(input_error_text("oops"), "[Input Error] oops");
    assert_eq!(input_error_text(""), "[Input Error] ");
}

#[test]
fn exit_command_set() {
    assert!(is_exit_command(&"exit".to_string()));
    assert!(is_exit_command(&"quit".to_string()));
    assert!(is_exit_command(&"q".to_string()));
    assert!(!is_exit_command(&"Q".to_string()));
    assert!(!is_exit_command(&"exit ".to_string()));
    assert!(!is_exit_command(&"".to_string()));
}

#[test]
fn exit_event_is_recognised() {
    assert!(CliEvent::Exit.is_exit());
    assert!(!CliEvent::Input("exit".to_string(), vec![]).is_exit());
}
