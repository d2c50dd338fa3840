use pipemind_rust::command::{handle_command, HELP_TEXT, UNKNOWN_PREFIX};

#[test]
fn help_lists_commands() {
    assert_eq!(handle_command("/help"), "Available commands: /help, /clear");
    assert_eq!(handle_command("/help"), HELP_TEXT);
}

#[test]
fn help_without_slash_is_tolerated() {
    assert_eq!(handle_command("help"), HELP_TEXT);
}

#[test]
fn clear_gives_empty_text() {
    assert_eq!(handle_command("/clear"), "");
    assert_eq!(handle_command("clear"), "");
}

#[test]
fn unknown_command_is_named() {
    assert_eq!(handle_command("/foo"), "Unknown command: foo");
    assert_eq!(handle_command("foo bar"), "Unknown command: foo bar");
    assert_eq!(UNKNOWN_PREFIX, "Unknown command: ");
}

#[test]
fn commands_are_case_sensitive_and_exact() {
    assert_eq!(handle_command("/Help"), "Unknown command: Help");
    assert_eq!(handle_command("/HELP"), "Unknown command: HELP");
    assert_eq!(handle_command("/help "), "Unknown command: help ");
    assert_eq!(handle_command("/ help"), "Unknown command:  help");
    assert_eq!(handle_command("/helpp"), "Unknown command: helpp");
    assert_eq!(handle_command("/clea"), "Unknown command: clea");
}

#[test]
fn only_one_slash_is_stripped() {
    assert_eq!(handle_command("//help"), "Unknown command: /help");
    assert_eq!(handle_command("/"), "Unknown command: ");
    assert_eq!(handle_command(""), "Unknown command: ");
}

#[test]
fn multi_byte_command_names() {
    assert_eq!(handle_command("/h\u{e9}lp"), "Unknown command: h\u{e9}lp");
    assert_eq!(handle_command("\u{e9}"), "Unknown command: \u{e9}");
}
