use petcli::command::{capture, classify, clean_history_line, parse_command, Command, Route};

#[test]
fn every_command_is_recognised() {
    assert_eq!(classify("/stats"), Route::Run(Command::Stats));
    assert_eq!(classify("/clear"), Route::Run(Command::Clear));
    assert_eq!(classify("/purge"), Route::Run(Command::Purge));
    assert_eq!(classify("/help"), Route::Run(Command::Help));
    assert_eq!(classify("/exit"), Route::Run(Command::Exit));
}

#[test]
fn commands_are_matched_after_trimming() {
    assert_eq!(classify("/stats  "), Route::Run(Command::Stats));
    assert_eq!(classify("/help\n"), Route::Run(Command::Help));
}

#[test]
fn a_command_must_begin_the_line_unless_it_is_exit() {
    assert_eq!(classify(" /stats"), Route::Chat);
    assert_eq!(classify("  /exit  "), Route::Run(Command::Exit));
}

#[test]
fn commands_are_case_sensitive_and_whole() {
    assert_eq!(classify("/Stats"), Route::Chat);
    assert_eq!(classify("/EXIT"), Route::Chat);
    assert_eq!(classify("/stats now"), Route::Chat);
    assert_eq!(classify("/"), Route::Chat);
}

#[test]
fn unknown_slash_input_is_conversation() {
    assert_eq!(classify("/bogus"), Route::Chat);
}

#[test]
fn plain_text_is_conversation() {
    assert_eq!(classify("hello there"), Route::Chat);
    assert_eq!(classify("stats"), Route::Chat);
    assert_eq!(classify(""), Route::Chat);
}

#[test]
fn parse_command_takes_no_white_space() {
    assert_eq!(parse_command("/purge"), Some(Command::Purge));
    assert_eq!(parse_command("/purge "), None);
    assert_eq!(parse_command(""), None);
}

#[test]
fn capture_takes_what_follows_the_dollar_sign() {
    assert_eq!(capture("$ ls -la "), Some("ls -la".to_string()));
    assert_eq!(capture("$git status"), Some("git status".to_string()));
    assert_eq!(capture("$"), Some(String::new()));
    assert_eq!(capture(" $ ls"), None);
    assert_eq!(capture("ls"), None);
    assert_eq!(capture(""), None);
}

#[test]
fn history_line_with_time_stamp_gives_what_follows_the_last_semicolon() {
    assert_eq!(clean_history_line(": 1234567890:0;ls -la"), "ls -la");
    assert_eq!(clean_history_line(": 1:0; echo a; echo b "), "echo b");
    assert_eq!(clean_history_line(":no separator here "), ":no separator here");
    assert_eq!(clean_history_line(": 1:0;"), "");
}

#[test]
fn other_history_line_gives_its_last_word() {
    assert_eq!(clean_history_line("git status"), "status");
    assert_eq!(clean_history_line("  cargo   build  "), "build");
    assert_eq!(clean_history_line("#1234567890"), "#1234567890");
    assert_eq!(clean_history_line("ls"), "ls");
}

#[test]
fn blank_history_line_gives_nothing() {
    assert_eq!(clean_history_line(""), "");
    assert_eq!(clean_history_line("  \t "), "");
}
