use petcli::app::{App, FatalInitError, Turn};
use petcli::backend::Backend;
use petcli::config::{Config, LLMProvider};
use petcli::llm::{LLMBackend, Outcome, Request};
use petcli::pet::PetState;

const WELCOME: &str = "Welcome back! Type your message and press Enter to chat.";

fn local_config() -> Config {
    let mut config = Config::default();
    config.llm_provider = LLMProvider::Ollama;
    config.pet_name = "Mia".to_string();
    config
}

fn session() -> App {
    match App::new(local_config(), None, None, 1_431_648_000) {
        Ok(app) => app,
        Err(_) => panic!("a local session needs no key"),
    }
}

fn session_with_mood(mood: u32) -> App {
    let mut app = session();
    app.state.mood = mood;
    app.state.settled_mood = mood;
    app
}

fn type_line(app: &mut App, line: &str) -> Turn {
    app.ui.input = line.to_string();
    app.handle_input()
}

fn success(reply: &str) -> Outcome {
    let mut body = String::from("{\"response\":\"");
    body.push_str(reply);
    body.push_str("\"}");
    Outcome::Answered { status: 200, body }
}

fn exchange(app: &mut App, line: &str, outcome: &Outcome, now: i64) -> String {
    match type_line(app, line) {
        Turn::Ask { .. } => {}
        _ => panic!("the line should have been a message"),
    }
    match app.finish_exchange(outcome, now) {
        Some(reply) => reply,
        None => panic!("a reply was awaited"),
    }
}

#[test]
fn remote_backend_without_key_cannot_start() {
    let result = App::new(Config::default(), None, None, 0);
    assert!(matches!(result, Err(FatalInitError::MissingApiKey)));
}

#[test]
fn remote_backend_with_key_starts() {
    let result = App::new(Config::default(), None, Some("sk-1".to_string()), 0);
    match result {
        Ok(app) => {
            assert!(matches!(app.llm, Backend::OpenAI(_)));
            assert_eq!(app.state.name, "Whiskers");
        }
        Err(_) => panic!("the key was given"),
    }
}

#[test]
fn local_backend_needs_no_key() {
    let app = session();
    assert!(matches!(app.llm, Backend::Ollama(_)));
    assert_eq!(app.state.name, "Mia");
    assert_eq!(app.state.mood, 80);
    assert_eq!(app.state.last_interaction, 1_431_648_000);
    assert!(app.state.chat_history.is_empty());
    assert_eq!(app.ui.messages, vec![WELCOME.to_string()]);
    assert!(app.recent_commands.is_empty());
    assert!(app.shell_history.is_empty());
    assert!(!app.is_waiting());
}

#[test]
fn stored_exchanges_are_shown_again_under_the_configured_name() {
    let stored = PetState {
        name: "Old".to_string(),
        mood: 30,
        settled_mood: 30,
        last_interaction: 5,
        chat_history: vec![
            ("hi".to_string(), "purr".to_string()),
            ("bye".to_string(), "meow".to_string()),
        ],
    };
    let app = match App::new(local_config(), Some(stored), None, 99) {
        Ok(app) => app,
        Err(_) => panic!("a local session needs no key"),
    };
    assert_eq!(app.state.name, "Mia");
    assert_eq!(app.state.mood, 30);
    assert_eq!(app.state.last_interaction, 5);
    assert_eq!(
        app.ui.messages,
        vec![
            WELCOME.to_string(),
            "You: hi".to_string(),
            "Mia: purr".to_string(),
            "You: bye".to_string(),
            "Mia: meow".to_string(),
        ]
    );
    assert_eq!(app.ui.scroll_offset, 2 + 1 + 2 + 1 + 2);
}

#[test]
fn empty_input_does_nothing() {
    let mut app = session();
    assert!(matches!(type_line(&mut app, ""), Turn::Nothing));
    assert_eq!(app.ui.messages.len(), 1);
    assert!(!app.is_waiting());
}

#[test]
fn stats_shows_mood_time_and_count_and_changes_no_state() {
    let mut app = session_with_mood(70);
    app.state.chat_history.push(("a".to_string(), "b".to_string()));
    let turn = type_line(&mut app, "/stats");
    assert!(matches!(turn, Turn::Done { persist: false }));
    assert_eq!(app.ui.messages.len(), 3);
    assert_eq!(app.ui.messages[1], "You: /stats");
    assert_eq!(
        app.ui.messages[2],
        "Mia: Current Stats:\nMood: 70%\nLast Interaction: 2015-05-15 00:00:00 UTC\nChat History: 1 messages"
    );
    assert_eq!(app.state.chat_history.len(), 1);
    assert_eq!(app.state.mood, 70);
    assert_eq!(app.state.last_interaction, 1_431_648_000);
    assert_eq!(app.ui.input, "");
    assert!(!app.is_waiting());
}

#[test]
fn clear_empties_the_scrollback_only() {
    let mut app = session();
    app.state.chat_history.push(("a".to_string(), "b".to_string()));
    let turn = type_line(&mut app, "/clear");
    assert!(matches!(turn, Turn::Done { persist: false }));
    assert!(app.ui.messages.is_empty());
    assert_eq!(app.ui.scroll_offset, 0);
    assert_eq!(app.state.chat_history.len(), 1);
    assert_eq!(app.ui.input, "");
}

#[test]
fn purge_forgets_history_and_scrollback_but_not_mood_or_name() {
    let mut app = session_with_mood(40);
    let reply = exchange(&mut app, "hello", &success("meow"), 1_431_648_100);
    assert_eq!(reply, "meow");
    assert_eq!(app.state.chat_history.len(), 1);
    assert_eq!(app.state.mood, 50);
    let turn = type_line(&mut app, "/purge");
    assert!(matches!(turn, Turn::Done { persist: true }));
    assert!(app.state.chat_history.is_empty());
    assert!(app.ui.messages.is_empty());
    assert_eq!(app.ui.scroll_offset, 0);
    assert_eq!(app.state.mood, 50);
    assert_eq!(app.state.name, "Mia");
    assert_eq!(app.state.last_interaction, 1_431_648_100);
    assert_eq!(app.ui.input, "");
}

#[test]
fn purge_leaves_what_the_backend_remembers() {
    let mut app = session();
    exchange(&mut app, "hello", &success("meow"), 1);
    type_line(&mut app, "/purge");
    match type_line(&mut app, "again") {
        Turn::Ask { request: Request::Generate { prompt, .. } } => {
            assert!(prompt.ends_with("\nUser: hello\nAssistant: meow\n\nCurrent user message: again"));
        }
        _ => panic!("the line should have been a message"),
    }
}

#[test]
fn help_lists_the_commands() {
    let mut app = session();
    let turn = type_line(&mut app, "/help");
    assert!(matches!(turn, Turn::Done { persist: false }));
    assert_eq!(
        app.ui.messages[2],
        "Mia: Available Commands:\n/stats - Display current pet statistics\n/clear - Clear chat window\n/purge - Remove all chat history\n/help  - Show this help message\n/exit  - Exit the application"
    );
    assert_eq!(app.ui.input, "");
}

#[test]
fn exit_says_goodbye() {
    let mut app = session();
    let turn = type_line(&mut app, "  /exit ");
    assert!(matches!(turn, Turn::Leave));
    assert_eq!(app.ui.messages, vec![WELCOME.to_string(), "Mia: Goodbye! Take care! 👋".to_string()]);
    assert!(app.state.chat_history.is_empty());
    assert!(!app.is_waiting());
}

#[test]
fn unknown_slash_input_is_sent_to_the_backend() {
    let mut app = session();
    match type_line(&mut app, "/bogus") {
        Turn::Ask { request: Request::Generate { url, model, prompt } } => {
            assert_eq!(url, "http://localhost:11434/api/generate");
            assert_eq!(model, "llama2");
            assert!(prompt.ends_with("\nCurrent user message: /bogus"));
        }
        _ => panic!("the line should have been a message"),
    }
    assert!(app.is_waiting());
    assert_eq!(app.ui.messages[1], "You: /bogus");
    let reply = app.finish_exchange(&success("what?"), 7);
    assert_eq!(reply, Some("what?".to_string()));
    assert_eq!(app.state.chat_history, vec![("/bogus".to_string(), "what?".to_string())]);
}

#[test]
fn no_input_is_taken_while_a_reply_is_awaited() {
    let mut app = session();
    assert!(matches!(type_line(&mut app, "hello"), Turn::Ask { .. }));
    assert!(app.is_waiting());
    assert!(matches!(type_line(&mut app, "/purge"), Turn::Nothing));
    assert!(matches!(type_line(&mut app, "more"), Turn::Nothing));
    assert_eq!(app.ui.messages.len(), 2);
    assert_eq!(app.finish_exchange(&success("meow"), 1), Some("meow".to_string()));
    assert!(!app.is_waiting());
    assert_eq!(app.state.chat_history, vec![("hello".to_string(), "meow".to_string())]);
    assert_eq!(app.ui.input, "");
}

#[test]
fn finishing_without_a_pending_message_does_nothing() {
    let mut app = session();
    assert_eq!(app.finish_exchange(&success("meow"), 1), None);
    assert_eq!(app.ui.messages.len(), 1);
    assert!(app.state.chat_history.is_empty());
    assert_eq!(app.state.mood, 80);
}

#[test]
fn a_successful_exchange_boosts_the_mood_by_a_tenth() {
    let mut app = session_with_mood(50);
    let reply = exchange(&mut app, "hello", &success("Meow! Try htop."), 1_431_650_000);
    assert_eq!(reply, "Meow! Try htop.");
    assert_eq!(app.state.mood, 60);
    assert_eq!(app.state.settled_mood, 60);
    assert_eq!(app.state.last_interaction, 1_431_650_000);
    assert_eq!(app.state.chat_history, vec![("hello".to_string(), "Meow! Try htop.".to_string())]);
    assert_eq!(
        app.ui.messages,
        vec![WELCOME.to_string(), "You: hello".to_string(), "Mia: Meow! Try htop.".to_string()]
    );
    assert_eq!(app.ui.input, "");
}

#[test]
fn a_treat_with_the_backend_down_boosts_the_mood_by_two_tenths() {
    let mut app = session_with_mood(50);
    let reply = exchange(&mut app, "I brought you a treat", &Outcome::Unanswered, 10);
    assert!(reply.contains("Thank you for the treat"));
    assert_eq!(reply, "*purrs happily* Thank you for the treat! 😊");
    assert_eq!(app.state.mood, 70);
    assert_eq!(app.state.chat_history.len(), 1);
    assert_eq!(app.ui.messages[2], "Mia: *purrs happily* Thank you for the treat! 😊");
}

#[test]
fn every_kind_of_failure_falls_back_to_a_canned_reply() {
    let failures = [
        Outcome::Unanswered,
        Outcome::Unreadable { status: 200 },
        Outcome::Answered { status: 401, body: "{\"response\":\"no\"}".to_string() },
        Outcome::Answered { status: 200, body: "not json".to_string() },
    ];
    for failure in failures.iter() {
        let mut app = session_with_mood(50);
        let reply = exchange(&mut app, "let us play", failure, 10);
        assert_eq!(reply, "*bounces around excitedly* I love to play! 🐱");
        assert_eq!(app.state.mood, 65);
    }
}

#[test]
fn a_failed_exchange_is_answered_by_mood_and_is_not_remembered_by_the_backend() {
    let mut app = session_with_mood(90);
    assert_eq!(exchange(&mut app, "hello", &Outcome::Unanswered, 10), "*purrs contentedly* 😊");
    assert_eq!(app.state.mood, 90);
    app.state.mood = 30;
    assert_eq!(exchange(&mut app, "hello", &Outcome::Unanswered, 10), "*seems a bit distant* ...");
    assert_eq!(app.state.chat_history.len(), 2);
    match type_line(&mut app, "again") {
        Turn::Ask { request: Request::Generate { prompt, .. } } => {
            assert!(prompt.ends_with("way.\nCurrent user message: again"));
        }
        _ => panic!("the line should have been a message"),
    }
}

#[test]
fn a_missing_field_is_a_reply_and_not_a_failure() {
    let mut app = session_with_mood(50);
    let outcome = Outcome::Answered { status: 200, body: "{}".to_string() };
    let reply = exchange(&mut app, "a treat", &outcome, 10);
    assert_eq!(reply, "*meows confusedly* Something went wrong with my response...");
    assert_eq!(app.state.mood, 60);
}

#[test]
fn dollar_lines_are_kept_as_commands_five_at_most() {
    let mut app = session();
    for i in 1..=7 {
        let line = format!("$ cmd{} ", i);
        assert!(matches!(type_line(&mut app, &line), Turn::Ask { .. }));
        app.finish_exchange(&Outcome::Unanswered, 1);
        assert!(app.recent_commands.len() <= 5);
    }
    assert_eq!(
        app.recent_commands,
        vec!["cmd3".to_string(), "cmd4".to_string(), "cmd5".to_string(), "cmd6".to_string(), "cmd7".to_string()]
    );
}

#[test]
fn the_prompt_names_shell_history_and_then_typed_commands() {
    let mut app = session();
    app.load_shell_history(&[": 1:0;ls -la".to_string(), "vim".to_string()]);
    match type_line(&mut app, "$ pwd") {
        Turn::Ask { request: Request::Generate { prompt, .. } } => {
            assert!(prompt.ends_with("way.\nRecent commands:\nls -la\nvim\npwd\n\nCurrent user message: $ pwd"));
        }
        _ => panic!("the line should have been a message"),
    }
}

#[test]
fn shell_history_keeps_the_newest_commands_up_to_the_limit() {
    let mut app = session();
    app.config.command_history_limit = 3;
    let lines: Vec<String> = vec![
        ": 1:0;one".to_string(),
        "".to_string(),
        "sudo two".to_string(),
        "   ".to_string(),
        "three".to_string(),
        ": 2:0; four ".to_string(),
    ];
    app.load_shell_history(&lines);
    assert_eq!(app.shell_history, vec!["two".to_string(), "three".to_string(), "four".to_string()]);
    assert!(app.recent_commands.is_empty());
}

#[test]
fn shell_history_with_limit_zero_keeps_nothing() {
    let mut app = session();
    app.config.command_history_limit = 0;
    app.load_shell_history(&["ls".to_string(), "pwd".to_string()]);
    assert!(app.shell_history.is_empty());
}

#[test]
fn update_lets_the_mood_sink_and_does_not_compound() {
    let mut app = session();
    let start: i64 = 1_431_648_000;
    app.update(start + 2 * 3600);
    assert_eq!(app.state.mood, 60);
    for _ in 0..20 {
        app.update(start + 2 * 3600 + 1);
    }
    assert_eq!(app.state.mood, 60);
    app.update(start + 100 * 3600);
    assert_eq!(app.state.mood, 10);
    assert_eq!(app.state.last_interaction, start);
    assert_eq!(app.ui.messages.len(), 1);
}

#[test]
fn scrollback_settles_at_its_capacity_after_many_exchanges() {
    let mut app = session();
    for i in 1..=120 {
        let line = format!("message {}", i);
        let reply = format!("reply {}", i);
        assert_eq!(exchange(&mut app, &line, &success(&reply), i as i64), reply);
        assert!(app.ui.messages.len() <= 100);
    }
    assert_eq!(app.ui.messages.len(), 100);
    assert_eq!(app.state.chat_history.len(), 120);
    assert!(!app.ui.messages.iter().any(|m| m == "You: message 1"));
    assert!(!app.ui.messages.iter().any(|m| m == "Mia: reply 1"));
    assert!(!app.ui.messages.iter().any(|m| m == WELCOME));
    assert_eq!(app.ui.messages[0], "You: message 71");
    assert_eq!(app.ui.messages[99], "Mia: reply 120");
    assert_eq!(app.state.mood, 100);
}

#[test]
fn the_session_backend_remembers_successful_exchanges() {
    let mut app = session();
    exchange(&mut app, "one", &success("first"), 1);
    let commands: Vec<String> = Vec::new();
    assert_eq!(
        app.llm.format_prompt("two", Some(&commands)),
        "User: one\nAssistant: first\n\nCurrent user message: two"
    );
}
