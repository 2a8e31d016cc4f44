use petcli::llm::{
    received_body, reply_text, status_is_success, BackendError, LLMBackend, OpenAIBackend, Outcome,
    Request,
};
use petcli::ollama::OllamaBackend;

fn answered(status: u16, body: &str) -> Outcome {
    Outcome::Answered { status, body: body.to_string() }
}

fn ollama() -> OllamaBackend {
    OllamaBackend::new("http://localhost:11434".to_string(), "llama2".to_string())
}

#[test]
fn success_is_any_status_in_the_two_hundreds() {
    assert!(!status_is_success(199));
    assert!(status_is_success(200));
    assert!(status_is_success(204));
    assert!(status_is_success(299));
    assert!(!status_is_success(300));
    assert!(!status_is_success(401));
    assert!(!status_is_success(0));
}

#[test]
fn received_body_tells_the_failures_apart() {
    assert_eq!(received_body(&Outcome::Unanswered), Err(BackendError::Network));
    assert_eq!(received_body(&Outcome::Unreadable { status: 200 }), Err(BackendError::Network));
    assert_eq!(received_body(&Outcome::Unreadable { status: 500 }), Err(BackendError::Auth));
    assert_eq!(received_body(&answered(401, "{}")), Err(BackendError::Auth));
    assert_eq!(received_body(&answered(200, "{}")), Ok("{}"));
}

#[test]
fn reply_text_falls_back_to_confusion() {
    assert_eq!(reply_text(Some("hi".to_string())), "hi");
    assert_eq!(reply_text(Some(String::new())), "");
    assert_eq!(
        reply_text(None),
        "*meows confusedly* Something went wrong with my response..."
    );
}

#[test]
fn openai_prompt_is_the_message_where_no_commands_are_known() {
    let backend = OpenAIBackend::new("key".to_string());
    assert_eq!(backend.format_prompt("hello", None), "hello");
    let none: Vec<String> = Vec::new();
    assert_eq!(backend.format_prompt("hello", Some(&none)), "hello");
}

#[test]
fn openai_prompt_lists_the_commands_before_the_message() {
    let backend = OpenAIBackend::new("key".to_string());
    let commands = vec!["ls -la".to_string(), "git status".to_string()];
    assert_eq!(
        backend.format_prompt("hello", Some(&commands)),
        "Recent commands I've seen you use:\nls -la\ngit status\n\nUser message: hello"
    );
}

#[test]
fn openai_request_carries_key_model_and_messages() {
    let backend = OpenAIBackend::new("sk-123".to_string());
    match backend.request("what now?") {
        Request::Chat { url, authorization, model, system, user } => {
            assert_eq!(url, "https://api.openai.com/v1/chat/completions");
            assert_eq!(authorization, "Bearer sk-123");
            assert_eq!(model, "gpt-3.5-turbo");
            assert!(system.starts_with("You are a cute virtual pet cat who is also a terminal expert."));
            assert!(system.ends_with("share that knowledge in a cute and helpful way."));
            assert_eq!(user, "what now?");
        }
        Request::Generate { .. } => panic!("a chat request was expected"),
    }
}

#[test]
fn openai_reads_the_content_of_the_first_choice() {
    let backend = OpenAIBackend::new("key".to_string());
    let body = "{\"choices\":[{\"message\":{\"role\":\"assistant\",\"content\":\"Meow! Try ls | wc -l\"}},{\"message\":{\"content\":\"second\"}}]}";
    assert_eq!(backend.read_response(&answered(200, body)), Ok("Meow! Try ls | wc -l".to_string()));
}

#[test]
fn openai_is_confused_where_the_field_is_missing() {
    let backend = OpenAIBackend::new("key".to_string());
    let confused = Ok("*meows confusedly* Something went wrong with my response...".to_string());
    assert_eq!(backend.read_response(&answered(200, "{}")), confused);
    assert_eq!(backend.read_response(&answered(200, "{\"choices\":[]}")), confused);
    assert_eq!(backend.read_response(&answered(200, "{\"choices\":{\"0\":{\"message\":{\"content\":\"x\"}}}}")), confused);
    assert_eq!(backend.read_response(&answered(200, "{\"choices\":[{\"message\":{\"content\":7}}]}")), confused);
    assert_eq!(backend.read_response(&answered(200, "[1,2]")), confused);
    assert_eq!(backend.read_response(&answered(200, "null")), confused);
}

#[test]
fn openai_tells_the_failures_apart() {
    let backend = OpenAIBackend::new("key".to_string());
    assert_eq!(backend.read_response(&Outcome::Unanswered), Err(BackendError::Network));
    assert_eq!(backend.read_response(&Outcome::Unreadable { status: 200 }), Err(BackendError::Network));
    assert_eq!(backend.read_response(&answered(401, "{\"choices\":[]}")), Err(BackendError::Auth));
    assert_eq!(backend.read_response(&answered(500, "oops")), Err(BackendError::Auth));
    assert_eq!(backend.read_response(&answered(200, "not json")), Err(BackendError::Protocol));
    assert_eq!(backend.read_response(&answered(200, "")), Err(BackendError::Protocol));
    assert_eq!(backend.read_response(&answered(200, "{\"choices\":")), Err(BackendError::Protocol));
}

#[test]
fn openai_remembers_nothing() {
    let mut backend = OpenAIBackend::new("key".to_string());
    backend.add_to_history("a".to_string(), "b".to_string());
    assert_eq!(backend.format_prompt("hello", None), "hello");
}

#[test]
fn ollama_prompt_without_memory_is_the_message_line() {
    let backend = ollama();
    assert_eq!(backend.format_prompt("hello", None), "Current user message: hello");
    let none: Vec<String> = Vec::new();
    assert_eq!(backend.format_prompt("hello", Some(&none)), "Current user message: hello");
}

#[test]
fn ollama_prompt_lists_commands() {
    let backend = ollama();
    let commands = vec!["ls".to_string(), "pwd".to_string()];
    assert_eq!(
        backend.format_prompt("hello", Some(&commands)),
        "Recent commands:\nls\npwd\n\nCurrent user message: hello"
    );
}

#[test]
fn ollama_prompt_shows_the_three_newest_exchanges_newest_first() {
    let mut backend = ollama();
    for i in 1..=4 {
        backend.add_to_history(format!("q{}", i), format!("a{}", i));
    }
    let commands = vec!["ls".to_string()];
    assert_eq!(
        backend.format_prompt("hello", Some(&commands)),
        "User: q4\nAssistant: a4\n\nUser: q3\nAssistant: a3\n\nUser: q2\nAssistant: a2\n\nRecent commands:\nls\n\nCurrent user message: hello"
    );
}

#[test]
fn ollama_prompt_shows_fewer_exchanges_where_fewer_are_known() {
    let mut backend = ollama();
    backend.add_to_history("q1".to_string(), "a1".to_string());
    backend.add_to_history("q2".to_string(), "a2".to_string());
    assert_eq!(
        backend.format_prompt("hello", None),
        "User: q2\nAssistant: a2\n\nUser: q1\nAssistant: a1\n\nCurrent user message: hello"
    );
}

#[test]
fn ollama_remembers_five_exchanges_at_most() {
    let mut backend = ollama();
    assert_eq!(backend.history_len(), 0);
    for i in 1..=5 {
        backend.add_to_history(format!("q{}", i), format!("a{}", i));
        assert_eq!(backend.history_len(), i);
    }
    for i in 6..=9 {
        backend.add_to_history(format!("q{}", i), format!("a{}", i));
        assert_eq!(backend.history_len(), 5);
    }
    assert!(backend.format_prompt("x", None).starts_with("User: q9\nAssistant: a9\n\nUser: q8\n"));
}

#[test]
fn ollama_request_joins_system_text_and_prompt() {
    let backend = OllamaBackend::new("http://host:1".to_string(), "mistral".to_string());
    match backend.request("Current user message: hi") {
        Request::Generate { url, model, prompt } => {
            assert_eq!(url, "http://host:1/api/generate");
            assert_eq!(model, "mistral");
            assert!(prompt.starts_with("You are a knowledgeable terminal companion with a friendly personality."));
            assert!(prompt.ends_with("in a clear, professional way.\nCurrent user message: hi"));
        }
        Request::Chat { .. } => panic!("a generate request was expected"),
    }
}

#[test]
fn ollama_reads_the_response_field() {
    let backend = ollama();
    assert_eq!(
        backend.read_response(&answered(200, "{\"model\":\"llama2\",\"response\":\"Purr. Use fd.\",\"done\":true}")),
        Ok("Purr. Use fd.".to_string())
    );
    assert_eq!(
        backend.read_response(&answered(200, "{\"done\":true}")),
        Ok("*meows confusedly* Something went wrong with my response...".to_string())
    );
    assert_eq!(
        backend.read_response(&answered(200, "{\"response\":null}")),
        Ok("*meows confusedly* Something went wrong with my response...".to_string())
    );
}

#[test]
fn ollama_tells_the_failures_apart() {
    let backend = ollama();
    assert_eq!(backend.read_response(&Outcome::Unanswered), Err(BackendError::Network));
    assert_eq!(backend.read_response(&answered(404, "{\"response\":\"x\"}")), Err(BackendError::Auth));
    assert_eq!(backend.read_response(&answered(200, "<html>")), Err(BackendError::Protocol));
}
