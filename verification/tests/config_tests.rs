use petcli::config::{Config, LLMProvider};

#[test]
fn default_config_has_the_documented_values() {
    let config = Config::default();
    assert_eq!(config.command_history_limit, 50);
    assert_eq!(config.pet_name, "Whiskers");
    assert_eq!(config.pet_ascii, "\n  /\\___/\\\n (  o o  )\n (  =^=  )\n  (____)\n");
    assert_eq!(config.llm_provider, LLMProvider::OpenAI);
    assert_eq!(config.ollama_url, "http://localhost:11434");
    assert_eq!(config.ollama_model, "llama2");
}
