//! What the user can configure.

use vstd::prelude::*;

verus! {

/// The backends that a companion can speak through.
#[derive(Debug, Clone, Copy, PartialEq, Eq, Structural)]
pub enum LLMProvider {
    /// The remote chat-completion service.
    OpenAI,
    /// The local generation server.
    Ollama,
}

/// The configuration of a run.
#[derive(Debug)]
pub struct Config {
    /// How many shell commands are kept for the prompts.
    pub command_history_limit: usize,
    /// The companion's name.
    pub pet_name: String,
    /// The companion's picture.
    pub pet_ascii: String,
    /// The backend to speak through.
    pub llm_provider: LLMProvider,
    /// Where the local server is reached.
    pub ollama_url: String,
    /// The model asked of the local server.
    pub ollama_model: String,
}

/// The name of a companion that was given none.
pub open spec fn default_name() -> Seq<char> {
    "Whiskers"@
}

/// The picture of a companion that was given none.
pub open spec fn default_ascii() -> Seq<char> {
    "\n  /\\___/\\\n (  o o  )\n (  =^=  )\n  (____)\n"@
}

/// Where the local server is looked for unless configured otherwise.
pub open spec fn default_ollama_url() -> Seq<char> {
    "http://localhost:11434"@
}

/// The model asked of the local server unless configured otherwise.
pub open spec fn default_ollama_model() -> Seq<char> {
    "llama2"@
}

impl Default for Config {
    /// The configuration that stands in for a missing or unreadable one.
    fn default() -> (config: Config)
        ensures
            config.command_history_limit == 50,
            config.pet_name@ == default_name(),
            config.pet_ascii@ == default_ascii(),
            config.llm_provider == LLMProvider::OpenAI,
            config.ollama_url@ == default_ollama_url(),
            config.ollama_model@ == default_ollama_model(),
    {
        Config {
            command_history_limit: 50,
            pet_name: "Whiskers".to_owned(),
            pet_ascii: "\n  /\\___/\\\n (  o o  )\n (  =^=  )\n  (____)\n".to_owned(),
            llm_provider: LLMProvider::OpenAI,
            ollama_url: "http://localhost:11434".to_owned(),
            ollama_model: "llama2".to_owned(),
        }
    }
}

} // verus!
