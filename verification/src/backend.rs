//! The closed set of backends that a session can hold.

use vstd::prelude::*;
use crate::llm::{BackendError, LLMBackend, OpenAIBackend, Outcome, Request};
use crate::ollama::OllamaBackend;

verus! {

/// The backend of a session: one of the known kinds, chosen once.
pub enum Backend {
    /// The remote chat-completion service.
    OpenAI(OpenAIBackend),
    /// The local generation server.
    Ollama(OllamaBackend),
}

impl Backend {
    /// `self` speaks to the same service as `other`, with the same
    /// settings; only what it remembers may differ.
    pub open spec fn same_service(&self, other: &Backend) -> bool {
        match (*self, *other) {
            (Backend::OpenAI(a), Backend::OpenAI(b)) => a == b,
            (Backend::Ollama(a), Backend::Ollama(b)) => {
                &&& a.address() == b.address()
                &&& a.model_name() == b.model_name()
                &&& a.system() == b.system()
            },
            _ => false,
        }
    }
}

impl LLMBackend for Backend {
    open spec fn context(&self) -> Seq<(String, String)> {
        match self {
            Backend::OpenAI(b) => b.context(),
            Backend::Ollama(b) => b.context(),
        }
    }

    open spec fn prompt_for(&self, input: Seq<char>, commands: Option<Seq<Seq<char>>>) -> Seq<char> {
        match self {
            Backend::OpenAI(b) => b.prompt_for(input, commands),
            Backend::Ollama(b) => b.prompt_for(input, commands),
        }
    }

    open spec fn reply_field(&self, doc: serde_json::Value) -> Option<Seq<char>> {
        match self {
            Backend::OpenAI(b) => b.reply_field(doc),
            Backend::Ollama(b) => b.reply_field(doc),
        }
    }

    open spec fn context_after(&self, user: String, response: String) -> Seq<(String, String)> {
        match self {
            Backend::OpenAI(b) => b.context_after(user, response),
            Backend::Ollama(b) => b.context_after(user, response),
        }
    }

    open spec fn asks(&self, prompt: Seq<char>, r: Request) -> bool {
        match self {
            Backend::OpenAI(b) => b.asks(prompt, r),
            Backend::Ollama(b) => b.asks(prompt, r),
        }
    }

    fn format_prompt(&self, user_input: &str, recent_commands: Option<&[String]>) -> (r: String) {
        match self {
            Backend::OpenAI(b) => LLMBackend::format_prompt(b, user_input, recent_commands),
            Backend::Ollama(b) => b.format_prompt(user_input, recent_commands),
        }
    }

    fn request(&self, prompt: &str) -> (r: Request) {
        match self {
            Backend::OpenAI(b) => b.request(prompt),
            Backend::Ollama(b) => b.request(prompt),
        }
    }

    fn read_response(&self, outcome: &Outcome) -> (r: Result<String, BackendError>) {
        match self {
            Backend::OpenAI(b) => b.read_response(outcome),
            Backend::Ollama(b) => b.read_response(outcome),
        }
    }

    fn add_to_history(&mut self, user_message: String, assistant_response: String)
        ensures
            final(self).same_service(old(self)),
    {
        match self {
            Backend::OpenAI(b) => b.add_to_history(user_message, assistant_response),
            Backend::Ollama(b) => b.add_to_history(user_message, assistant_response),
        }
    }
}

} // verus!
