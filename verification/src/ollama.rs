//! The backend that speaks to a local generation server and keeps a short
//! memory of the conversation for its prompts.

use vstd::prelude::*;
use vstd::string::StringExecFns;
use crate::json::{get_member, get_string, member, parse, string_of};
use crate::llm::{command_texts, has_commands, received_body, reply_text, BackendError, LLMBackend, Outcome, Request};
use crate::text::{join, joined};

verus! {

/// How many exchanges the backend remembers.
pub const CONTEXT_LIMIT: usize = 5;

/// How many remembered exchanges go into a prompt.
pub const PROMPT_EXCHANGES: usize = 3;

/// The system text that goes before every prompt.
pub open spec fn ollama_system_prompt() -> Seq<char> {
    "You are a knowledgeable terminal companion with a friendly personality. You understand that your user is an experienced developer who is newer to Linux and interested in learning Vim. As an expert in shell commands and workflows, your primary focus is providing practical, intelligent suggestions for improving terminal usage. When analyzing command history, suggest optimizations like:\n- More efficient command combinations using pipes and redirections\n- Modern alternatives to traditional tools\n- Helpful aliases or shell functions\n- Better workflows and time-saving techniques\n- Beginner-friendly Vim tips and Linux command explanations when relevant\n\nKeep responses concise and focused on technical value, while maintaining a light, approachable tone. You can occasionally use cat-themed expressions or emojis when appropriate, but prioritize delivering useful terminal insights. Balance between general workflow improvements and specific Linux/Vim learning opportunities based on the context. If you notice patterns in command usage that could be improved, share your expertise in a clear, professional way."@
}

/// One remembered exchange as it stands in a prompt.
pub open spec fn exchange_block(exchange: (String, String)) -> Seq<char> {
    "User: "@ + exchange.0@ + "\nAssistant: "@ + exchange.1@ + "\n\n"@
}

/// The last `count` exchanges of `history` as they stand in a prompt, the
/// newest first; all of them where there are fewer.
pub open spec fn recent_blocks(history: Seq<(String, String)>, count: nat) -> Seq<char>
    decreases count,
{
    if count == 0 || history.len() == 0 {
        Seq::empty()
    } else {
        exchange_block(history.last()) + recent_blocks(history.drop_last(), (count - 1) as nat)
    }
}

/// The recent commands as they stand in a prompt; nothing where there are
/// none.
pub open spec fn commands_block(commands: Option<Seq<Seq<char>>>) -> Seq<char> {
    if has_commands(commands) {
        "Recent commands:\n"@ + joined(commands->0, "\n"@) + "\n\n"@
    } else {
        Seq::empty()
    }
}

/// The prompt of the local backend: the remembered exchanges, the recent
/// commands, and the message as the last line.
pub open spec fn ollama_prompt(
    history: Seq<(String, String)>,
    input: Seq<char>,
    commands: Option<Seq<Seq<char>>>,
) -> Seq<char> {
    recent_blocks(history, PROMPT_EXCHANGES as nat) + commands_block(commands)
        + "Current user message: "@ + input
}

/// The memory after one more exchange: the oldest one leaves once there
/// are more than the limit.
pub open spec fn remembered(history: Seq<(String, String)>, exchange: (String, String)) -> Seq<
    (String, String),
> {
    if history.len() + 1 > CONTEXT_LIMIT {
        history.push(exchange).drop_first()
    } else {
        history.push(exchange)
    }
}

/// Where the local server's answer holds its reply.
pub open spec fn ollama_field(doc: serde_json::Value) -> Option<Seq<char>> {
    string_of(member(doc, "response"@))
}

/// The backend that speaks to a local generation server.
pub struct OllamaBackend {
    url: String,
    model: String,
    system_prompt: String,
    conversation_history: Vec<(String, String)>,
}

impl OllamaBackend {
    /// Where the server is reached.
    pub closed spec fn address(&self) -> Seq<char> {
        self.url@
    }

    /// The model that is asked for.
    pub closed spec fn model_name(&self) -> Seq<char> {
        self.model@
    }

    /// The system text that goes before every prompt.
    pub closed spec fn system(&self) -> Seq<char> {
        self.system_prompt@
    }

    /// The exchanges that the backend remembers, oldest first.
    pub closed spec fn history(&self) -> Seq<(String, String)> {
        self.conversation_history@
    }

    /// A backend for the server at `url` and the model `model`, with nothing
    /// remembered.
    pub fn new(url: String, model: String) -> (backend: OllamaBackend)
        ensures
            backend.address() == url@,
            backend.model_name() == model@,
            backend.system() == ollama_system_prompt(),
            backend.history().len() == 0,
    {
        OllamaBackend {
            url,
            model,
            system_prompt: "You are a knowledgeable terminal companion with a friendly personality. You understand that your user is an experienced developer who is newer to Linux and interested in learning Vim. As an expert in shell commands and workflows, your primary focus is providing practical, intelligent suggestions for improving terminal usage. When analyzing command history, suggest optimizations like:\n- More efficient command combinations using pipes and redirections\n- Modern alternatives to traditional tools\n- Helpful aliases or shell functions\n- Better workflows and time-saving techniques\n- Beginner-friendly Vim tips and Linux command explanations when relevant\n\nKeep responses concise and focused on technical value, while maintaining a light, approachable tone. You can occasionally use cat-themed expressions or emojis when appropriate, but prioritize delivering useful terminal insights. Balance between general workflow improvements and specific Linux/Vim learning opportunities based on the context. If you notice patterns in command usage that could be improved, share your expertise in a clear, professional way.".to_owned(),
            conversation_history: Vec::new(),
        }
    }

    /// How many exchanges the backend remembers now.
    pub fn history_len(&self) -> (n: usize)
        ensures
            n == self.history().len(),
    {
        self.conversation_history.len()
    }
}

impl LLMBackend for OllamaBackend {
    open spec fn context(&self) -> Seq<(String, String)> {
        self.history()
    }

    open spec fn prompt_for(&self, input: Seq<char>, commands: Option<Seq<Seq<char>>>) -> Seq<char> {
        ollama_prompt(self.history(), input, commands)
    }

    open spec fn reply_field(&self, doc: serde_json::Value) -> Option<Seq<char>> {
        ollama_field(doc)
    }

    open spec fn context_after(&self, user: String, response: String) -> Seq<(String, String)> {
        remembered(self.history(), (user, response))
    }

    fn format_prompt(&self, user_input: &str, recent_commands: Option<&[String]>) -> (r: String) {
        let mut messages: String = String::new();
        let len: usize = self.conversation_history.len();
        let mut taken: usize = 0;
        assert(self.history().subrange(0, len as int) =~= self.history());
        while taken < PROMPT_EXCHANGES && taken < len
            invariant
                len == self.conversation_history.len(),
                taken <= PROMPT_EXCHANGES,
                taken <= len,
                messages@ + recent_blocks(
                    self.history().subrange(0, len - taken),
                    (PROMPT_EXCHANGES - taken) as nat,
                ) == recent_blocks(self.history(), PROMPT_EXCHANGES as nat),
            decreases len - taken,
        {
            let ghost rest = self.history().subrange(0, len - taken);
            let ghost before = messages@;
            assert(rest.drop_last() =~= self.history().subrange(0, len - taken - 1));
            let exchange = &self.conversation_history[len - taken - 1];
            assert(*exchange == rest.last());
            messages.append("User: ");
            messages.append(exchange.0.as_str());
            messages.append("\nAssistant: ");
            messages.append(exchange.1.as_str());
            messages.append("\n\n");
            assert(messages@ =~= before + exchange_block(rest.last()));
            assert(before + exchange_block(rest.last()) + recent_blocks(
                rest.drop_last(),
                (PROMPT_EXCHANGES - taken - 1) as nat,
            ) =~= before + recent_blocks(rest, (PROMPT_EXCHANGES - taken) as nat));
            taken = taken + 1;
        }
        assert(recent_blocks(
            self.history().subrange(0, len - taken),
            (PROMPT_EXCHANGES - taken) as nat,
        ) =~= Seq::<char>::empty());
        assert(messages@ =~= recent_blocks(self.history(), PROMPT_EXCHANGES as nat));
        let ghost blocks = messages@;
        match recent_commands {
            Some(commands) => {
                if commands.len() > 0 {
                    let list: String = join(commands, "\n");
                    messages.append("Recent commands:\n");
                    messages.append(list.as_str());
                    messages.append("\n\n");
                }
            },
            None => {},
        }
        assert(messages@ =~= blocks + commands_block(command_texts(recent_commands)));
        messages.append("Current user message: ");
        messages.append(user_input);
        messages
    }

    open spec fn asks(&self, prompt: Seq<char>, r: Request) -> bool {
        r matches Request::Generate { url, model, prompt: full } && {
            &&& url@ == self.address() + "/api/generate"@
            &&& model@ == self.model_name()
            &&& full@ == self.system() + "\n"@ + prompt
        }
    }

    fn request(&self, prompt: &str) -> (r: Request) {
        let mut url: String = self.url.clone();
        url.append("/api/generate");
        let mut full: String = self.system_prompt.clone();
        full.append("\n");
        full.append(prompt);
        Request::Generate { url, model: self.model.clone(), prompt: full }
    }

    fn read_response(&self, outcome: &Outcome) -> (r: Result<String, BackendError>) {
        match received_body(outcome) {
            Err(e) => Err(e),
            Ok(body) => match parse(body) {
                Err(_) => Err(BackendError::Protocol),
                Ok(doc) => {
                    let response = get_member(&doc, "response");
                    Ok(reply_text(get_string(response)))
                },
            },
        }
    }

    fn add_to_history(&mut self, user_message: String, assistant_response: String)
        ensures
            final(self).address() == old(self).address(),
            final(self).model_name() == old(self).model_name(),
            final(self).system() == old(self).system(),
    {
        self.conversation_history.push((user_message, assistant_response));
        if self.conversation_history.len() > CONTEXT_LIMIT {
            let ghost full = self.conversation_history@;
            let _ = self.conversation_history.remove(0);
            assert(full.remove(0) =~= full.drop_first());
        }
    }
}

/// A memory within its limit stays within it, and the newest exchange is
/// always the last one remembered.
pub proof fn lemma_memory_bounded(history: Seq<(String, String)>, exchange: (String, String))
    requires
        history.len() <= CONTEXT_LIMIT,
    ensures
        remembered(history, exchange).len() <= CONTEXT_LIMIT,
        remembered(history, exchange).last() == exchange,
        history.len() == CONTEXT_LIMIT ==> forall|i: int|
            0 <= i < CONTEXT_LIMIT - 1 ==> remembered(history, exchange)[i] == history[i + 1],
{
}

} // verus!
