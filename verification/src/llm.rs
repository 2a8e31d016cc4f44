//! Text-generation backends: what is asked of one, and how its answer is
//! read. Sending the request is left to the caller; everything that decides
//! what is sent and what an answer means is here.

use vstd::prelude::*;
use vstd::string::StringExecFns;
use crate::json::{element, get_element, get_member, get_string, member, parse, parsed, string_of};
use crate::text::{join, joined, text_of, texts};

verus! {

/// Why a backend gave no reply.
#[derive(Debug, Clone, Copy, PartialEq, Eq, Structural)]
pub enum BackendError {
    /// The request was not delivered, or the answer could not be read.
    Network,
    /// The backend answered with a status other than success.
    Auth,
    /// The answer was not a JSON document.
    Protocol,
}

/// What became of one request.
pub enum Outcome {
    /// No answer came.
    Unanswered,
    /// An answer came with this status, but its body could not be read.
    Unreadable { status: u16 },
    /// An answer came with this status and this body.
    Answered { status: u16, body: String },
}

/// One request to a backend, as plain values.
pub enum Request {
    /// A chat completion: a system message and a user message for a model,
    /// posted to `url` under an authorization header.
    Chat { url: String, authorization: String, model: String, system: String, user: String },
    /// A plain generation: one prompt for a model, posted to `url`, to be
    /// answered in one piece.
    Generate { url: String, model: String, prompt: String },
}

/// Whether an HTTP status reports success.
pub open spec fn is_success(status: int) -> bool {
    200 <= status < 300
}

/// The status of an answer.
pub open spec fn status_of(outcome: Outcome) -> Option<int> {
    match outcome {
        Outcome::Unanswered => None,
        Outcome::Unreadable { status } => Some(status as int),
        Outcome::Answered { status, .. } => Some(status as int),
    }
}

/// The body that an outcome delivers, or why it delivers none: no answer
/// and an unreadable answer are network failures, and any status other than
/// success is a refusal, whether or not a body came with it.
pub open spec fn body_of(outcome: Outcome) -> Result<Seq<char>, BackendError> {
    match outcome {
        Outcome::Unanswered => Err(BackendError::Network),
        Outcome::Unreadable { status } => if is_success(status as int) {
            Err(BackendError::Network)
        } else {
            Err(BackendError::Auth)
        },
        Outcome::Answered { status, body } => if is_success(status as int) {
            Ok(body@)
        } else {
            Err(BackendError::Auth)
        },
    }
}

/// What the companion says when an answer lacks the field that should hold
/// the reply.
pub open spec fn confusion_text() -> Seq<char> {
    "*meows confusedly* Something went wrong with my response..."@
}

/// The reply that a field yields: its text, or the confused reply where it
/// is missing.
pub open spec fn text_or_confusion(field: Option<Seq<char>>) -> Seq<char> {
    match field {
        Some(t) => t,
        None => confusion_text(),
    }
}

/// The JSON document that an outcome delivers. Where it delivers none, the
/// value stands for nothing and `reading` does not look at it.
pub open spec fn document_of(outcome: Outcome) -> serde_json::Value {
    parsed(body_of(outcome)->Ok_0)->0
}

/// What reading an outcome yields: the failure that the outcome stands for;
/// a protocol failure where the body is no JSON document; otherwise
/// `field`, the text that the backend found in the document, or the confused
/// reply where it found none.
pub open spec fn reading(outcome: Outcome, field: Option<Seq<char>>) -> Result<
    Seq<char>,
    BackendError,
> {
    match body_of(outcome) {
        Err(e) => Err(e),
        Ok(body) => match parsed(body) {
            None => Err(BackendError::Protocol),
            Some(_) => Ok(text_or_confusion(field)),
        },
    }
}

/// `r` is the result `expected`, text for text.
pub open spec fn result_is(r: Result<String, BackendError>, expected: Result<Seq<char>, BackendError>) -> bool {
    match r {
        Ok(t) => expected == Ok::<Seq<char>, BackendError>(t@),
        Err(e) => expected == Err::<Seq<char>, BackendError>(e),
    }
}

/// The views of an optional list of commands.
pub open spec fn command_texts(commands: Option<&[String]>) -> Option<Seq<Seq<char>>> {
    match commands {
        Some(list) => Some(texts(list@)),
        None => None,
    }
}

/// Whether there are commands to mention.
pub open spec fn has_commands(commands: Option<Seq<Seq<char>>>) -> bool {
    commands is Some && commands->0.len() > 0
}

/// Whether an HTTP status reports success.
pub fn status_is_success(status: u16) -> (r: bool)
    ensures
        r == is_success(status as int),
{
    200 <= status && status < 300
}

/// The body of an answer, or the failure that the outcome stands for.
pub fn received_body<'a>(outcome: &'a Outcome) -> (r: Result<&'a str, BackendError>)
    ensures
        match r {
            Ok(body) => body_of(*outcome) == Ok::<Seq<char>, BackendError>(body@),
            Err(e) => body_of(*outcome) == Err::<Seq<char>, BackendError>(e),
        },
{
    match outcome {
        Outcome::Unanswered => Err(BackendError::Network),
        Outcome::Unreadable { status } => if status_is_success(*status) {
            Err(BackendError::Network)
        } else {
            Err(BackendError::Auth)
        },
        Outcome::Answered { status, body } => if status_is_success(*status) {
            Ok(body.as_str())
        } else {
            Err(BackendError::Auth)
        },
    }
}

/// The reply that a field yields: its text, or the confused reply where the
/// field is missing.
pub fn reply_text(field: Option<String>) -> (r: String)
    ensures
        r@ == text_or_confusion(text_of(field)),
{
    match field {
        Some(t) => t,
        None => "*meows confusedly* Something went wrong with my response...".to_owned(),
    }
}

/// What every backend can do.
pub trait LLMBackend {
    /// The exchanges that the backend remembers for its prompts, oldest first.
    spec fn context(&self) -> Seq<(String, String)>;

    /// The prompt for `input`, given the commands recently seen.
    spec fn prompt_for(&self, input: Seq<char>, commands: Option<Seq<Seq<char>>>) -> Seq<char>;

    /// The field of an answer's document that holds the reply.
    spec fn reply_field(&self, doc: serde_json::Value) -> Option<Seq<char>>;

    /// The context after one more exchange.
    spec fn context_after(&self, user: String, response: String) -> Seq<(String, String)>;

    /// Composes the prompt for one message.
    fn format_prompt(&self, user_input: &str, recent_commands: Option<&[String]>) -> (r: String)
        ensures
            r@ == self.prompt_for(user_input@, command_texts(recent_commands)),
    ;

    /// Whether `r` is the request that asks this backend for a reply to
    /// `prompt`.
    spec fn asks(&self, prompt: Seq<char>, r: Request) -> bool;

    /// The one request that asks the backend for a reply to `prompt`.
    fn request(&self, prompt: &str) -> (r: Request)
        ensures
            self.asks(prompt@, r),
    ;

    /// Reads the outcome of a request: the reply, or why there is none.
    fn read_response(&self, outcome: &Outcome) -> (r: Result<String, BackendError>)
        ensures
            result_is(r, reading(*outcome, self.reply_field(document_of(*outcome)))),
    ;

    /// Remembers a finished exchange for later prompts.
    fn add_to_history(&mut self, user_message: String, assistant_response: String)
        ensures
            final(self).context() == old(self).context_after(user_message, assistant_response),
    ;
}

/// The backend that speaks to a remote chat-completion service.
pub struct OpenAIBackend {
    api_key: String,
    model: String,
    system_prompt: String,
}

/// The model that the chat-completion service is asked for.
pub open spec fn openai_model() -> Seq<char> {
    "gpt-3.5-turbo"@
}

/// Where chat completions are posted.
pub open spec fn openai_url() -> Seq<char> {
    "https://api.openai.com/v1/chat/completions"@
}

/// The system message of the chat-completion backend.
pub open spec fn openai_system_prompt() -> Seq<char> {
    "You are a cute virtual pet cat who is also a terminal expert. Respond in a playful, cat-like manner using emojis and cat-like expressions, while providing helpful terminal tips. If you notice commands that could be improved with pipes, better tools, or more efficient workflows, suggest them in a friendly way. Keep responses short, sweet, and educational. For example, if you see multiple commands that could be piped, or if there are modern alternatives to traditional commands, share that knowledge in a cute and helpful way."@
}

/// The chat-completion prompt: the message itself, or the commands and then
/// the message where there are commands to mention.
pub open spec fn openai_prompt(input: Seq<char>, commands: Option<Seq<Seq<char>>>) -> Seq<char> {
    if has_commands(commands) {
        "Recent commands I've seen you use:\n"@ + joined(commands->0, "\n"@)
            + "\n\nUser message: "@ + input
    } else {
        input
    }
}

/// Where a chat completion holds its reply: the content of the message of
/// the first choice.
pub open spec fn openai_field(doc: serde_json::Value) -> Option<Seq<char>> {
    string_of(member(member(element(member(doc, "choices"@), 0), "message"@), "content"@))
}

impl OpenAIBackend {
    /// The key that requests are authorized with.
    pub closed spec fn key(&self) -> Seq<char> {
        self.api_key@
    }

    /// The model that is asked for.
    pub closed spec fn model_name(&self) -> Seq<char> {
        self.model@
    }

    /// The system message that goes with every request.
    pub closed spec fn system(&self) -> Seq<char> {
        self.system_prompt@
    }

    /// A backend that authorizes its requests with `api_key`.
    pub fn new(api_key: String) -> (backend: OpenAIBackend)
        ensures
            backend.key() == api_key@,
            backend.model_name() == openai_model(),
            backend.system() == openai_system_prompt(),
    {
        OpenAIBackend {
            api_key,
            model: "gpt-3.5-turbo".to_owned(),
            system_prompt: "You are a cute virtual pet cat who is also a terminal expert. Respond in a playful, cat-like manner using emojis and cat-like expressions, while providing helpful terminal tips. If you notice commands that could be improved with pipes, better tools, or more efficient workflows, suggest them in a friendly way. Keep responses short, sweet, and educational. For example, if you see multiple commands that could be piped, or if there are modern alternatives to traditional commands, share that knowledge in a cute and helpful way.".to_owned(),
        }
    }

    /// Composes the prompt for one message: the recent commands, where
    /// there are any, and then the message.
    pub fn format_prompt(&self, user_input: &str, recent_commands: Option<&[String]>) -> (r: String)
        ensures
            r@ == openai_prompt(user_input@, command_texts(recent_commands)),
    {
        match recent_commands {
            Some(commands) => {
                if commands.len() > 0 {
                    let mut prompt: String = "Recent commands I've seen you use:\n".to_owned();
                    let list: String = join(commands, "\n");
                    prompt.append(list.as_str());
                    prompt.append("\n\nUser message: ");
                    prompt.append(user_input);
                    prompt
                } else {
                    user_input.to_owned()
                }
            },
            None => user_input.to_owned(),
        }
    }
}

impl LLMBackend for OpenAIBackend {
    /// This backend remembers nothing.
    open spec fn context(&self) -> Seq<(String, String)> {
        Seq::empty()
    }

    open spec fn prompt_for(&self, input: Seq<char>, commands: Option<Seq<Seq<char>>>) -> Seq<char> {
        openai_prompt(input, commands)
    }

    open spec fn reply_field(&self, doc: serde_json::Value) -> Option<Seq<char>> {
        openai_field(doc)
    }

    open spec fn context_after(&self, user: String, response: String) -> Seq<(String, String)> {
        Seq::empty()
    }

    fn format_prompt(&self, user_input: &str, recent_commands: Option<&[String]>) -> (r: String) {
        OpenAIBackend::format_prompt(self, user_input, recent_commands)
    }

    open spec fn asks(&self, prompt: Seq<char>, r: Request) -> bool {
        r matches Request::Chat { url, authorization, model, system, user } && {
            &&& url@ == openai_url()
            &&& authorization@ == "Bearer "@ + self.key()
            &&& model@ == self.model_name()
            &&& system@ == self.system()
            &&& user@ == prompt
        }
    }

    fn request(&self, prompt: &str) -> (r: Request) {
        let mut authorization: String = "Bearer ".to_owned();
        authorization.append(self.api_key.as_str());
        Request::Chat {
            url: "https://api.openai.com/v1/chat/completions".to_owned(),
            authorization,
            model: self.model.clone(),
            system: self.system_prompt.clone(),
            user: prompt.to_owned(),
        }
    }

    fn read_response(&self, outcome: &Outcome) -> (r: Result<String, BackendError>) {
        match received_body(outcome) {
            Err(e) => Err(e),
            Ok(body) => match parse(body) {
                Err(_) => Err(BackendError::Protocol),
                Ok(doc) => {
                    let choices = get_member(&doc, "choices");
                    let first = get_element(choices, 0);
                    let message = get_member(first, "message");
                    let content = get_member(message, "content");
                    Ok(reply_text(get_string(content)))
                },
            },
        }
    }

    fn add_to_history(&mut self, user_message: String, assistant_response: String)
        ensures
            *final(self) == *old(self),
    {
    }
}

} // verus!
