//! The session: one object that holds the scrollback, the companion's state,
//! the backend and the commands seen, and that decides what each line of
//! input does.
//!
//! Sending a request takes time and can fail, so a turn of conversation has
//! two halves. `handle_input` decides what a line means and, for a message,
//! hands out the request. The caller sends it and gives the outcome to
//! `finish_exchange`, which settles the turn. Between the two the session
//! awaits its one outstanding reply and takes no other input.

use vstd::prelude::*;
use vstd::string::StringExecFns;
use crate::backend::Backend;
use crate::clock::{instant, instant_text};
use crate::command::{begins_with, capture, captured, classify, clean_history_line, cleaned, command_of, lemma_commands_spelled, route_of, Command, Route};
use crate::config::{Config, LLMProvider};
use crate::fallback::{delta_for, reply_for, respond};
use crate::llm::{document_of, reading, LLMBackend, OpenAIBackend, Outcome, Request, openai_model, openai_system_prompt};
use crate::mood::{boosted, decayed, hours_between, in_range, EXCHANGE_BOOST};
use crate::ollama::{ollama_system_prompt, OllamaBackend, CONTEXT_LIMIT};
use crate::pet::{exchanges, PetState};
use crate::text::{decimal, decimal_digits, lowercase, texts, trimmed};
use crate::ui::{line_limit, log_after, welcome_text, AppUI, MAX_MESSAGES};

verus! {

/// How many commands typed into the session are kept.
pub const RECENT_LIMIT: usize = 5;

/// Why a session could not be started.
#[derive(Debug, Clone, Copy, PartialEq, Eq, Structural)]
pub enum FatalInitError {
    /// The chosen backend needs a key and none was given.
    MissingApiKey,
}

/// What a line of input came to.
pub enum Turn {
    /// Nothing was typed, or a reply is still awaited: nothing happened.
    Nothing,
    /// The user leaves. The farewell is shown; the state is to be saved and
    /// the session ended.
    Leave,
    /// A command was carried out. `persist` tells whether the state changed
    /// and is to be saved.
    Done { persist: bool },
    /// A message for the companion. The request is to be sent, once, and its
    /// outcome handed to `finish_exchange`.
    Ask { request: Request },
}

/// How the session shows what the user typed.
pub open spec fn user_line(message: Seq<char>) -> Seq<char> {
    "You: "@ + message
}

/// How the session shows what the companion says.
pub open spec fn pet_line(name: Seq<char>, said: Seq<char>) -> Seq<char> {
    name + ": "@ + said
}

/// The companion's goodbye.
pub open spec fn farewell() -> Seq<char> {
    "Goodbye! Take care! 👋"@
}

/// The list of commands.
pub open spec fn help_text() -> Seq<char> {
    "Available Commands:\n/stats - Display current pet statistics\n/clear - Clear chat window\n/purge - Remove all chat history\n/help  - Show this help message\n/exit  - Exit the application"@
}

/// The statistics of a companion: its mood in percent, when it was last
/// spoken to, and how many exchanges it remembers.
pub open spec fn stats_text(mood: nat, last_interaction: int, exchanges: nat) -> Seq<char> {
    "Current Stats:\nMood: "@ + decimal_digits(mood) + "%\nLast Interaction: "@ + instant_text(
        last_interaction,
    ) + "\nChat History: "@ + decimal_digits(exchanges) + " messages"@
}

/// A rolling list after one more entry: the oldest leaves once there are
/// more than `limit`.
pub open spec fn rolled(list: Seq<Seq<char>>, entry: Seq<char>, limit: nat) -> Seq<Seq<char>> {
    if list.len() + 1 > limit {
        list.push(entry).drop_first()
    } else {
        list.push(entry)
    }
}

/// The commands typed into the session, after the line `input`: a line
/// that begins with a dollar sign adds the command it reports.
pub open spec fn recent_after(recent: Seq<Seq<char>>, input: Seq<char>) -> Seq<Seq<char>> {
    match captured(input) {
        Some(c) => rolled(recent, c, RECENT_LIMIT as nat),
        None => recent,
    }
}

/// The shell history after the lines `lines` of a history file: each line
/// that records a command adds it, and the oldest leaves once there are
/// more than `limit`.
pub open spec fn absorbed(history: Seq<Seq<char>>, lines: Seq<Seq<char>>, limit: nat) -> Seq<
    Seq<char>,
>
    decreases lines.len(),
{
    if lines.len() == 0 {
        history
    } else {
        let before = absorbed(history, lines.drop_last(), limit);
        let command = cleaned(lines.last());
        if command.len() == 0 {
            before
        } else {
            rolled(before, command, limit)
        }
    }
}

/// A scrollback after the exchanges of `history` are shown in it, oldest
/// first: for each what the user said, then what `name` answered.
pub open spec fn replayed(
    log: Seq<Seq<char>>,
    name: Seq<char>,
    history: Seq<(Seq<char>, Seq<char>)>,
) -> Seq<Seq<char>>
    decreases history.len(),
{
    if history.len() == 0 {
        log
    } else {
        log_after(
            log_after(replayed(log, name, history.drop_last()), user_line(history.last().0)),
            pet_line(name, history.last().1),
        )
    }
}

/// The session.
pub struct App {
    /// The input line and the scrollback.
    pub ui: AppUI,
    /// The companion's state.
    pub state: PetState,
    /// The backend, chosen once for the whole session.
    pub llm: Backend,
    /// The commands typed into the session, oldest first.
    pub recent_commands: Vec<String>,
    /// The commands taken from the shell's history, oldest first.
    pub shell_history: Vec<String>,
    /// The configuration of this run.
    pub config: Config,
    /// The message whose reply is awaited, if one is.
    pub pending: Option<String>,
}

impl App {
    /// The backend of the session.
    pub open spec fn backend(&self) -> Backend {
        self.llm
    }

    /// The message whose reply the session awaits, if it awaits one.
    pub open spec fn awaiting(&self) -> Option<String> {
        self.pending
    }

    /// The session is in order: the scrollback and what the backend
    /// remembers are within their limits, no more commands typed into the
    /// session are kept than the limit allows, and the mood is within its
    /// range.
    pub open spec fn wf(&self) -> bool {
        &&& self.ui.wf()
        &&& self.recent_commands@.len() <= RECENT_LIMIT
        &&& self.llm.context().len() <= CONTEXT_LIMIT
        &&& in_range(self.state.mood as int)
        &&& in_range(self.state.settled_mood as int)
    }

    /// The commands that go into a prompt: the shell's history, then what
    /// was typed into the session.
    pub open spec fn prompt_commands(&self) -> Seq<Seq<char>> {
        texts(self.shell_history@) + texts(self.recent_commands@)
    }

    /// Whether the session awaits a reply.
    pub fn is_waiting(&self) -> (r: bool)
        ensures
            r == self.awaiting() is Some,
    {
        self.pending.is_some()
    }

    /// Starts a session from the configuration, the stored state where
    /// there is one, and the key for the remote service where there is one.
    /// It fails only where the remote service is chosen and no key is given.
    /// The scrollback greets and then shows the stored exchanges.
    pub fn new(config: Config, stored: Option<PetState>, api_key: Option<String>, now: i64) -> (r:
        Result<App, FatalInitError>)
        ensures
            r is Err <==> (config.llm_provider == LLMProvider::OpenAI && api_key is None),
            r matches Ok(app) ==> {
                &&& app.wf()
                &&& app.ui.scroll_offset == if app.state.chat_history@.len() == 0 {
                    0
                } else {
                    line_limit(app.ui.messages@)
                }
                &&& app.config == config
                &&& PetState::starts_from(app.state, stored, config.pet_name, now)
                &&& texts(app.ui.messages@) == replayed(
                    seq![welcome_text()],
                    config.pet_name@,
                    exchanges(app.state.chat_history@),
                )
                &&& app.ui.input@.len() == 0
                &&& app.recent_commands@.len() == 0
                &&& app.shell_history@.len() == 0
                &&& app.awaiting() is None
                &&& app.backend().context().len() == 0
                &&& match config.llm_provider {
                    LLMProvider::OpenAI => app.backend() matches Backend::OpenAI(b) && {
                        &&& b.key() == api_key->0@
                        &&& b.model_name() == openai_model()
                        &&& b.system() == openai_system_prompt()
                    },
                    LLMProvider::Ollama => app.backend() matches Backend::Ollama(b) && {
                        &&& b.address() == config.ollama_url@
                        &&& b.model_name() == config.ollama_model@
                        &&& b.system() == ollama_system_prompt()
                    },
                }
            },
    {
        let llm: Backend = match config.llm_provider {
            LLMProvider::OpenAI => match api_key {
                Some(key) => Backend::OpenAI(OpenAIBackend::new(key)),
                None => {
                    return Err(FatalInitError::MissingApiKey);
                },
            },
            LLMProvider::Ollama => Backend::Ollama(
                OllamaBackend::new(config.ollama_url.clone(), config.ollama_model.clone()),
            ),
        };
        let state: PetState = PetState::load(stored, config.pet_name.clone(), now);
        let mut ui: AppUI = AppUI::new();
        assert(texts(ui.messages@) =~= seq![welcome_text()]);
        let mut i: usize = 0;
        assert(exchanges(state.chat_history@).subrange(0, 0) =~= Seq::<
            (Seq<char>, Seq<char>),
        >::empty());
        while i < state.chat_history.len()
            invariant
                i <= state.chat_history.len(),
                ui.input@.len() == 0,
                ui.wf(),
                ui.scroll_offset == if i == 0 {
                    0
                } else {
                    line_limit(ui.messages@)
                },
                texts(ui.messages@) == replayed(
                    seq![welcome_text()],
                    state.name@,
                    exchanges(state.chat_history@).subrange(0, i as int),
                ),
            decreases state.chat_history.len() - i,
        {
            let ghost seen = exchanges(state.chat_history@).subrange(0, i as int);
            let ghost next = exchanges(state.chat_history@).subrange(0, i + 1);
            assert(next.drop_last() =~= seen);
            let exchange = &state.chat_history[i];
            assert(next.last() == (exchange.0@, exchange.1@));
            let mut said: String = "You: ".to_owned();
            said.append(exchange.0.as_str());
            ui.add_message(said);
            let mut answered: String = state.name.clone();
            answered.append(": ");
            answered.append(exchange.1.as_str());
            ui.add_message(answered);
            i = i + 1;
        }
        assert(exchanges(state.chat_history@).subrange(0, state.chat_history.len() as int)
            =~= exchanges(state.chat_history@));
        Ok(
            App {
                ui,
                state,
                llm,
                recent_commands: Vec::new(),
                shell_history: Vec::new(),
                config,
                pending: None,
            },
        )
    }

    /// Takes the lines of a shell history file into the shell history: of
    /// each line the command it records, where it records one, and never more
    /// than the configured number, the oldest leaving first.
    pub fn load_shell_history(&mut self, lines: &[String])
        ensures
            texts(final(self).shell_history@) == absorbed(
                texts(old(self).shell_history@),
                texts(lines@),
                old(self).config.command_history_limit as nat,
            ),
            final(self).ui == old(self).ui,
            final(self).state == old(self).state,
            final(self).recent_commands == old(self).recent_commands,
            final(self).config == old(self).config,
            final(self).backend() == old(self).backend(),
            final(self).awaiting() == old(self).awaiting(),
            old(self).wf() ==> final(self).wf(),
    {
        let mut i: usize = 0;
        assert(texts(lines@).subrange(0, 0) =~= Seq::<Seq<char>>::empty());
        while i < lines.len()
            invariant
                i <= lines.len(),
                texts(self.shell_history@) == absorbed(
                    texts(old(self).shell_history@),
                    texts(lines@).subrange(0, i as int),
                    old(self).config.command_history_limit as nat,
                ),
                self.ui == old(self).ui,
                self.state == old(self).state,
                self.recent_commands == old(self).recent_commands,
                self.config == old(self).config,
                self.llm == old(self).llm,
                self.pending == old(self).pending,
            decreases lines.len() - i,
        {
            let ghost seen = texts(lines@).subrange(0, i as int);
            let ghost next = texts(lines@).subrange(0, i + 1);
            assert(next.drop_last() =~= seen);
            assert(next.last() == lines@[i as int]@);
            let command: String = clean_history_line(lines[i].as_str());
            if !command.as_str().is_empty() {
                let ghost before = self.shell_history@;
                self.shell_history.push(command);
                assert(texts(self.shell_history@) =~= texts(before).push(command@));
                if self.shell_history.len() > self.config.command_history_limit {
                    let ghost full = self.shell_history@;
                    let _ = self.shell_history.remove(0);
                    assert(texts(self.shell_history@) =~= texts(full).drop_first());
                }
            }
            i = i + 1;
        }
        assert(texts(lines@).subrange(0, lines.len() as int) =~= texts(lines@));
    }

    /// Lets the companion's mood sink with the hours since it was last
    /// spoken to. Nothing else changes.
    pub fn update(&mut self, now: i64)
        ensures
            final(self).state.mood == decayed(
                old(self).state.settled_mood as int,
                hours_between(old(self).state.last_interaction as int, now as int),
            ),
            in_range(final(self).state.mood as int),
            final(self).state.settled_mood == old(self).state.settled_mood,
            final(self).state.last_interaction == old(self).state.last_interaction,
            final(self).state.name == old(self).state.name,
            final(self).state.chat_history == old(self).state.chat_history,
            final(self).ui == old(self).ui,
            final(self).recent_commands == old(self).recent_commands,
            final(self).shell_history == old(self).shell_history,
            final(self).config == old(self).config,
            final(self).backend() == old(self).backend(),
            final(self).awaiting() == old(self).awaiting(),
            old(self).wf() ==> final(self).wf(),
    {
        self.state.decay(now);
    }
}


impl App {
    /// What `handle_input` leaves alone whatever the line is: the
    /// configuration, the backend, the shell history, and the companion's
    /// name, mood and time of last interaction.
    pub open spec fn kept_by_input(before: App, after: App) -> bool {
        &&& after.config == before.config
        &&& after.llm == before.llm
        &&& after.shell_history == before.shell_history
        &&& after.state.name == before.state.name
        &&& after.state.mood == before.state.mood
        &&& after.state.settled_mood == before.state.settled_mood
        &&& after.state.last_interaction == before.state.last_interaction
    }

    /// What carrying out `command` makes of the session, the line typed
    /// being already shown in the scrollback `said`.
    pub open spec fn carried_out(
        before: App,
        after: App,
        turn: Turn,
        command: Command,
        said: Seq<Seq<char>>,
    ) -> bool {
        let name = before.state.name@;
        match command {
            Command::Stats => {
                &&& turn == Turn::Done { persist: false }
                &&& texts(after.ui.messages@) == log_after(
                    said,
                    pet_line(
                        name,
                        stats_text(
                            before.state.mood as nat,
                            before.state.last_interaction as int,
                            before.state.chat_history@.len(),
                        ),
                    ),
                )
                &&& after.state.chat_history == before.state.chat_history
            },
            Command::Clear => {
                &&& turn == Turn::Done { persist: false }
                &&& after.ui.messages@.len() == 0
                &&& after.state.chat_history == before.state.chat_history
            },
            Command::Purge => {
                &&& turn == Turn::Done { persist: true }
                &&& after.ui.messages@.len() == 0
                &&& after.state.chat_history@.len() == 0
            },
            Command::Help => {
                &&& turn == Turn::Done { persist: false }
                &&& texts(after.ui.messages@) == log_after(said, pet_line(name, help_text()))
                &&& after.state.chat_history == before.state.chat_history
            },
            Command::Exit => false,
        }
    }

    /// What one line of input makes of the session.
    ///
    /// An empty line, or any line while a reply is awaited, changes nothing.
    /// The exit command shows the farewell and changes nothing else. Every
    /// other line is shown as typed, and a line that begins with a dollar
    /// sign adds the command it reports to the commands seen. A command is
    /// then carried out and the input line emptied: the statistics and the
    /// help are shown, clearing empties the scrollback, and purging empties
    /// the scrollback and the history. A message becomes the
    /// message awaited, and the turn hands out the request for the prompt
    /// that the backend composes from the message and the commands seen.
    pub open spec fn stepped(before: App, after: App, turn: Turn) -> bool {
        let input = before.ui.input@;
        let name = before.state.name@;
        let said = log_after(texts(before.ui.messages@), user_line(input));
        if input.len() == 0 || before.pending is Some {
            turn is Nothing && after == before
        } else if route_of(input) == Route::Run(Command::Exit) {
            &&& turn is Leave
            &&& after.ui.scroll_offset == line_limit(after.ui.messages@)
            &&& App::kept_by_input(before, after)
            &&& texts(after.ui.messages@) == log_after(
                texts(before.ui.messages@),
                pet_line(name, farewell()),
            )
            &&& after.ui.input == before.ui.input
            &&& after.recent_commands == before.recent_commands
            &&& after.state.chat_history == before.state.chat_history
            &&& after.pending is None
        } else {
            &&& after.ui.scroll_offset == line_limit(after.ui.messages@)
            &&& App::kept_by_input(before, after)
            &&& texts(after.recent_commands@) == recent_after(
                texts(before.recent_commands@),
                input,
            )
            &&& match route_of(input) {
                Route::Run(command) => {
                    &&& App::carried_out(before, after, turn, command, said)
                    &&& after.ui.input@.len() == 0
                    &&& after.pending is None
                },
                Route::Chat => {
                    &&& turn matches Turn::Ask { request }
                    &&& before.llm.asks(
                        before.llm.prompt_for(input, Some(after.prompt_commands())),
                        request,
                    )
                    &&& texts(after.ui.messages@) == said
                    &&& after.ui.input == before.ui.input
                    &&& after.state.chat_history == before.state.chat_history
                    &&& after.pending == Some(before.ui.input)
                },
            }
        }
    }

    /// The commands that go into a prompt, gathered into one list.
    fn gather_commands(&self) -> (all: Vec<String>)
        ensures
            texts(all@) == self.prompt_commands(),
    {
        let mut all: Vec<String> = Vec::new();
        let mut i: usize = 0;
        while i < self.shell_history.len()
            invariant
                i <= self.shell_history.len(),
                all@ == self.shell_history@.subrange(0, i as int),
            decreases self.shell_history.len() - i,
        {
            all.push(self.shell_history[i].clone());
            assert(all@ =~= self.shell_history@.subrange(0, i + 1));
            i = i + 1;
        }
        assert(all@ =~= self.shell_history@);
        let mut j: usize = 0;
        while j < self.recent_commands.len()
            invariant
                j <= self.recent_commands.len(),
                all@ == self.shell_history@ + self.recent_commands@.subrange(0, j as int),
            decreases self.recent_commands.len() - j,
        {
            all.push(self.recent_commands[j].clone());
            assert(all@ =~= self.shell_history@ + self.recent_commands@.subrange(0, j + 1));
            j = j + 1;
        }
        assert(all@ =~= self.shell_history@ + self.recent_commands@);
        assert(texts(all@) =~= texts(self.shell_history@) + texts(self.recent_commands@));
        all
    }

    /// Shows `said` in the scrollback as spoken by the companion.
    fn say(&mut self, said: &str)
        ensures
            texts(final(self).ui.messages@) == log_after(
                texts(old(self).ui.messages@),
                pet_line(old(self).state.name@, said@),
            ),
            final(self).ui.scroll_offset == line_limit(final(self).ui.messages@),
            old(self).ui.messages@.len() <= MAX_MESSAGES ==> final(self).ui.wf(),
            final(self).ui.input == old(self).ui.input,
            final(self).state == old(self).state,
            final(self).llm == old(self).llm,
            final(self).recent_commands == old(self).recent_commands,
            final(self).shell_history == old(self).shell_history,
            final(self).config == old(self).config,
            final(self).pending == old(self).pending,
    {
        let mut line: String = self.state.name.clone();
        line.append(": ");
        line.append(said);
        self.ui.add_message(line);
    }

    /// Takes the line that stands in the input.
    pub fn handle_input(&mut self) -> (turn: Turn)
        ensures
            App::stepped(*old(self), *final(self), turn),
            old(self).wf() ==> final(self).wf(),
    {
        if self.ui.input.as_str().is_empty() || self.pending.is_some() {
            return Turn::Nothing;
        }
        let user_message: String = self.ui.input.clone();
        let route: Route = classify(user_message.as_str());
        if route == Route::Run(Command::Exit) {
            self.say("Goodbye! Take care! 👋");
            return Turn::Leave;
        }
        let mut shown: String = "You: ".to_owned();
        shown.append(user_message.as_str());
        self.ui.add_message(shown);
        match capture(user_message.as_str()) {
            Some(command) => {
                let ghost before = self.recent_commands@;
                self.recent_commands.push(command);
                assert(texts(self.recent_commands@) =~= texts(before).push(command@));
                if self.recent_commands.len() > RECENT_LIMIT {
                    let ghost full = self.recent_commands@;
                    let _ = self.recent_commands.remove(0);
                    assert(texts(self.recent_commands@) =~= texts(full).drop_first());
                }
            },
            None => {},
        }
        match route {
            Route::Run(Command::Stats) => {
                let mut stats: String = "Current Stats:\nMood: ".to_owned();
                stats.append(decimal(self.state.mood as u64).as_str());
                stats.append("%\nLast Interaction: ");
                stats.append(instant(self.state.last_interaction).as_str());
                stats.append("\nChat History: ");
                stats.append(decimal(self.state.chat_history.len() as u64).as_str());
                stats.append(" messages");
                self.say(stats.as_str());
                self.ui.input = String::new();
                Turn::Done { persist: false }
            },
            Route::Run(Command::Clear) => {
                self.ui.clear_messages();
                self.ui.input = String::new();
                Turn::Done { persist: false }
            },
            Route::Run(Command::Purge) => {
                self.state.purge();
                self.ui.clear_messages();
                self.ui.input = String::new();
                Turn::Done { persist: true }
            },
            Route::Run(Command::Help) => {
                self.say(
                    "Available Commands:\n/stats - Display current pet statistics\n/clear - Clear chat window\n/purge - Remove all chat history\n/help  - Show this help message\n/exit  - Exit the application",
                );
                self.ui.input = String::new();
                Turn::Done { persist: false }
            },
            Route::Run(Command::Exit) => Turn::Leave,
            Route::Chat => {
                let commands: Vec<String> = self.gather_commands();
                let prompt: String = self.llm.format_prompt(
                    user_message.as_str(),
                    Some(commands.as_slice()),
                );
                let request: Request = self.llm.request(prompt.as_str());
                self.pending = Some(user_message);
                Turn::Ask { request }
            },
        }
    }

    /// What the companion answers to `user`, given what came of the
    /// request: the backend's reply, or the canned reply for the message and
    /// the mood where the backend gave none.
    pub open spec fn answer(before: App, user: Seq<char>, outcome: Outcome) -> Seq<char> {
        match reading(outcome, before.llm.reply_field(document_of(outcome))) {
            Ok(reply) => reply,
            Err(_) => reply_for(lowercase(user), before.state.mood as int),
        }
    }

    /// What the exchange does to the mood: the usual gain where the backend
    /// replied, else what the canned reply brings.
    pub open spec fn gain(before: App, user: Seq<char>, outcome: Outcome) -> int {
        match reading(outcome, before.llm.reply_field(document_of(outcome))) {
            Ok(_) => EXCHANGE_BOOST as int,
            Err(_) => delta_for(lowercase(user)),
        }
    }

    /// What the outcome of a request makes of the session that awaited it.
    ///
    /// Where no reply was awaited, nothing changes and nothing is answered.
    /// Otherwise `reply` is the answer: it is shown, the exchange joins the
    /// history at `now` with its gain of mood, the backend remembers it if
    /// the reply was its own, the input line is emptied and nothing is
    /// awaited any more.
    pub open spec fn settled(
        before: App,
        after: App,
        outcome: Outcome,
        now: i64,
        reply: Option<String>,
    ) -> bool {
        match before.pending {
            None => reply is None && after == before,
            Some(user) => {
                &&& reply matches Some(said)
                &&& said@ == App::answer(before, user@, outcome)
                &&& after.pending is None
                &&& after.ui.input@.len() == 0
                &&& texts(after.ui.messages@) == log_after(
                    texts(before.ui.messages@),
                    pet_line(before.state.name@, said@),
                )
                &&& after.ui.scroll_offset == line_limit(after.ui.messages@)
                &&& after.state.name == before.state.name
                &&& after.state.last_interaction == now
                &&& after.state.mood == boosted(
                    before.state.mood as int,
                    App::gain(before, user@, outcome),
                )
                &&& after.state.settled_mood == after.state.mood
                &&& after.state.chat_history@ == before.state.chat_history@.push((user, said))
                &&& after.llm.same_service(&before.llm)
                &&& after.llm.context() == if reading(
                    outcome,
                    before.llm.reply_field(document_of(outcome)),
                ) is Ok {
                    before.llm.context_after(user, said)
                } else {
                    before.llm.context()
                }
                &&& after.recent_commands == before.recent_commands
                &&& after.shell_history == before.shell_history
                &&& after.config == before.config
            },
        }
    }

    /// Settles the turn that awaits a reply, given what came of its request
    /// and the time. Returns what the companion answered; the state is then
    /// to be saved.
    pub fn finish_exchange(&mut self, outcome: &Outcome, now: i64) -> (reply: Option<String>)
        ensures
            App::settled(*old(self), *final(self), *outcome, now, reply),
            old(self).wf() ==> final(self).wf(),
    {
        let user_message: String = match self.pending.take() {
            Some(message) => message,
            None => {
                return None;
            },
        };
        let mut boost: i32 = EXCHANGE_BOOST;
        let response: String = match self.llm.read_response(outcome) {
            Ok(response) => {
                self.llm.add_to_history(user_message.clone(), response.clone());
                response
            },
            Err(_) => {
                let (canned, delta) = respond(user_message.as_str(), self.state.mood);
                boost = delta;
                canned
            },
        };
        self.say(response.as_str());
        self.state.record_exchange(user_message, response.clone(), boost, now);
        self.ui.input = String::new();
        Some(response)
    }
}


/// Purging forgets every exchange and empties the scrollback, and leaves
/// the companion's mood and name as they were.
pub proof fn lemma_purge_keeps_mood_and_name(before: App, after: App, turn: Turn)
    requires
        before.ui.input@.len() > 0,
        before.pending is None,
        route_of(before.ui.input@) == Route::Run(Command::Purge),
        App::stepped(before, after, turn),
    ensures
        after.state.chat_history@.len() == 0,
        after.ui.messages@.len() == 0,
        after.state.mood == before.state.mood,
        after.state.name == before.state.name,
        turn == (Turn::Done { persist: true }),
{
}

/// Showing the statistics changes nothing of the companion's state.
pub proof fn lemma_stats_changes_no_state(before: App, after: App, turn: Turn)
    requires
        before.ui.input@.len() > 0,
        before.pending is None,
        route_of(before.ui.input@) == Route::Run(Command::Stats),
        App::stepped(before, after, turn),
    ensures
        after.state.chat_history == before.state.chat_history,
        after.state.mood == before.state.mood,
        after.state.name == before.state.name,
        after.state.last_interaction == before.state.last_interaction,
        turn == (Turn::Done { persist: false }),
{
}

/// A line that begins with a slash and spells no command is a message like
/// any other: the turn asks the backend.
pub proof fn lemma_unknown_slash_input_is_asked(before: App, after: App, turn: Turn)
    requires
        before.ui.input@.len() > 0,
        before.pending is None,
        begins_with(before.ui.input@, '/'),
        command_of(trimmed(before.ui.input@)) is None,
        App::stepped(before, after, turn),
    ensures
        turn is Ask,
        after.pending == Some(before.ui.input),
{
    lemma_commands_spelled();
}

/// A rolling list within its limit stays within it, and its newest entry
/// stands last.
pub proof fn lemma_rolled_bounded(list: Seq<Seq<char>>, entry: Seq<char>, limit: nat)
    requires
        list.len() <= limit,
        limit > 0,
    ensures
        rolled(list, entry, limit).len() <= limit,
        rolled(list, entry, limit).last() == entry,
{
}

/// Whatever comes of a request, the exchange leaves the mood within its
/// range.
pub proof fn lemma_exchange_keeps_mood_in_range(
    before: App,
    after: App,
    outcome: Outcome,
    now: i64,
    reply: Option<String>,
)
    requires
        before.pending is Some,
        App::settled(before, after, outcome, now, reply),
    ensures
        in_range(after.state.mood as int),
{
}

} // verus!
