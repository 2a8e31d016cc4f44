//! Telling commands from conversation, and shell-history lines from the
//! commands they record.

use vstd::prelude::*;
use crate::text::{after_last, after_last_start, chars_of, last_word, same_text, tail_word_start, trim, trimmed, trimmed_back};

verus! {

/// The commands that the session understands.
#[derive(Debug, Clone, Copy, PartialEq, Eq, Structural)]
pub enum Command {
    /// Show mood, last interaction and the size of the history.
    Stats,
    /// Empty the scrollback.
    Clear,
    /// Forget the history and empty the scrollback.
    Purge,
    /// Show the list of commands.
    Help,
    /// Say goodbye and leave.
    Exit,
}

/// Where a line of input goes.
#[derive(Debug, Clone, Copy, PartialEq, Eq, Structural)]
pub enum Route {
    /// It is a command, to be carried out without asking the backend.
    Run(Command),
    /// It is a message for the companion.
    Chat,
}

/// The command that `line` spells, letter for letter.
pub open spec fn command_of(line: Seq<char>) -> Option<Command> {
    if line == "/stats"@ {
        Some(Command::Stats)
    } else if line == "/clear"@ {
        Some(Command::Clear)
    } else if line == "/purge"@ {
        Some(Command::Purge)
    } else if line == "/help"@ {
        Some(Command::Help)
    } else if line == "/exit"@ {
        Some(Command::Exit)
    } else {
        None
    }
}

/// `input` begins with the character `c`.
pub open spec fn begins_with(input: Seq<char>, c: char) -> bool {
    input.len() > 0 && input[0] == c
}

/// Where `input` goes. The exit command counts wherever the line, once
/// trimmed, spells it. Any other command counts only where the line begins
/// with a slash and, once trimmed, spells the command exactly. Everything
/// else is conversation, a line that begins with a slash and spells no
/// command too.
pub open spec fn route_of(input: Seq<char>) -> Route {
    if trimmed(input) == "/exit"@ {
        Route::Run(Command::Exit)
    } else if begins_with(input, '/') && command_of(trimmed(input)) is Some {
        Route::Run(command_of(trimmed(input))->0)
    } else {
        Route::Chat
    }
}

/// The shell command that `input` reports: what follows a leading dollar
/// sign, trimmed. `None` where the line does not begin with one.
pub open spec fn captured(input: Seq<char>) -> Option<Seq<char>> {
    if begins_with(input, '$') {
        Some(trimmed(input.subrange(1, input.len() as int)))
    } else {
        None
    }
}

/// The command that a line of shell history records. A line that begins
/// with a colon carries a time stamp up to its last semicolon, and the
/// command is what follows, trimmed. Of any other line the command is its
/// last word.
pub open spec fn cleaned(line: Seq<char>) -> Seq<char> {
    if begins_with(line, ':') {
        trimmed(after_last(line, ';'))
    } else {
        last_word(line)
    }
}

/// Each command is spelled by its own line and by no other.
pub proof fn lemma_commands_spelled()
    ensures
        command_of("/stats"@) == Some(Command::Stats),
        command_of("/clear"@) == Some(Command::Clear),
        command_of("/purge"@) == Some(Command::Purge),
        command_of("/help"@) == Some(Command::Help),
        command_of("/exit"@) == Some(Command::Exit),
        forall|line: Seq<char>| command_of(line) == Some(Command::Exit) <==> line == "/exit"@,
{
    reveal_strlit("/stats");
    reveal_strlit("/clear");
    reveal_strlit("/purge");
    reveal_strlit("/help");
    reveal_strlit("/exit");
    assert("/stats"@[1] == 's');
    assert("/clear"@[1] == 'c');
    assert("/purge"@[1] == 'p');
    assert("/help"@[1] == 'h');
    assert("/exit"@[1] == 'e');
}

/// The command that `line` spells exactly.
pub fn parse_command(line: &str) -> (r: Option<Command>)
    ensures
        r == command_of(line@),
{
    if same_text(line, "/stats") {
        Some(Command::Stats)
    } else if same_text(line, "/clear") {
        Some(Command::Clear)
    } else if same_text(line, "/purge") {
        Some(Command::Purge)
    } else if same_text(line, "/help") {
        Some(Command::Help)
    } else if same_text(line, "/exit") {
        Some(Command::Exit)
    } else {
        None
    }
}

/// Whether `input` begins with the character `c`.
pub fn first_is(input: &Vec<char>, c: char) -> (r: bool)
    ensures
        r == begins_with(input@, c),
{
    input.len() > 0 && input[0] == c
}

/// Decides where a line of input goes.
pub fn classify(input: &str) -> (r: Route)
    ensures
        r == route_of(input@),
{
    let line: &str = trim(input);
    let chars: Vec<char> = chars_of(input);
    proof {
        lemma_commands_spelled();
    }
    match parse_command(line) {
        Some(Command::Exit) => Route::Run(Command::Exit),
        Some(command) => if first_is(&chars, '/') {
            Route::Run(command)
        } else {
            Route::Chat
        },
        None => Route::Chat,
    }
}

/// The shell command that a line of input reports, if it reports one.
pub fn capture(input: &str) -> (r: Option<String>)
    ensures
        match r {
            Some(c) => captured(input@) == Some(c@),
            None => captured(input@) is None,
        },
{
    let chars: Vec<char> = chars_of(input);
    if first_is(&chars, '$') {
        let rest: &str = input.substring_char(1, chars.len());
        Some(trim(rest).to_owned())
    } else {
        None
    }
}

/// Where `v` ends once the white space at its end is left out.
fn trimmed_back_end(v: &Vec<char>) -> (end: usize)
    ensures
        end <= v.len(),
        v@.subrange(0, end as int) == trimmed_back(v@),
{
    let mut end: usize = v.len();
    assert(v@.subrange(0, end as int) =~= v@);
    while end > 0 && v[end - 1].is_whitespace()
        invariant
            end <= v.len(),
            trimmed_back(v@) == trimmed_back(v@.subrange(0, end as int)),
        decreases end,
    {
        assert(v@.subrange(0, end as int).drop_last() =~= v@.subrange(0, end - 1));
        end = end - 1;
    }
    end
}

/// The command that a line of shell history records.
pub fn clean_history_line(line: &str) -> (r: String)
    ensures
        r@ == cleaned(line@),
{
    let chars: Vec<char> = chars_of(line);
    if first_is(&chars, ':') {
        let from: usize = after_last_start(&chars, chars.len(), ';');
        assert(chars@.subrange(0, chars.len() as int) =~= chars@);
        let tail: &str = line.substring_char(from, chars.len());
        trim(tail).to_owned()
    } else {
        let end: usize = trimmed_back_end(&chars);
        let from: usize = tail_word_start(&chars, end);
        line.substring_char(from, end).to_owned()
    }
}

} // verus!
