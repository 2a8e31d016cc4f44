//! The scrollback: a bounded log of what was said, and the cursor that says
//! how far down the log the window stands.

use vstd::prelude::*;
use crate::text::{chars_of, count_newlines, has_prefix, newlines, starts_with, texts};

verus! {

/// How many entries the scrollback keeps.
pub const MAX_MESSAGES: usize = 100;

/// How many lines a page key moves the cursor.
pub const PAGE_LINES: usize = 5;

/// Where the cursor stands after a page up from `offset`.
pub open spec fn paged_up(offset: int) -> int {
    if offset > PAGE_LINES {
        offset - PAGE_LINES
    } else {
        0
    }
}

/// Where the cursor stands after a page down from `offset` in a log whose
/// end is `limit`: a page further, but not beyond the end, and where it
/// stood if that was at or beyond the end already.
pub open spec fn paged_down(offset: int, limit: int) -> int {
    if offset >= limit {
        offset
    } else if offset + PAGE_LINES > limit {
        limit
    } else {
        offset + PAGE_LINES
    }
}

/// What the scrollback greets with.
pub open spec fn welcome_text() -> Seq<char> {
    "Welcome back! Type your message and press Enter to chat."@
}

/// What an entry typed by the user begins with.
pub open spec fn user_tag() -> Seq<char> {
    "You: "@
}

/// The lines that one entry takes: its own, and a blank one after it unless
/// the user typed it.
pub open spec fn entry_lines(entry: Seq<char>) -> nat {
    newlines(entry) + 1 + if has_prefix(entry, user_tag()) {
        0nat
    } else {
        1nat
    }
}

/// The lines that all of `entries` take.
pub open spec fn total_lines(entries: Seq<Seq<char>>) -> nat
    decreases entries.len(),
{
    if entries.len() == 0 {
        0
    } else {
        total_lines(entries.drop_last()) + entry_lines(entries.last())
    }
}

/// Where the cursor stands one line up from `offset`.
pub open spec fn stepped_up(offset: int) -> int {
    if offset > 0 {
        offset - 1
    } else {
        0
    }
}

/// Where the cursor stands one line down from `offset` in a log whose end
/// is `limit`.
pub open spec fn stepped_down(offset: int, limit: int) -> int {
    if offset < limit {
        offset + 1
    } else {
        offset
    }
}

/// `n`, or the largest cursor position where `n` is beyond it.
pub open spec fn capped(n: nat) -> nat {
    if n > usize::MAX {
        usize::MAX as nat
    } else {
        n
    }
}

/// The furthest the cursor can stand for `entries`.
pub open spec fn line_limit(entries: Seq<String>) -> nat {
    capped(total_lines(texts(entries)))
}

/// The log after `entry` is appended: the oldest entry leaves first where
/// the log is full.
pub open spec fn appended(log: Seq<String>, entry: String) -> Seq<String> {
    if log.len() >= MAX_MESSAGES {
        log.drop_first().push(entry)
    } else {
        log.push(entry)
    }
}

/// The texts of a log after an entry with the text `entry` is appended.
pub open spec fn log_after(log: Seq<Seq<char>>, entry: Seq<char>) -> Seq<Seq<char>> {
    if log.len() >= MAX_MESSAGES {
        log.drop_first().push(entry)
    } else {
        log.push(entry)
    }
}

/// The input line, the scrollback and its cursor.
pub struct AppUI {
    /// What the user has typed and not yet sent.
    pub input: String,
    /// The scrollback, oldest entry first.
    pub messages: Vec<String>,
    /// The line at which the window stands.
    pub scroll_offset: usize,
}

impl AppUI {
    /// The scrollback is within its capacity and the cursor within the log.
    pub open spec fn wf(&self) -> bool {
        &&& self.messages@.len() <= MAX_MESSAGES
        &&& self.scroll_offset <= line_limit(self.messages@)
    }

    /// A scrollback that holds the greeting, with an empty input line.
    pub fn new() -> (ui: AppUI)
        ensures
            ui.input@ == Seq::<char>::empty(),
            ui.messages@.len() == 1,
            ui.messages@[0]@ == welcome_text(),
            ui.scroll_offset == 0,
            ui.wf(),
    {
        let mut messages: Vec<String> = Vec::new();
        messages.push("Welcome back! Type your message and press Enter to chat.".to_owned());
        AppUI { input: String::new(), messages, scroll_offset: 0 }
    }

    /// The furthest the cursor can stand: the lines of every entry, counted
    /// anew from what the log holds now.
    pub fn total_line_count(&self) -> (n: usize)
        ensures
            n == line_limit(self.messages@),
    {
        let tag: Vec<char> = chars_of("You: ");
        let mut total: usize = 0;
        let mut i: usize = 0;
        assert(texts(self.messages@).subrange(0, 0) =~= Seq::<Seq<char>>::empty());
        while i < self.messages.len()
            invariant
                i <= self.messages.len(),
                tag@ == user_tag(),
                total == capped(total_lines(texts(self.messages@).subrange(0, i as int))),
            decreases self.messages.len() - i,
        {
            let ghost seen = texts(self.messages@).subrange(0, i as int);
            let ghost next = texts(self.messages@).subrange(0, i + 1);
            assert(next.drop_last() =~= seen);
            assert(next.last() == self.messages@[i as int]@);
            let entry: Vec<char> = chars_of(self.messages[i].as_str());
            let breaks: usize = count_newlines(&entry);
            let blank: u128 = if starts_with(&entry, &tag) {
                0
            } else {
                1
            };
            let lines: u128 = (breaks as u128) + 1 + blank;
            assert(lines == entry_lines(self.messages@[i as int]@));
            let sum: u128 = (total as u128) + lines;
            total = if sum > (usize::MAX as u128) {
                usize::MAX
            } else {
                sum as usize
            };
            i = i + 1;
        }
        assert(texts(self.messages@).subrange(0, self.messages.len() as int) =~= texts(
            self.messages@,
        ));
        total
    }

    /// Moves the cursor to the end of the log.
    pub fn scroll_to_bottom(&mut self)
        ensures
            final(self).scroll_offset == line_limit(old(self).messages@),
            final(self).messages == old(self).messages,
            final(self).input == old(self).input,
    {
        self.scroll_offset = self.total_line_count();
    }

    /// Moves the cursor one line up, unless it stands at the top.
    pub fn scroll_up(&mut self)
        ensures
            final(self).scroll_offset == stepped_up(old(self).scroll_offset as int),
            final(self).messages == old(self).messages,
            final(self).input == old(self).input,
            old(self).wf() ==> final(self).wf(),
    {
        if self.scroll_offset > 0 {
            self.scroll_offset = self.scroll_offset - 1;
        }
    }

    /// Moves the cursor one line down, unless it stands at or beyond the end
    /// of the log.
    pub fn scroll_down(&mut self)
        ensures
            final(self).scroll_offset == stepped_down(
                old(self).scroll_offset as int,
                line_limit(old(self).messages@) as int,
            ),
            final(self).messages == old(self).messages,
            final(self).input == old(self).input,
            old(self).wf() ==> final(self).wf(),
    {
        let total: usize = self.total_line_count();
        if self.scroll_offset < total {
            self.scroll_offset = self.scroll_offset + 1;
        }
    }

    /// Moves the cursor a page up, or to the top where less than a page is
    /// left.
    pub fn page_up(&mut self)
        ensures
            final(self).scroll_offset == paged_up(old(self).scroll_offset as int),
            final(self).messages == old(self).messages,
            final(self).input == old(self).input,
            old(self).wf() ==> final(self).wf(),
    {
        self.scroll_offset = if self.scroll_offset > PAGE_LINES {
            self.scroll_offset - PAGE_LINES
        } else {
            0
        };
    }

    /// Moves the cursor a page down, or to the end of the log where less
    /// than a page is left.
    pub fn page_down(&mut self)
        ensures
            final(self).scroll_offset == paged_down(
                old(self).scroll_offset as int,
                line_limit(old(self).messages@) as int,
            ),
            final(self).messages == old(self).messages,
            final(self).input == old(self).input,
            old(self).wf() ==> final(self).wf(),
    {
        let total: usize = self.total_line_count();
        if self.scroll_offset < total {
            self.scroll_offset = if total - self.scroll_offset < PAGE_LINES {
                total
            } else {
                self.scroll_offset + PAGE_LINES
            };
        }
    }

    /// Appends an entry. A full log gives up its oldest entry first; the
    /// cursor then moves to the end.
    pub fn add_message(&mut self, message: String)
        ensures
            final(self).messages@ == appended(old(self).messages@, message),
            texts(final(self).messages@) == log_after(texts(old(self).messages@), message@),
            final(self).scroll_offset == line_limit(final(self).messages@),
            final(self).input == old(self).input,
            old(self).messages@.len() <= MAX_MESSAGES ==> final(self).wf(),
    {
        if self.messages.len() >= MAX_MESSAGES {
            let _ = self.messages.remove(0);
            assert(old(self).messages@.remove(0) =~= old(self).messages@.drop_first());
        }
        self.messages.push(message);
        assert(texts(self.messages@) =~= log_after(texts(old(self).messages@), message@));
        self.scroll_to_bottom();
    }

    /// Empties the log and puts the cursor at its top.
    pub fn clear_messages(&mut self)
        ensures
            final(self).messages@.len() == 0,
            final(self).scroll_offset == 0,
            final(self).input == old(self).input,
            final(self).wf(),
    {
        self.messages.clear();
        self.scroll_offset = 0;
    }
}

/// A page key does what five presses of the arrow key do.
pub proof fn lemma_page_is_five_steps(offset: int, limit: int)
    requires
        0 <= offset,
        0 <= limit,
    ensures
        paged_up(offset) == stepped_up(stepped_up(stepped_up(stepped_up(stepped_up(offset))))),
        paged_down(offset, limit) == stepped_down(
            stepped_down(
                stepped_down(stepped_down(stepped_down(offset, limit), limit), limit),
                limit,
            ),
            limit,
        ),
{
}

/// The same of the texts of a log: within its capacity it stays within it,
/// the new text stands last, and from a full log the oldest text leaves.
pub proof fn lemma_log_after_bounded(log: Seq<Seq<char>>, entry: Seq<char>)
    requires
        log.len() <= MAX_MESSAGES,
    ensures
        log_after(log, entry).len() <= MAX_MESSAGES,
        log_after(log, entry).last() == entry,
        log.len() == MAX_MESSAGES ==> forall|i: int|
            0 <= i < MAX_MESSAGES - 1 ==> log_after(log, entry)[i] == log[i + 1],
{
}

/// A log within its capacity stays within it whatever is appended, and once
/// it is full the entry that leaves is the oldest: what was second becomes
/// first, and the new entry stands last.
pub proof fn lemma_append_evicts_oldest(log: Seq<String>, entry: String)
    requires
        log.len() <= MAX_MESSAGES,
    ensures
        appended(log, entry).len() <= MAX_MESSAGES,
        appended(log, entry).last() == entry,
        log.len() < MAX_MESSAGES ==> appended(log, entry) == log.push(entry),
        log.len() == MAX_MESSAGES ==> appended(log, entry).len() == MAX_MESSAGES && (forall|
            i: int,
        |
            0 <= i < MAX_MESSAGES - 1 ==> appended(log, entry)[i] == log[i + 1]),
{
}

} // verus!
