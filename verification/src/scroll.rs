//! From the scrollback to the lines of the window: who said what, line by
//! line, and how far the window must be moved to show the newest line.

use vstd::prelude::*;
use vstd::string::StringExecFns;
use crate::text::{after_last, after_last_start, chars_of, decimal, decimal_digits, has_prefix, starts_with, texts, trim, trimmed};

verus! {

/// Who speaks in an entry.
#[derive(Debug, Clone, Copy, PartialEq, Eq, Structural)]
pub enum Speaker {
    /// The user.
    User,
    /// The companion.
    Pet,
    /// The session itself, in an entry that carries no tag.
    System,
}

/// One line of the window.
#[derive(Debug, PartialEq, Eq)]
pub enum ScrollLine {
    /// A line of what someone said. The first line of an entry names the
    /// speaker; the others are indented under it.
    Said { speaker: Speaker, first: bool, text: String },
    /// The empty line after what anyone but the user said.
    Gap,
}

/// A line of the window, text for text.
pub enum LineView {
    /// A line of what someone said.
    Said { speaker: Speaker, first: bool, text: Seq<char> },
    /// The empty line after what anyone but the user said.
    Gap,
}

/// The view of a line.
pub open spec fn line_view(line: ScrollLine) -> LineView {
    match line {
        ScrollLine::Said { speaker, first, text } => LineView::Said { speaker, first, text: text@ },
        ScrollLine::Gap => LineView::Gap,
    }
}

/// The views of a list of lines.
pub open spec fn line_views(lines: Seq<ScrollLine>) -> Seq<LineView> {
    lines.map_values(|l: ScrollLine| line_view(l))
}

/// Where `c` first stands in `s`; the length of `s` where it does not.
pub open spec fn position(s: Seq<char>, c: char) -> int
    decreases s.len(),
{
    if s.len() == 0 || s[0] == c {
        0
    } else {
        1 + position(s.drop_first(), c)
    }
}

/// The pieces of `s` between its line breaks, in order. A text without a
/// line break is one piece.
pub open spec fn pieces(s: Seq<char>) -> Seq<Seq<char>>
    decreases s.len(),
{
    let tail = after_last(s, '\n');
    if tail.len() >= s.len() {
        seq![s]
    } else {
        pieces(s.subrange(0, s.len() - tail.len() - 1)).push(tail)
    }
}

/// Who speaks in `entry`: the user where it is tagged as the user's, the
/// session where it carries no tag at all, the companion else.
pub open spec fn speaker_of(entry: Seq<char>) -> Speaker {
    if has_prefix(entry, "user:"@) {
        Speaker::User
    } else if has_prefix(entry, "assistant:"@) {
        Speaker::Pet
    } else if has_prefix(entry, "You: "@) {
        Speaker::User
    } else if position(entry, ':') < entry.len() {
        Speaker::Pet
    } else {
        Speaker::System
    }
}

/// What is said in `entry`: what follows the tag. After `You: ` that is
/// the rest as it stands; else it is what follows the first colon, trimmed,
/// or the whole entry where it holds no colon.
pub open spec fn content_of(entry: Seq<char>) -> Seq<char> {
    if !has_prefix(entry, "user:"@) && !has_prefix(entry, "assistant:"@) && has_prefix(
        entry,
        "You: "@,
    ) {
        entry.subrange(5, entry.len() as int)
    } else if position(entry, ':') < entry.len() {
        trimmed(entry.subrange(position(entry, ':') + 1, entry.len() as int))
    } else {
        entry
    }
}

/// The lines that the user's `parts` show as: each part trimmed, the empty
/// ones left out, and only the very first part counted as a first line.
pub open spec fn user_lines(parts: Seq<Seq<char>>) -> Seq<LineView>
    decreases parts.len(),
{
    if parts.len() == 0 {
        Seq::empty()
    } else {
        let before = user_lines(parts.drop_last());
        let text = trimmed(parts.last());
        if text.len() == 0 {
            before
        } else {
            before.push(LineView::Said { speaker: Speaker::User, first: parts.len() == 1, text })
        }
    }
}

/// The lines that the `parts` of anyone else show as: each part trimmed,
/// the empty ones left out, and the first line that remains counted as the
/// first.
pub open spec fn other_lines(parts: Seq<Seq<char>>, speaker: Speaker) -> Seq<LineView>
    decreases parts.len(),
{
    if parts.len() == 0 {
        Seq::empty()
    } else {
        let before = other_lines(parts.drop_last(), speaker);
        let text = trimmed(parts.last());
        if text.len() == 0 {
            before
        } else {
            before.push(LineView::Said { speaker, first: before.len() == 0, text })
        }
    }
}

/// The lines that one entry shows as. What anyone but the user says is
/// followed by an empty line.
pub open spec fn lines_of(entry: Seq<char>) -> Seq<LineView> {
    match speaker_of(entry) {
        Speaker::User => user_lines(pieces(content_of(entry))),
        speaker => other_lines(pieces(content_of(entry)), speaker).push(LineView::Gap),
    }
}

/// The lines that a scrollback shows as.
pub open spec fn lines_of_all(entries: Seq<Seq<char>>) -> Seq<LineView>
    decreases entries.len(),
{
    if entries.len() == 0 {
        Seq::empty()
    } else {
        lines_of_all(entries.drop_last()) + lines_of(entries.last())
    }
}

/// How many lines the frame of the window takes.
pub const FRAME_LINES: usize = 2;

/// How far a window of `height` lines, frame included, is moved down to
/// show the last of `total` lines.
pub open spec fn offset_for(total: int, height: int) -> int {
    let room = if height > 2 {
        height - 2
    } else {
        0
    };
    if total > room {
        total - room
    } else {
        0
    }
}

/// The heading over the companion's picture.
pub open spec fn title_text(name: Seq<char>, mood: nat) -> Seq<char> {
    " "@ + name + " (Mood: "@ + decimal_digits(mood) + "%) "@
}

/// The heading over the companion's picture: its name and its mood in
/// percent.
pub fn title(name: &str, mood: u32) -> (r: String)
    ensures
        r@ == title_text(name@, mood as nat),
{
    let mut out: String = " ".to_owned();
    out.append(name);
    out.append(" (Mood: ");
    out.append(decimal(mood as u64).as_str());
    out.append("%) ");
    out
}

/// How far the window is moved down to show the last line.
pub fn window_offset(total: usize, height: usize) -> (r: usize)
    ensures
        r == offset_for(total as int, height as int),
{
    let room: usize = if height > FRAME_LINES {
        height - FRAME_LINES
    } else {
        0
    };
    if total > room {
        total - room
    } else {
        0
    }
}

/// Where `c` first stands in `v`.
pub fn find(v: &Vec<char>, c: char) -> (at: usize)
    ensures
        at == position(v@, c),
        at <= v.len(),
{
    let mut i: usize = 0;
    assert(v@.subrange(0, v.len() as int) =~= v@);
    while i < v.len() && v[i] != c
        invariant
            i <= v.len(),
            position(v@, c) == i + position(v@.subrange(i as int, v.len() as int), c),
        decreases v.len() - i,
    {
        assert(v@.subrange(i as int, v.len() as int).drop_first() =~= v@.subrange(
            i + 1,
            v.len() as int,
        ));
        i = i + 1;
    }
    i
}

/// The pieces of `s` between its line breaks.
pub fn split_lines(s: &str) -> (parts: Vec<String>)
    ensures
        texts(parts@) == pieces(s@),
{
    let v: Vec<char> = chars_of(s);
    let mut parts: Vec<String> = Vec::new();
    let mut end: usize = v.len();
    assert(v@.subrange(0, end as int) =~= v@);
    loop
        invariant_except_break
            pieces(s@) == pieces(v@.subrange(0, end as int)) + texts(parts@),
        invariant
            v@ == s@,
            end <= v.len(),
        ensures
            texts(parts@) == pieces(s@),
        decreases end,
    {
        let ghost head = v@.subrange(0, end as int);
        let ghost rest = texts(parts@);
        let from: usize = after_last_start(&v, end, '\n');
        let piece: String = s.substring_char(from, end).to_owned();
        assert(piece@ == after_last(head, '\n'));
        parts.insert(0, piece);
        assert(texts(parts@) =~= seq![piece@] + rest);
        if from == 0 {
            assert(v@.subrange(0, end as int) =~= head);
            assert(piece@ =~= head);
            assert(pieces(head) =~= seq![head]);
            assert(texts(parts@) =~= pieces(s@));
            break ;
        }
        assert(head.subrange(0, head.len() - piece@.len() - 1) =~= v@.subrange(0, from - 1));
        assert(pieces(head) == pieces(v@.subrange(0, from - 1)).push(piece@));
        assert(pieces(v@.subrange(0, from - 1)).push(piece@) + rest =~= pieces(
            v@.subrange(0, from - 1),
        ) + (seq![piece@] + rest));
        end = from - 1;
    }
    parts
}

/// Who speaks in an entry and what is said in it.
pub fn read_entry(entry: &str) -> (r: (Speaker, String))
    ensures
        r.0 == speaker_of(entry@),
        r.1@ == content_of(entry@),
{
    let v: Vec<char> = chars_of(entry);
    let as_user: bool = starts_with(&v, &chars_of("user:"));
    let as_pet: bool = starts_with(&v, &chars_of("assistant:"));
    let typed: bool = starts_with(&v, &chars_of("You: "));
    let colon: usize = find(&v, ':');
    let speaker: Speaker = if as_user {
        Speaker::User
    } else if as_pet {
        Speaker::Pet
    } else if typed {
        Speaker::User
    } else if colon < v.len() {
        Speaker::Pet
    } else {
        Speaker::System
    };
    if !as_user && !as_pet && typed {
        proof {
            reveal_strlit("You: ");
        }
        (speaker, entry.substring_char(5, v.len()).to_owned())
    } else if colon < v.len() {
        (speaker, trim(entry.substring_char(colon + 1, v.len())).to_owned())
    } else {
        (speaker, entry.to_owned())
    }
}

/// The lines that one entry shows as, appended to `lines`.
pub fn push_entry_lines(lines: &mut Vec<ScrollLine>, entry: &str)
    ensures
        line_views(final(lines)@) == line_views(old(lines)@) + lines_of(entry@),
{
    let (speaker, content) = read_entry(entry);
    let parts: Vec<String> = split_lines(content.as_str());
    let ghost start = line_views(lines@);
    let mut shown: usize = 0;
    let mut i: usize = 0;
    assert(texts(parts@).subrange(0, 0) =~= Seq::<Seq<char>>::empty());
    assert(start + Seq::<LineView>::empty() =~= start);
    while i < parts.len()
        invariant
            i <= parts.len(),
            shown <= i,
            speaker == Speaker::User ==> line_views(lines@) == start + user_lines(
                texts(parts@).subrange(0, i as int),
            ),
            speaker != Speaker::User ==> line_views(lines@) == start + other_lines(
                texts(parts@).subrange(0, i as int),
                speaker,
            ),
            speaker != Speaker::User ==> shown == other_lines(
                texts(parts@).subrange(0, i as int),
                speaker,
            ).len(),
        decreases parts.len() - i,
    {
        let ghost seen = texts(parts@).subrange(0, i as int);
        let ghost next = texts(parts@).subrange(0, i + 1);
        let ghost before = line_views(lines@);
        assert(next.drop_last() =~= seen);
        assert(next.last() == parts@[i as int]@);
        let text: &str = trim(parts[i].as_str());
        if !text.is_empty() {
            let first: bool = match speaker {
                Speaker::User => i == 0,
                _ => shown == 0,
            };
            let line = ScrollLine::Said { speaker, first, text: text.to_owned() };
            lines.push(line);
            assert(line_views(lines@) =~= before.push(line_view(line)));
            assert(speaker == Speaker::User ==> start + user_lines(next) =~= (start + user_lines(
                seen,
            )).push(line_view(line)));
            assert(speaker != Speaker::User ==> start + other_lines(next, speaker) =~= (start
                + other_lines(seen, speaker)).push(line_view(line)));
            shown = shown + 1;
        }
        i = i + 1;
    }
    assert(texts(parts@).subrange(0, parts.len() as int) =~= texts(parts@));
    match speaker {
        Speaker::User => {},
        _ => {
            let ghost before = line_views(lines@);
            lines.push(ScrollLine::Gap);
            assert(line_views(lines@) =~= before.push(LineView::Gap));
            assert(before.push(LineView::Gap) =~= start + other_lines(
                texts(parts@),
                speaker,
            ).push(LineView::Gap));
        },
    }
}

/// The lines that a scrollback shows as, oldest entry first.
pub fn scroll_lines(messages: &[String]) -> (lines: Vec<ScrollLine>)
    ensures
        line_views(lines@) == lines_of_all(texts(messages@)),
{
    let mut lines: Vec<ScrollLine> = Vec::new();
    let mut i: usize = 0;
    assert(texts(messages@).subrange(0, 0) =~= Seq::<Seq<char>>::empty());
    assert(line_views(lines@) =~= Seq::<LineView>::empty());
    while i < messages.len()
        invariant
            i <= messages.len(),
            line_views(lines@) == lines_of_all(texts(messages@).subrange(0, i as int)),
        decreases messages.len() - i,
    {
        let ghost seen = texts(messages@).subrange(0, i as int);
        let ghost next = texts(messages@).subrange(0, i + 1);
        assert(next.drop_last() =~= seen);
        assert(next.last() == messages@[i as int]@);
        push_entry_lines(&mut lines, messages[i].as_str());
        i = i + 1;
    }
    assert(texts(messages@).subrange(0, messages.len() as int) =~= texts(messages@));
    lines
}

} // verus!
