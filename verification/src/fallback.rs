//! What the companion says when no backend answers.

use vstd::prelude::*;
use crate::mood::{band, band_of, Band};
use crate::text::{chars_of, contains, lowercase, occurs_in};

verus! {

/// What a treat adds to the mood.
pub const TREAT_BOOST: i32 = 20;

/// What play adds to the mood.
pub const PLAY_BOOST: i32 = 15;

/// The word that earns the treat reply.
pub open spec fn treat_word() -> Seq<char> {
    "treat"@
}

/// The word that earns the play reply.
pub open spec fn play_word() -> Seq<char> {
    "play"@
}

/// The reply to a treat.
pub open spec fn treat_reply() -> Seq<char> {
    "*purrs happily* Thank you for the treat! 😊"@
}

/// The reply to play.
pub open spec fn play_reply() -> Seq<char> {
    "*bounces around excitedly* I love to play! 🐱"@
}

/// The reply of a content companion.
pub open spec fn content_reply() -> Seq<char> {
    "*purrs contentedly* 😊"@
}

/// The reply of a curious companion.
pub open spec fn curious_reply() -> Seq<char> {
    "*looks at you curiously* Meow?"@
}

/// The reply of a distant companion.
pub open spec fn distant_reply() -> Seq<char> {
    "*seems a bit distant* ..."@
}

/// The reply to a message whose lower-case form is `lowered`, at mood `mood`.
pub open spec fn reply_for(lowered: Seq<char>, mood: int) -> Seq<char> {
    if occurs_in(lowered, treat_word()) {
        treat_reply()
    } else if occurs_in(lowered, play_word()) {
        play_reply()
    } else {
        match band_of(mood) {
            Band::Content => content_reply(),
            Band::Curious => curious_reply(),
            Band::Distant => distant_reply(),
        }
    }
}

/// What a message whose lower-case form is `lowered` does to the mood.
pub open spec fn delta_for(lowered: Seq<char>) -> int {
    if occurs_in(lowered, treat_word()) {
        20
    } else if occurs_in(lowered, play_word()) {
        15
    } else {
        0
    }
}

/// The reply and the change of mood for a message that is already in lower
/// case. A treat counts before play; without either the reply goes by the
/// mood as it stands before this message changes it, and the mood stays.
pub fn respond_lowered(lowered: &str, current_mood: u32) -> (r: (String, i32))
    ensures
        r.0@ == reply_for(lowered@, current_mood as int),
        r.1 == delta_for(lowered@),
{
    let hay: Vec<char> = chars_of(lowered);
    let treat: Vec<char> = chars_of("treat");
    let play: Vec<char> = chars_of("play");
    if contains(&hay, &treat) {
        ("*purrs happily* Thank you for the treat! 😊".to_owned(), TREAT_BOOST)
    } else if contains(&hay, &play) {
        ("*bounces around excitedly* I love to play! 🐱".to_owned(), PLAY_BOOST)
    } else {
        match band(current_mood) {
            Band::Content => ("*purrs contentedly* 😊".to_owned(), 0),
            Band::Curious => ("*looks at you curiously* Meow?".to_owned(), 0),
            Band::Distant => ("*seems a bit distant* ...".to_owned(), 0),
        }
    }
}

/// The reply and the change of mood for `user_text` at `current_mood`,
/// whatever case the message is written in. Both depend on nothing but the
/// message and the mood.
pub fn respond(user_text: &str, current_mood: u32) -> (r: (String, i32))
    ensures
        r.0@ == reply_for(lowercase(user_text@), current_mood as int),
        r.1 == delta_for(lowercase(user_text@)),
{
    let lowered: String = user_text.to_lowercase();
    respond_lowered(lowered.as_str(), current_mood)
}


/// The canned answer is a function of the message and the mood and of
/// nothing else: the same message at the same mood earns the same reply and
/// the same change of mood.
pub proof fn lemma_same_input_same_answer(
    text_a: Seq<char>,
    mood_a: int,
    text_b: Seq<char>,
    mood_b: int,
)
    requires
        text_a == text_b,
        mood_a == mood_b,
    ensures
        reply_for(lowercase(text_a), mood_a) == reply_for(lowercase(text_b), mood_b),
        delta_for(lowercase(text_a)) == delta_for(lowercase(text_b)),
{
}

} // verus!
