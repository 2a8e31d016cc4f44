//! The companion's state: its name, its mood, when it was last spoken to,
//! and what was said.

use vstd::prelude::*;
use crate::mood::{boost, boosted, clamp, clamp_mood, decay, decayed, elapsed_hours, hours_between, in_range, DEFAULT_MOOD};

verus! {

/// The texts of a history of exchanges.
pub open spec fn exchanges(history: Seq<(String, String)>) -> Seq<(Seq<char>, Seq<char>)> {
    history.map_values(|e: (String, String)| (e.0@, e.1@))
}

/// What is known of the companion between one run and the next.
pub struct PetState {
    /// The companion's name.
    pub name: String,
    /// The mood now, in hundredths.
    pub mood: u32,
    /// The mood as it stood at `last_interaction`; decay is reckoned from it.
    pub settled_mood: u32,
    /// When the companion was last spoken to, in seconds since the Unix epoch.
    pub last_interaction: i64,
    /// Every finished exchange, oldest first: what the user said and what
    /// the companion answered.
    pub chat_history: Vec<(String, String)>,
}

impl PetState {
    /// This state after its mood has decayed up to the instant `now`.
    pub open spec fn after_decay(self, now: int) -> PetState {
        PetState {
            mood: decayed(self.settled_mood as int, hours_between(self.last_interaction as int, now)) as u32,
            ..self
        }
    }

    /// The state of a companion that has never been spoken to.
    pub fn fresh(name: String, now: i64) -> (state: PetState)
        ensures
            state.name == name,
            state.mood == DEFAULT_MOOD,
            state.settled_mood == DEFAULT_MOOD,
            state.last_interaction == now,
            state.chat_history@.len() == 0,
    {
        PetState {
            name,
            mood: DEFAULT_MOOD,
            settled_mood: DEFAULT_MOOD,
            last_interaction: now,
            chat_history: Vec::new(),
        }
    }

    /// `state` is the state to start a run with: what was stored, under
    /// the configured name and with its mood brought into range, or a fresh
    /// state where nothing usable was stored.
    pub open spec fn starts_from(state: PetState, stored: Option<PetState>, name: String, now: i64) -> bool {
        &&& state.name == name
        &&& state.settled_mood == state.mood
        &&& match stored {
            Some(kept) => {
                &&& state.mood == clamp_mood(kept.mood as int)
                &&& state.last_interaction == kept.last_interaction
                &&& state.chat_history == kept.chat_history
            },
            None => {
                &&& state.mood == DEFAULT_MOOD
                &&& state.last_interaction == now
                &&& state.chat_history@.len() == 0
            },
        }
    }

    /// The state to start a run with, given what was stored, if anything
    /// usable was, and the configured name.
    pub fn load(stored: Option<PetState>, name: String, now: i64) -> (state: PetState)
        ensures
            PetState::starts_from(state, stored, name, now),
            in_range(state.mood as int),
    {
        match stored {
            Some(kept) => {
                let mood: u32 = clamp(kept.mood as i128);
                PetState {
                    name,
                    mood,
                    settled_mood: mood,
                    last_interaction: kept.last_interaction,
                    chat_history: kept.chat_history,
                }
            },
            None => PetState::fresh(name, now),
        }
    }

    /// Lets the mood sink with the whole hours that have passed since the
    /// last interaction: a tenth for each. The loss is reckoned from the mood
    /// as it stood at that interaction, so a second call at the same instant
    /// changes nothing.
    pub fn decay(&mut self, now: i64)
        ensures
            *final(self) == old(self).after_decay(now as int),
            final(self).mood == decayed(
                old(self).settled_mood as int,
                hours_between(old(self).last_interaction as int, now as int),
            ),
            in_range(final(self).mood as int),
            final(self).settled_mood == old(self).settled_mood,
            final(self).last_interaction == old(self).last_interaction,
            final(self).name == old(self).name,
            final(self).chat_history == old(self).chat_history,
    {
        let hours: i64 = elapsed_hours(self.last_interaction, now);
        self.mood = decay(self.settled_mood, hours);
    }

    /// Records a finished exchange: the companion was spoken to at `now`,
    /// its mood changes by `mood_boost` within the range, and the exchange
    /// joins the history.
    pub fn record_exchange(&mut self, user: String, response: String, mood_boost: i32, now: i64)
        ensures
            final(self).last_interaction == now,
            final(self).mood == boosted(old(self).mood as int, mood_boost as int),
            in_range(final(self).mood as int),
            final(self).settled_mood == final(self).mood,
            final(self).chat_history@ == old(self).chat_history@.push((user, response)),
            exchanges(final(self).chat_history@) == exchanges(old(self).chat_history@).push(
                (user@, response@),
            ),
            final(self).name == old(self).name,
    {
        self.last_interaction = now;
        self.mood = boost(self.mood, mood_boost);
        self.settled_mood = self.mood;
        self.chat_history.push((user, response));
        assert(exchanges(self.chat_history@) =~= exchanges(old(self).chat_history@).push(
            (user@, response@),
        ));
    }

    /// Forgets every exchange. Name, mood and the time of the last
    /// interaction stay as they are.
    pub fn purge(&mut self)
        ensures
            final(self).chat_history@.len() == 0,
            final(self).name == old(self).name,
            final(self).mood == old(self).mood,
            final(self).settled_mood == old(self).settled_mood,
            final(self).last_interaction == old(self).last_interaction,
    {
        self.chat_history.clear();
    }
}


/// A state that is stored and then loaded under its own name comes back as
/// it was, whenever that may be, provided its mood was within the range and
/// settled.
pub proof fn lemma_load_returns_what_was_stored(kept: PetState, state: PetState, now: i64)
    requires
        in_range(kept.mood as int),
        kept.settled_mood == kept.mood,
        PetState::starts_from(state, Some(kept), kept.name, now),
    ensures
        state == kept,
{
}

/// Decay does not compound: decaying again at the same instant changes
/// nothing, and decaying at a later instant gives what decaying once at
/// that instant would have given.
pub proof fn lemma_decay_does_not_compound(state: PetState, first: int, second: int)
    ensures
        state.after_decay(first).after_decay(first) == state.after_decay(first),
        state.after_decay(first).after_decay(second) == state.after_decay(second),
        in_range(state.after_decay(first).mood as int),
{
}

/// Left alone, a companion's mood never rises as time goes on: at a later
/// instant it is at most what it was at an earlier one.
pub proof fn lemma_later_is_lower(state: PetState, earlier: int, later: int)
    requires
        earlier <= later,
    ensures
        state.after_decay(later).mood <= state.after_decay(earlier).mood,
{
    let last = state.last_interaction as int;
    assert(hours_between(last, earlier) <= hours_between(last, later));
}

/// The behaviour of a companion, for those who bring their own.
pub trait Pet {
    /// Lets time act on the mood.
    fn update_mood(&mut self);

    /// Answers a message.
    fn get_response(&mut self, input: &str) -> String;

    /// The companion's name.
    fn get_name(&self) -> &str;

    /// The companion's mood, in hundredths.
    fn get_mood(&self) -> u32;

    /// The companion's state.
    fn get_state(&self) -> &PetState;

    /// The companion's state, to be changed.
    fn get_state_mut(&mut self) -> &mut PetState;
}

} // verus!
