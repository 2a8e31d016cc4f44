//! Mood arithmetic.
//!
//! A mood is a whole number of hundredths: `100` is the happiest a companion
//! can be and `10` the lowest it sinks to. Every operation clamps into that
//! range, whatever it starts from.

use vstd::prelude::*;

verus! {

/// The lowest mood, in hundredths.
pub const MOOD_FLOOR: u32 = 10;

/// The highest mood, in hundredths.
pub const MOOD_CEILING: u32 = 100;

/// The mood of a companion that has no history yet.
pub const DEFAULT_MOOD: u32 = 80;

/// What one idle hour takes away.
pub const DECAY_PER_HOUR: u32 = 10;

/// What one answered message adds.
pub const EXCHANGE_BOOST: i32 = 10;

/// Seconds in an hour.
pub const SECONDS_PER_HOUR: u64 = 3600;

/// `m` lies between the floor and the ceiling.
pub open spec fn in_range(m: int) -> bool {
    10 <= m <= 100
}

/// `v` brought into the mood range.
pub open spec fn clamp_mood(v: int) -> int {
    if v < 10 {
        10
    } else if v > 100 {
        100
    } else {
        v
    }
}

/// Whole hours from `last` to `now` (both in seconds), rounded toward zero;
/// negative when `now` lies before `last`.
pub open spec fn hours_between(last: int, now: int) -> int {
    if now >= last {
        (now - last) / 3600
    } else {
        -((last - now) / 3600)
    }
}

/// The mood that `mood` has become after `hours` idle hours.
pub open spec fn decayed(mood: int, hours: int) -> int {
    clamp_mood(mood - hours * 10)
}

/// The mood that `mood` has become after a change of `delta`.
pub open spec fn boosted(mood: int, delta: int) -> int {
    clamp_mood(mood + delta)
}

/// How a mood shows.
#[derive(Debug, Clone, Copy, PartialEq, Eq, Structural)]
pub enum Band {
    /// Above eight tenths.
    Content,
    /// Above four tenths, up to eight.
    Curious,
    /// Four tenths or less.
    Distant,
}

/// The band that a mood falls in.
pub open spec fn band_of(mood: int) -> Band {
    if mood > 80 {
        Band::Content
    } else if mood > 40 {
        Band::Curious
    } else {
        Band::Distant
    }
}

/// One step in the life of a mood.
pub enum MoodOp {
    /// So many idle hours pass.
    Decay { hours: int },
    /// An interaction changes the mood by `delta`.
    Boost { delta: int },
}

/// The mood after one step.
pub open spec fn step(mood: int, op: MoodOp) -> int {
    match op {
        MoodOp::Decay { hours } => decayed(mood, hours),
        MoodOp::Boost { delta } => boosted(mood, delta),
    }
}

/// The mood after all of `ops`, in order.
pub open spec fn run(mood: int, ops: Seq<MoodOp>) -> int
    decreases ops.len(),
{
    if ops.len() == 0 {
        mood
    } else {
        step(run(mood, ops.drop_last()), ops.last())
    }
}

/// The band that a mood falls in.
pub fn band(mood: u32) -> (b: Band)
    ensures
        b == band_of(mood as int),
{
    if mood > 80 {
        Band::Content
    } else if mood > 40 {
        Band::Curious
    } else {
        Band::Distant
    }
}

/// Whole hours between two instants given in seconds.
pub fn elapsed_hours(last: i64, now: i64) -> (h: i64)
    ensures
        h == hours_between(last as int, now as int),
{
    if now >= last {
        let span: u64 = ((now as i128) - (last as i128)) as u64;
        (span / SECONDS_PER_HOUR) as i64
    } else {
        let span: u64 = ((last as i128) - (now as i128)) as u64;
        -((span / SECONDS_PER_HOUR) as i64)
    }
}

/// Brings any number of hundredths into the mood range.
pub fn clamp(v: i128) -> (m: u32)
    ensures
        m == clamp_mood(v as int),
        in_range(m as int),
{
    if v < 10 {
        MOOD_FLOOR
    } else if v > 100 {
        MOOD_CEILING
    } else {
        v as u32
    }
}

/// The mood left of `mood` after `hours` idle hours.
pub fn decay(mood: u32, hours: i64) -> (m: u32)
    ensures
        m == decayed(mood as int, hours as int),
        in_range(m as int),
{
    clamp((mood as i128) - (hours as i128) * 10)
}

/// The mood that `mood` becomes when an interaction changes it by `delta`.
pub fn boost(mood: u32, delta: i32) -> (m: u32)
    ensures
        m == boosted(mood as int, delta as int),
        in_range(m as int),
{
    clamp((mood as i128) + (delta as i128))
}

/// Whatever decays and boosts a mood goes through, in whatever order, it
/// ends between the floor and the ceiling, provided it started there or
/// went through at least one step.
pub proof fn lemma_mood_stays_in_range(mood: int, ops: Seq<MoodOp>)
    requires
        in_range(mood) || ops.len() > 0,
    ensures
        in_range(run(mood, ops)),
    decreases ops.len(),
{
    if ops.len() > 1 {
        lemma_mood_stays_in_range(mood, ops.drop_last());
    }
}

/// The longer a companion is left alone, the lower its mood: decay never
/// rises with the hours.
pub proof fn lemma_decay_monotonic(mood: int, fewer: int, more: int)
    requires
        fewer <= more,
    ensures
        decayed(mood, more) <= decayed(mood, fewer),
{
}

} // verus!
