use petcli::mood::{boost, clamp, decay, elapsed_hours, DEFAULT_MOOD, MOOD_CEILING, MOOD_FLOOR};

#[test]
fn decay_takes_a_tenth_per_hour() {
    assert_eq!(decay(80, 0), 80);
    assert_eq!(decay(80, 1), 70);
    assert_eq!(decay(80, 3), 50);
    assert_eq!(decay(100, 9), 10);
}

#[test]
fn decay_stops_at_the_floor() {
    assert_eq!(decay(15, 1), MOOD_FLOOR);
    assert_eq!(decay(80, 8), MOOD_FLOOR);
    assert_eq!(decay(80, i64::MAX), MOOD_FLOOR);
}

#[test]
fn decay_over_negative_hours_stops_at_the_ceiling() {
    assert_eq!(decay(50, -2), 70);
    assert_eq!(decay(95, -2), MOOD_CEILING);
    assert_eq!(decay(50, i64::MIN), MOOD_CEILING);
}

#[test]
fn boost_adds_within_the_range() {
    assert_eq!(boost(50, 20), 70);
    assert_eq!(boost(50, 15), 65);
    assert_eq!(boost(95, 10), MOOD_CEILING);
    assert_eq!(boost(10, -5), MOOD_FLOOR);
    assert_eq!(boost(50, 0), 50);
    assert_eq!(boost(u32::MAX, i32::MAX), MOOD_CEILING);
    assert_eq!(boost(0, i32::MIN), MOOD_FLOOR);
}

#[test]
fn clamp_brings_any_number_into_range() {
    assert_eq!(clamp(-1), 10);
    assert_eq!(clamp(9), 10);
    assert_eq!(clamp(10), 10);
    assert_eq!(clamp(55), 55);
    assert_eq!(clamp(100), 100);
    assert_eq!(clamp(101), 100);
    assert_eq!(clamp(i128::MAX), 100);
    assert_eq!(clamp(i128::MIN), 10);
}

#[test]
fn elapsed_hours_rounds_toward_zero() {
    assert_eq!(elapsed_hours(0, 0), 0);
    assert_eq!(elapsed_hours(0, 3599), 0);
    assert_eq!(elapsed_hours(0, 3600), 1);
    assert_eq!(elapsed_hours(0, 7199), 1);
    assert_eq!(elapsed_hours(1000, 1000 + 5 * 3600), 5);
    assert_eq!(elapsed_hours(3599, 0), 0);
    assert_eq!(elapsed_hours(3600, 0), -1);
    assert_eq!(elapsed_hours(7200, 0), -2);
}

#[test]
fn elapsed_hours_holds_at_the_ends_of_time() {
    assert_eq!(elapsed_hours(i64::MIN, i64::MAX), (u64::MAX / 3600) as i64);
    assert_eq!(elapsed_hours(i64::MAX, i64::MIN), -((u64::MAX / 3600) as i64));
}

#[test]
fn mood_stays_in_range_through_any_mix_of_steps() {
    let mut mood: u32 = DEFAULT_MOOD;
    let steps: [(bool, i64); 12] = [
        (true, 3),
        (false, 20),
        (false, 20),
        (false, 20),
        (true, 50),
        (true, -4),
        (false, -300),
        (false, 15),
        (true, 0),
        (false, 1000),
        (true, 1),
        (true, 100),
    ];
    for (is_decay, amount) in steps {
        mood = if is_decay { decay(mood, amount) } else { boost(mood, amount as i32) };
        assert!(MOOD_FLOOR <= mood && mood <= MOOD_CEILING);
    }
    assert_eq!(mood, 10);
}

#[test]
fn decay_never_rises_with_the_hours() {
    for start in [10u32, 40, 55, 80, 100] {
        let mut previous: u32 = decay(start, -12);
        for hours in -11..=12i64 {
            let now: u32 = decay(start, hours);
            assert!(now <= previous);
            previous = now;
        }
    }
}
