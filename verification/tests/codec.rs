use async_liveliness_monitor::support::AtomicDuration;
use async_liveliness_monitor::support::Sign;
use std::sync::atomic::Ordering;
use std::time::Duration;

const SPAN_SECS: u64 = 1 << 43;

#[test]
fn sign_defaults_to_positive() {
    assert_eq!(Sign::default(), Sign::Positive);
}

#[test]
fn packs_seconds_above_twenty_bits() {
    let word = AtomicDuration::duration_to_i64(Duration::new(1, 500_000), Sign::Positive);
    assert_eq!(word, (1 << 20) + 500);
    assert_eq!(word, 1_049_076);
}

#[test]
fn packs_negative_as_negated_word() {
    let word = AtomicDuration::duration_to_i64(Duration::new(1, 500_000), Sign::Negative);
    assert_eq!(word, -1_049_076);
}

#[test]
fn packs_one_microsecond_as_one() {
    assert_eq!(AtomicDuration::duration_to_i64(Duration::from_micros(1), Sign::Positive), 1);
    assert_eq!(AtomicDuration::duration_to_i64(Duration::from_micros(1), Sign::Negative), -1);
}

#[test]
fn packing_drops_what_is_below_a_microsecond() {
    let word = AtomicDuration::duration_to_i64(Duration::new(3, 999_999_999), Sign::Positive);
    assert_eq!(word, (3 << 20) + 999_999);
    let word = AtomicDuration::duration_to_i64(Duration::new(0, 999), Sign::Positive);
    assert_eq!(word, 0);
}

#[test]
fn packs_the_longest_duration_that_fits() {
    let longest = Duration::new(SPAN_SECS - 1, 999_999_999);
    assert!(AtomicDuration::can_hold(&longest));
    let word = AtomicDuration::duration_to_i64(longest, Sign::Positive);
    assert_eq!(word, (((SPAN_SECS - 1) << 20) + 999_999) as i64);
    assert_eq!(word, 9_223_372_036_854_727_231);
    let word = AtomicDuration::duration_to_i64(longest, Sign::Negative);
    assert_eq!(word, -9_223_372_036_854_727_231);
}

#[test]
fn unpacks_the_two_fields() {
    let (duration, sign) = AtomicDuration::i64_to_duration(1_049_076);
    assert_eq!(duration, Duration::new(1, 500_000));
    assert_eq!(sign, Sign::Positive);
    let (duration, sign) = AtomicDuration::i64_to_duration(-1_049_076);
    assert_eq!(duration, Duration::new(1, 500_000));
    assert_eq!(sign, Sign::Negative);
}

#[test]
fn unpacks_zero_as_positive_nothing() {
    assert_eq!(AtomicDuration::i64_to_duration(0), (Duration::ZERO, Sign::Positive));
}

#[test]
fn unpacks_a_full_fraction_field_as_it_stands() {
    let (duration, sign) = AtomicDuration::i64_to_duration(0xfffff);
    assert_eq!(duration, Duration::from_micros(1_048_575));
    assert_eq!(duration, Duration::new(1, 48_575_000));
    assert_eq!(sign, Sign::Positive);
}

#[test]
fn unpacks_the_largest_word() {
    let (duration, sign) = AtomicDuration::i64_to_duration(i64::MAX);
    assert_eq!(duration, Duration::new(SPAN_SECS, 48_575_000));
    assert_eq!(sign, Sign::Positive);
}

#[test]
fn unpacks_the_smallest_words() {
    let (duration, sign) = AtomicDuration::i64_to_duration(-i64::MAX);
    assert_eq!(duration, Duration::new(SPAN_SECS, 48_575_000));
    assert_eq!(sign, Sign::Negative);
    let (duration, sign) = AtomicDuration::i64_to_duration(i64::MIN);
    assert_eq!(duration, Duration::new(SPAN_SECS, 0));
    assert_eq!(sign, Sign::Negative);
}

#[test]
fn resolution_is_one_microsecond() {
    assert_eq!(AtomicDuration::resolution(), Duration::from_micros(1));
    assert_eq!(AtomicDuration::resolution(), AtomicDuration::i64_to_duration(1).0);
}

#[test]
fn max_is_the_duration_of_the_largest_word() {
    assert_eq!(AtomicDuration::max(), Duration::new(8_796_093_022_208, 48_575_000));
    assert_eq!(AtomicDuration::max(), AtomicDuration::i64_to_duration(i64::MAX).0);
    assert_eq!(AtomicDuration::max().as_secs() / (365 * 24 * 3600), 278_922);
}

#[test]
fn max_itself_does_not_fit() {
    assert!(!AtomicDuration::can_hold(&AtomicDuration::max()));
}

#[test]
fn can_hold_up_to_the_span_of_seconds() {
    assert!(AtomicDuration::can_hold(&Duration::ZERO));
    assert!(AtomicDuration::can_hold(&Duration::new(SPAN_SECS - 1, 0)));
    assert!(AtomicDuration::can_hold(&Duration::new(SPAN_SECS - 1, 999_999_999)));
    assert!(!AtomicDuration::can_hold(&Duration::new(SPAN_SECS, 0)));
    assert!(!AtomicDuration::can_hold(&Duration::MAX));
}

#[test]
fn round_trip_keeps_whole_microseconds_and_sign() {
    let durations = [
        Duration::from_micros(1),
        Duration::from_micros(999_999),
        Duration::new(0, 1_999),
        Duration::new(1, 0),
        Duration::new(1, 1),
        Duration::new(59, 123_456_789),
        Duration::new(86_400 * 365, 999_999_999),
        Duration::new(SPAN_SECS - 1, 999_999_999),
    ];
    for duration in durations {
        for sign in [Sign::Positive, Sign::Negative] {
            let word = AtomicDuration::duration_to_i64(duration, sign);
            let (back, back_sign) = AtomicDuration::i64_to_duration(word);
            let micros = duration.subsec_nanos() / 1_000;
            assert_eq!(back, Duration::new(duration.as_secs(), micros * 1_000));
            assert_eq!(back_sign, sign);
            assert!(duration - back < AtomicDuration::resolution());
        }
    }
}

#[test]
fn round_trip_of_less_than_a_microsecond_is_positive_nothing() {
    for duration in [Duration::ZERO, Duration::new(0, 1), Duration::new(0, 999)] {
        for sign in [Sign::Positive, Sign::Negative] {
            let word = AtomicDuration::duration_to_i64(duration, sign);
            assert_eq!(word, 0);
            assert_eq!(AtomicDuration::i64_to_duration(word), (Duration::ZERO, Sign::Positive));
        }
    }
}

#[test]
fn longer_durations_pack_to_larger_words() {
    let durations = [
        Duration::ZERO,
        Duration::new(0, 999),
        Duration::new(0, 1_000),
        Duration::new(0, 999_999_999),
        Duration::new(1, 0),
        Duration::new(1, 1_000),
        Duration::new(2, 0),
        Duration::new(SPAN_SECS - 1, 999_999_999),
    ];
    for pair in durations.windows(2) {
        let lower = AtomicDuration::duration_to_i64(pair[0], Sign::Positive);
        let upper = AtomicDuration::duration_to_i64(pair[1], Sign::Positive);
        assert!(lower <= upper);
        let lower = AtomicDuration::duration_to_i64(pair[0], Sign::Negative);
        let upper = AtomicDuration::duration_to_i64(pair[1], Sign::Negative);
        assert!(lower >= upper);
    }
}

#[test]
fn atomic_duration_loads_what_it_was_made_with() {
    let cell = AtomicDuration::new(Duration::new(7, 250_000_999), Sign::Negative);
    assert_eq!(cell.load(Ordering::Relaxed), (Duration::new(7, 250_000_000), Sign::Negative));
    assert_eq!(cell.load(Ordering::Acquire), (Duration::new(7, 250_000_000), Sign::Negative));
    assert_eq!(cell.load(Ordering::SeqCst), (Duration::new(7, 250_000_000), Sign::Negative));
}

#[test]
fn atomic_duration_loads_what_was_stored_last() {
    let cell = AtomicDuration::new(Duration::ZERO, Sign::Positive);
    assert_eq!(cell.load(Ordering::Relaxed), (Duration::ZERO, Sign::Positive));
    cell.store(Duration::from_millis(1_500), Sign::Positive, Ordering::Relaxed);
    assert_eq!(cell.load(Ordering::Relaxed), (Duration::from_millis(1_500), Sign::Positive));
    cell.store(Duration::from_micros(3), Sign::Negative, Ordering::Release);
    assert_eq!(cell.load(Ordering::Acquire), (Duration::from_micros(3), Sign::Negative));
    cell.store(Duration::new(SPAN_SECS - 1, 999_999_000), Sign::Negative, Ordering::SeqCst);
    assert_eq!(
        cell.load(Ordering::SeqCst),
        (Duration::new(SPAN_SECS - 1, 999_999_000), Sign::Negative)
    );
}
