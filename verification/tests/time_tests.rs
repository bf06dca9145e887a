use ffmtrans::time::{rescale, ticks_to_time, time_to_ticks, Rounding, TimeBase};

fn tb(num: u32, den: u32) -> TimeBase {
    TimeBase::new(num, den)
}

#[test]
fn truncate_discards_fractional_ticks() {
    // 999 ticks of 1/1000 s is 0.999 s: truncating into whole seconds gives 0.
    assert_eq!(rescale(999, tb(1, 1000), tb(1, 1), Rounding::Truncate), Some(0));
    assert_eq!(rescale(1999, tb(1, 1000), tb(1, 1), Rounding::Truncate), Some(1));
    assert_eq!(rescale(-999, tb(1, 1000), tb(1, 1), Rounding::Truncate), Some(0));
}

#[test]
fn nearest_rounds_ties_away_from_zero() {
    // 5 ticks of 1/2 s = 2.5 s = 7.5 ticks of 1/3 s: ties go away from zero.
    assert_eq!(rescale(5, tb(1, 2), tb(1, 3), Rounding::Nearest), Some(8));
    assert_eq!(rescale(-5, tb(1, 2), tb(1, 3), Rounding::Nearest), Some(-8));
    // 0.1 s at 1/30 into 1/90000: exactly 9000 ticks.
    assert_eq!(rescale(3, tb(1, 30), tb(1, 90000), Rounding::Nearest), Some(9000));
}

#[test]
fn round_trip_within_one_tick() {
    // Into a finer base and back: exact when the factor divides evenly.
    let a = tb(1, 30);
    let b = tb(1, 90000);
    for t in [0i64, 1, 7, 1000, -13] {
        let there = rescale(t, a, b, Rounding::Truncate).unwrap();
        let back = rescale(there, b, a, Rounding::Truncate).unwrap();
        assert!((back - t).abs() <= 1, "t={t} back={back}");
    }
    // A non-dividing factor (18/7): still within one tick.
    let a = tb(2, 7);
    let b = tb(1, 9);
    for t in [0i64, 1, 5, 100, 12345, -5, -100] {
        let there = rescale(t, a, b, Rounding::Truncate).unwrap();
        let back = rescale(there, b, a, Rounding::Truncate).unwrap();
        assert!((back - t).abs() <= 1, "t={t} back={back}");
    }
}

#[test]
fn rescale_reports_overflow_as_none() {
    // One tick is a million seconds; the result cannot fit 64-bit ticks of a
    // microsecond base.
    let from = tb(1000000, 1);
    let to = tb(1, 1000000);
    assert_eq!(rescale(i64::MAX, from, to, Rounding::Truncate), None);
    assert_eq!(rescale(i64::MIN, from, to, Rounding::Truncate), None);
    // Ordinary values still convert.
    assert_eq!(rescale(1, from, to, Rounding::Truncate), Some(1_000_000_000_000));
}

#[test]
fn instants_convert_between_bases() {
    // 2500 ticks of 1/1000 s is 2.5 s, which is 75 ticks of 1/30 s.
    let at = ticks_to_time(2500, tb(1, 1000));
    assert_eq!(time_to_ticks(at, tb(1, 30)), Some(75));
    assert_eq!(time_to_ticks(at, tb(1, 1000)), Some(2500));
    // Truncation toward zero.
    let at = ticks_to_time(2599, tb(1, 1000));
    assert_eq!(time_to_ticks(at, tb(1, 1)), Some(2));
}
