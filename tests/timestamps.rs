use libavcodec::{rescale, rescale_or_unset, rescale_rnd, Rational, Rounding, NOPTS_VALUE};

#[test]
fn rescale_converts_between_clocks() {
    let ms = Rational::new(1, 1000);
    let mpeg = Rational::new(1, 90000);
    assert_eq!(rescale(90000, mpeg, ms), Some(1000));
    assert_eq!(rescale(1, ms, mpeg), Some(90));
    assert_eq!(rescale(-90, mpeg, ms), Some(-1));
}

#[test]
fn rescale_rounds_halves_away_from_zero() {
    let tenth = Rational::new(1, 10);
    let one = Rational::new(1, 1);
    assert_eq!(rescale(5, tenth, one), Some(1));
    assert_eq!(rescale(4, tenth, one), Some(0));
    assert_eq!(rescale(-5, tenth, one), Some(-1));
    assert_eq!(rescale(-4, tenth, one), Some(0));
    assert_eq!(rescale(15, tenth, one), Some(2));
}

#[test]
fn unset_timestamp_passes_unchanged() {
    let a = Rational::new(1, 44100);
    let b = Rational::new(1, 16000);
    assert_eq!(rescale(NOPTS_VALUE, a, b), Some(NOPTS_VALUE));
    assert_eq!(rescale_or_unset(NOPTS_VALUE, a, b), NOPTS_VALUE);
}

#[test]
fn out_of_range_result_is_refused() {
    let second = Rational::new(1, 1);
    let micro = Rational::new(1, 1_000_000);
    assert_eq!(rescale(i64::MAX, second, micro), None);
    assert_eq!(rescale_or_unset(i64::MAX, second, micro), NOPTS_VALUE);
    assert_eq!(rescale(i64::MAX, second, second), Some(i64::MAX));
}

#[test]
fn round_trip_through_a_finer_clock() {
    let a = Rational::new(1, 16000);
    let b = Rational::new(1, 44100);
    for ts in [0i64, 1, 2, 3, 7, 999, 16000, 123_456_789, -5, -16001] {
        let there = rescale(ts, a, b).unwrap();
        assert_eq!(rescale(there, b, a), Some(ts));
    }
    let c = Rational::new(3, 7);
    let d = Rational::new(2, 5);
    for ts in [0i64, 1, 10, 1_000_003, -77] {
        let there = rescale(ts, c, d).unwrap();
        assert_eq!(rescale(there, d, c), Some(ts));
    }
}

#[test]
fn round_trip_through_a_coarser_clock_can_lose_ticks() {
    let ms = Rational::new(1, 1000);
    let tenth = Rational::new(1, 10);
    let there = rescale(5, ms, tenth).unwrap();
    assert_eq!(there, 0);
    assert_eq!(rescale(there, tenth, ms), Some(0));
}

#[test]
fn rescale_rnd_rounding_modes() {
    assert_eq!(rescale_rnd(7, 1, 2, Rounding::Zero), Some(3));
    assert_eq!(rescale_rnd(-7, 1, 2, Rounding::Zero), Some(-3));
    assert_eq!(rescale_rnd(7, 1, 2, Rounding::Inf), Some(4));
    assert_eq!(rescale_rnd(-7, 1, 2, Rounding::Inf), Some(-4));
    assert_eq!(rescale_rnd(7, 1, 2, Rounding::Down), Some(3));
    assert_eq!(rescale_rnd(-7, 1, 2, Rounding::Down), Some(-4));
    assert_eq!(rescale_rnd(7, 1, 2, Rounding::Up), Some(4));
    assert_eq!(rescale_rnd(-7, 1, 2, Rounding::Up), Some(-3));
    assert_eq!(rescale_rnd(7, 1, 2, Rounding::NearInf), Some(4));
    assert_eq!(rescale_rnd(6, 1, 2, Rounding::Up), Some(3));
    assert_eq!(rescale_rnd(i64::MAX, i64::MAX, 1, Rounding::Zero), None);
    assert_eq!(rescale_rnd(i64::MAX, i64::MAX, i64::MAX, Rounding::Zero), Some(i64::MAX));
}

#[test]
fn rational_parts() {
    let r = Rational::new(1001, 30000);
    assert_eq!(r.num(), 1001);
    assert_eq!(r.den(), 30000);
}
