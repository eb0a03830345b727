use arith_drill::generator::{
    magnitude_range, next_distinct_value, random_fixed_digits_no_leading_zero,
    random_fixed_digits_no_leading_zero_capped, random_number_with_constraints, stops_at,
    value_from_draws,
};

#[test]
fn magnitude_ranges() {
    assert_eq!(magnitude_range(1), (1, 10));
    assert_eq!(magnitude_range(2), (10, 100));
    assert_eq!(magnitude_range(18), (100_000_000_000_000_000, 1_000_000_000_000_000_000));
}

#[test]
fn fixed_digit_draws_have_their_digit_count() {
    let mut rng = rand::thread_rng();
    for d in 1..=18u32 {
        let (lo, hi) = magnitude_range(d);
        for _ in 0..200 {
            let m = random_fixed_digits_no_leading_zero(&mut rng, d);
            assert!(m >= lo && m < hi);
            assert_eq!(m.to_string().len() as u32, d);
        }
    }
}

#[test]
fn single_digit_draws_cover_one_to_nine() {
    let mut rng = rand::thread_rng();
    let mut seen = [false; 10];
    for _ in 0..2000 {
        seen[random_fixed_digits_no_leading_zero(&mut rng, 1) as usize] = true;
    }
    assert!(!seen[0]);
    assert!(seen[1..].iter().all(|s| *s));
}

#[test]
fn capped_draws() {
    let mut rng = rand::thread_rng();
    assert_eq!(random_fixed_digits_no_leading_zero_capped(&mut rng, 1, 0), None);
    assert_eq!(random_fixed_digits_no_leading_zero_capped(&mut rng, 3, 99), None);
    assert_eq!(random_fixed_digits_no_leading_zero_capped(&mut rng, 3, 100), Some(100));
    for _ in 0..200 {
        let m = random_fixed_digits_no_leading_zero_capped(&mut rng, 1, 4).unwrap();
        assert!((1..=4).contains(&m));
        let m = random_fixed_digits_no_leading_zero_capped(&mut rng, 2, u64::MAX).unwrap();
        assert!((10..=99).contains(&m));
    }
}

#[test]
fn first_value_and_disallowed_negatives_are_positive() {
    let mut rng = rand::thread_rng();
    for _ in 0..500 {
        assert!(random_number_with_constraints(&mut rng, 2, true, 0, 1_000) > 0);
        assert!(random_number_with_constraints(&mut rng, 2, false, 5, 1_000) > 0);
        assert!(random_number_with_constraints(&mut rng, 2, true, 5, 0) > 0);
    }
}

#[test]
fn negatives_stay_within_running_sum() {
    let mut rng = rand::thread_rng();
    let mut saw_negative = false;
    for _ in 0..2000 {
        let v = random_number_with_constraints(&mut rng, 2, true, 3, 15);
        assert!(v.abs() >= 10 && v.abs() <= 99);
        if v < 0 {
            saw_negative = true;
            assert!(v >= -15);
        }
    }
    assert!(saw_negative);
    // No two-digit magnitude fits a sum of 9: the value is positive.
    for _ in 0..200 {
        assert!(random_number_with_constraints(&mut rng, 2, true, 3, 9) > 0);
    }
}

#[test]
fn distinct_draw_avoids_previous_value() {
    let mut rng = rand::thread_rng();
    for _ in 0..500 {
        let (v, draws) = next_distinct_value(&mut rng, 1, false, 1, 50, Some(5));
        assert!(!draws.is_empty() && draws.len() <= 256);
        assert_eq!(*draws.last().unwrap(), v);
        assert!(draws[..draws.len() - 1].iter().all(|d| *d == 5));
        if draws.len() < 256 {
            assert_ne!(v, 5);
        }
        let (_, draws) = next_distinct_value(&mut rng, 1, false, 0, 0, None);
        assert_eq!(draws.len(), 1);
    }
}

#[test]
fn drawing_stops_on_a_new_value_or_the_last_attempt() {
    assert!(stops_at(3, None, 1));
    assert!(stops_at(3, Some(4), 1));
    assert!(!stops_at(4, Some(4), 1));
    assert!(!stops_at(4, Some(4), 255));
    assert!(stops_at(4, Some(4), 256));
}

#[test]
fn value_from_draws_cases() {
    // Negative tried and fitting.
    assert_eq!(value_from_draws(2, true, 3, 50, true, Some(42), 17), -42);
    // Coin for positive.
    assert_eq!(value_from_draws(2, true, 3, 50, false, Some(42), 17), 17);
    // First position: never negative.
    assert_eq!(value_from_draws(2, true, 0, 50, true, Some(42), 17), 17);
    // Negatives not allowed.
    assert_eq!(value_from_draws(2, false, 3, 50, true, Some(42), 17), 17);
    // No two-digit magnitude fits a sum of 9.
    assert_eq!(value_from_draws(2, true, 3, 9, true, None, 17), 17);
    // Running sum of zero leaves no room.
    assert_eq!(value_from_draws(1, true, 3, 0, true, None, 8), 8);
    assert_eq!(value_from_draws(1, true, 3, 4, true, Some(4), 8), -4);
}
