use drill::pacing::rampup_delay;

#[test]
fn delay_is_the_stagger_times_the_index() {
    assert_eq!(rampup_delay(10, 5, 0), 0);
    assert_eq!(rampup_delay(10, 5, 1), 2);
    assert_eq!(rampup_delay(10, 5, 4), 8);
}

#[test]
fn stagger_is_rounded_down() {
    assert_eq!(rampup_delay(10, 4, 3), 6);
    assert_eq!(rampup_delay(3, 4, 3), 0);
}

#[test]
fn no_rampup_no_delay() {
    for i in 0..10 {
        assert_eq!(rampup_delay(0, 10, i), 0);
    }
    assert_eq!(rampup_delay(-3, 10, 4), 0);
    assert_eq!(rampup_delay(0, 0, 0), 0);
}

#[test]
fn delays_never_decrease() {
    let mut last = 0;
    for i in 0..100 {
        let d = rampup_delay(250, 100, i);
        assert!(d >= last);
        assert!(d < 250);
        last = d;
    }
}

#[test]
fn the_largest_windows_do_not_overflow() {
    assert_eq!(rampup_delay(i64::MAX, 1, 0), 0);
    assert_eq!(rampup_delay(i64::MAX, 2, 1), (i64::MAX / 2) as u64);
    assert_eq!(rampup_delay(i64::MAX, i64::MAX, i64::MAX - 1), (i64::MAX - 1) as u64);
    assert_eq!(rampup_delay(1, i64::MAX, i64::MAX - 1), 0);
}

#[test]
fn the_delays_form_an_arithmetic_progression() {
    for i in 0..9 {
        assert_eq!(rampup_delay(30, 10, i + 1) - rampup_delay(30, 10, i), 3);
    }
    assert_eq!(rampup_delay(30, 10, 9), 27);
}
