use gax::Backoff;

#[test]
fn default_configuration() {
    let b = Backoff::default();
    assert_eq!(b.initial, 250_000);
    assert_eq!(b.max, 32_000_000);
    assert_eq!(b.multiplier_num, 13);
    assert_eq!(b.multiplier_den, 10);
    assert_eq!(b.cur, 0);
}

#[test]
fn new_sets_fields() {
    let b = Backoff::new(1_000, 2_000_000, 3, 2);
    assert_eq!(b.initial, 1_000);
    assert_eq!(b.max, 2_000_000);
    assert_eq!(b.multiplier_num, 3);
    assert_eq!(b.multiplier_den, 2);
    assert_eq!(b.cur, 0);
}

#[test]
fn draws_stay_in_envelope_and_nonzero() {
    let mut b = Backoff::default();
    let mut envelope: u64 = b.initial;
    for _ in 0..200 {
        let before = if b.cur == 0 { b.initial } else { b.cur };
        assert!(before >= envelope, "envelope shrank");
        envelope = before;
        let d = b.duration();
        assert!(d >= 1, "a zero-length backoff is disallowed");
        assert!(d <= before, "draw above the envelope");
        assert!(b.cur <= b.max, "envelope above the cap");
    }
}

#[test]
fn first_draw_samples_from_initial() {
    // With an initial envelope of exactly 1ns the first draw has only
    // one possible value.
    let mut b = Backoff::new(1, 1_000_000, 13, 10);
    let d = b.duration();
    assert_eq!(d, 1);
}

#[test]
fn envelope_update_is_truncating() {
    let mut b = Backoff::new(1_000, 32_000_000, 13, 10);
    b.duration();
    assert_eq!(b.cur, 1_300);
    let mut b2 = Backoff::new(999, 32_000_000, 13, 10);
    b2.duration();
    // 999 * 13 / 10 = 1298.7, truncated
    assert_eq!(b2.cur, 1_298);
}

#[test]
fn envelope_is_clamped_to_max() {
    let mut b = Backoff::new(100, 110, 13, 10);
    b.duration();
    assert_eq!(b.cur, 110);
}

#[test]
fn envelope_converges_to_max_and_stays() {
    let mut b = Backoff::new(250_000, 32_000_000, 13, 10);
    let mut reached = false;
    for _ in 0..200 {
        b.duration();
        if b.cur == 32_000_000 {
            reached = true;
            break;
        }
    }
    assert!(reached, "envelope never reached the cap");
    for _ in 0..10 {
        b.duration();
        assert_eq!(b.cur, 32_000_000, "envelope left the cap");
    }
}

#[test]
fn backoff_states_are_independent() {
    let mut a = Backoff::default();
    let b = Backoff::default();
    for _ in 0..100 {
        a.duration();
    }
    assert_eq!(a.cur, 32_000_000);
    // Exhausting one sequence leaves the other untouched.
    assert_eq!(b.cur, 0);
    let mut b = b;
    let d = b.duration();
    assert!(1 <= d && d <= 250_000);
    assert_eq!(b.cur, 325_000);
}
