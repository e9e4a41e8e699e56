use turn_timer::clock::SessionClock;

#[test]
fn a_new_clock_is_paused_at_zero() {
    let clock = SessionClock::new();
    assert!(!clock.is_active());
    assert_eq!(clock.global_timer(), 0);
    assert_eq!(clock.reading(), 0);
}

#[test]
fn a_paused_clock_stands_still() {
    let mut clock = SessionClock::new();
    clock.tick(100);
    clock.tick(2_500);
    assert_eq!(clock.reading(), 2_500);
    assert_eq!(clock.global_timer(), 0);
}

#[test]
fn a_running_clock_follows_the_ticker() {
    let mut clock = SessionClock::new();
    clock.tick(1_000);
    clock.toggle();
    assert!(clock.is_active());
    assert_eq!(clock.global_timer(), 0);
    clock.tick(1_100);
    assert_eq!(clock.global_timer(), 100);
    clock.tick(4_000);
    assert_eq!(clock.global_timer(), 3_000);
}

#[test]
fn toggling_does_not_move_the_session_time() {
    let mut clock = SessionClock::new();
    clock.tick(700);
    clock.toggle();
    clock.tick(1_900);
    let before = clock.global_timer();
    assert_eq!(before, 1_200);
    clock.toggle();
    assert!(!clock.is_active());
    assert_eq!(clock.global_timer(), before);
    clock.toggle();
    assert!(clock.is_active());
    assert_eq!(clock.global_timer(), before);
}

#[test]
fn a_pause_is_not_counted() {
    let mut clock = SessionClock::new();
    clock.toggle();
    clock.tick(5_000);
    clock.toggle();
    clock.tick(60_000);
    assert_eq!(clock.global_timer(), 5_000);
    clock.toggle();
    assert_eq!(clock.global_timer(), 5_000);
    clock.tick(63_000);
    assert_eq!(clock.global_timer(), 8_000);
}

#[test]
fn a_stale_reading_is_ignored() {
    let mut clock = SessionClock::new();
    clock.toggle();
    clock.tick(900);
    clock.tick(400);
    assert_eq!(clock.reading(), 900);
    assert_eq!(clock.global_timer(), 900);
}

#[test]
fn the_session_time_never_decreases() {
    let mut clock = SessionClock::new();
    let mut last = clock.global_timer();
    let readings: [u64; 12] =
        [0, 10, 10, 250, 249, 1_000, 5_000, 5_001, 4_000, 9_999, 10_000, u64::MAX];
    for (step, now) in readings.iter().enumerate() {
        if step % 3 == 1 {
            clock.toggle();
            assert_eq!(clock.global_timer(), last);
        }
        let active = clock.is_active();
        clock.tick(*now);
        let after = clock.global_timer();
        assert!(after >= last);
        if !active {
            assert_eq!(after, last);
        }
        last = after;
    }
}

#[test]
fn the_largest_reading_does_not_overflow() {
    let mut clock = SessionClock::new();
    clock.toggle();
    clock.tick(u64::MAX);
    assert_eq!(clock.global_timer(), u64::MAX);
    clock.toggle();
    clock.toggle();
    clock.tick(u64::MAX);
    assert_eq!(clock.global_timer(), u64::MAX);
}
