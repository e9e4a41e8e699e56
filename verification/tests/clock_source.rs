use turn_timer::clock::SessionClock;
use turn_timer::clock_source::ClockSource;
use turn_timer::config::Config;
use turn_timer::engine::Engine;

#[test]
fn a_fed_clock_takes_the_reading_it_is_given() {
    let mut source = ClockSource::start();
    let mut clock = SessionClock::new();
    clock.toggle();
    let first = source.feed(&mut clock);
    assert_eq!(clock.reading(), first);
    assert_eq!(clock.global_timer(), first);
    let second = source.feed(&mut clock);
    assert!(second >= first);
    assert_eq!(clock.reading(), second);
    assert_eq!(clock.global_timer(), second);
}

#[test]
fn a_fed_paused_clock_stands_still() {
    let mut source = ClockSource::start();
    let mut clock = SessionClock::new();
    let now = source.feed(&mut clock);
    assert_eq!(clock.reading(), now);
    assert_eq!(clock.global_timer(), 0);
}

#[test]
fn the_ticker_counts_real_time() {
    let mut source = ClockSource::start();
    let mut clock = SessionClock::new();
    let mut now = source.feed(&mut clock);
    let mut last = now;
    let mut reads: u64 = 0;
    while now < 5 {
        now = source.feed(&mut clock);
        assert!(now >= last);
        last = now;
        reads += 1;
        assert!(reads < 4_000_000_000);
    }
    assert_eq!(clock.reading(), now);
    assert!(now < 15_000);
}

#[test]
fn a_driven_engine_changes_only_its_clock() {
    let mut source = ClockSource::start();
    let mut engine = Engine::new();
    let mut config = Config::new();
    config.set_player_count(2).unwrap();
    engine.configure(&config).unwrap();
    engine.toggle_pause();
    let now = source.drive(&mut engine);
    assert_eq!(engine.global_timer(), now);
    assert_eq!(engine.active_player(), 0);
    assert_eq!(engine.turn_start(), 0);
    assert_eq!(engine.player_count(), 2);
}

#[test]
fn the_ticker_is_read_ten_times_a_second() {
    assert_eq!(turn_timer::clock_source::TICK_PERIOD_MILLIS, 100);
}

#[test]
fn a_measurement_becomes_the_reading() {
    let mut source = ClockSource::start();
    assert_eq!(source.take_measurement(0), 0);
    assert_eq!(source.take_measurement(100), 100);
    assert_eq!(source.take_measurement(100), 100);
    assert_eq!(source.take_measurement(250), 250);
    assert_eq!(source.take_measurement(u64::MAX as u128 - 1), u64::MAX - 1);
}

#[test]
fn a_measurement_below_the_latest_reading_is_not_handed_out() {
    let mut source = ClockSource::start();
    assert_eq!(source.take_measurement(700), 700);
    assert_eq!(source.take_measurement(699), 700);
    assert_eq!(source.take_measurement(0), 700);
    assert_eq!(source.take_measurement(701), 701);
}

#[test]
fn a_measurement_beyond_the_range_is_held_at_the_largest_reading() {
    let mut source = ClockSource::start();
    assert_eq!(source.take_measurement(u64::MAX as u128), u64::MAX);
    let mut source = ClockSource::start();
    assert_eq!(source.take_measurement(u64::MAX as u128 + 1), u64::MAX);
    assert_eq!(source.take_measurement(u128::MAX), u64::MAX);
    assert_eq!(source.take_measurement(5), u64::MAX);
}

#[test]
fn the_ticker_does_not_fall_behind_what_it_has_handed_out() {
    let mut source = ClockSource::start();
    let mut clock = SessionClock::new();
    clock.toggle();
    assert_eq!(source.take_measurement(3_600_000), 3_600_000);
    // the real time since the start is far less than an hour
    assert_eq!(source.feed(&mut clock), 3_600_000);
    assert_eq!(clock.global_timer(), 3_600_000);
    let mut engine = Engine::new();
    assert_eq!(source.drive(&mut engine), 3_600_000);
}
