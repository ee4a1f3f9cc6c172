use shader_viewer::clock::ClockState;

#[test]
fn new_clock_has_nothing_elapsed() {
    let clock = ClockState::new(1_000);
    assert_eq!(clock, ClockState { elapsed_total: 0, last_tick: 1_000 });
}

#[test]
fn advance_returns_the_delta_and_adds_it() {
    let mut clock = ClockState::new(1_000);
    let dt = clock.advance(17_000);
    assert_eq!(dt, 16_000);
    assert_eq!(clock, ClockState { elapsed_total: 16_000, last_tick: 17_000 });
    let dt = clock.advance(20_500);
    assert_eq!(dt, 3_500);
    assert_eq!(clock, ClockState { elapsed_total: 19_500, last_tick: 20_500 });
}

#[test]
fn advance_at_the_same_instant_adds_nothing() {
    let mut clock = ClockState::new(42);
    assert_eq!(clock.advance(42), 0);
    assert_eq!(clock, ClockState { elapsed_total: 0, last_tick: 42 });
}

#[test]
fn advance_with_an_earlier_reading_keeps_the_stored_instant() {
    let mut clock = ClockState::new(500);
    assert_eq!(clock.advance(900), 400);
    assert_eq!(clock.advance(100), 0);
    assert_eq!(clock, ClockState { elapsed_total: 400, last_tick: 900 });
}

#[test]
fn advance_reaches_the_last_instant_without_overflow() {
    let mut clock = ClockState::new(0);
    assert_eq!(clock.advance(u64::MAX), u64::MAX);
    assert_eq!(clock, ClockState { elapsed_total: u64::MAX, last_tick: u64::MAX });
    assert_eq!(clock.advance(u64::MAX), 0);
    assert_eq!(clock.elapsed_total, u64::MAX);
}

#[test]
fn elapsed_total_is_the_sum_of_the_deltas() {
    let readings: [u64; 6] = [10, 10, 35, 20, 90, 1_000];
    let mut clock = ClockState::new(7);
    let mut sum: u64 = 0;
    let mut previous_total: u64 = 0;
    let mut previous_tick: u64 = 7;
    for now in readings {
        sum += clock.advance(now);
        assert_eq!(clock.elapsed_total, sum);
        assert!(clock.elapsed_total >= previous_total);
        assert!(clock.last_tick >= previous_tick);
        previous_total = clock.elapsed_total;
        previous_tick = clock.last_tick;
    }
    assert_eq!(sum, 993);
    assert_eq!(clock.last_tick, 1_000);
}
