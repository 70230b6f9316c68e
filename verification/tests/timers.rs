use combat_core::timer::{Timer, TimerMode, TICKS_PER_SECOND};

#[test]
fn once_timer_clamps_and_stays_finished() {
    let mut t = Timer::new(10, TimerMode::Once);
    t.tick(4);
    assert_eq!(t.elapsed, 4);
    assert!(!t.is_finished());
    assert!(!t.just_finished());
    t.tick(7);
    assert_eq!(t.elapsed, 10);
    assert!(t.is_finished());
    assert!(t.just_finished());
    t.tick(5);
    assert_eq!(t.elapsed, 10);
    assert!(t.is_finished());
    assert!(!t.just_finished());
}

#[test]
fn once_timer_never_finishes_early() {
    // A three-second lifespan is not finished until three full seconds
    // accumulated, however the time is split.
    let mut t = Timer::from_seconds(3, TimerMode::Once);
    let mut total: u64 = 0;
    for delta in [500u64, 999, 1, 1000, 400] {
        t.tick(delta);
        total += delta;
        assert_eq!(t.is_finished(), total >= 3 * TICKS_PER_SECOND);
    }
}

#[test]
fn repeating_timer_wraps_and_counts() {
    let mut t = Timer::new(10, TimerMode::Repeating);
    t.tick(25);
    assert!(t.is_finished());
    assert!(t.just_finished());
    assert_eq!(t.times_finished_this_tick, 2);
    assert_eq!(t.elapsed, 5);
    t.tick(3);
    assert!(!t.is_finished());
    assert!(!t.just_finished());
    assert_eq!(t.elapsed, 8);
    t.tick(2);
    assert!(t.just_finished());
    assert_eq!(t.times_finished_this_tick, 1);
    assert_eq!(t.elapsed, 0);
}

#[test]
fn reset_rewinds_the_cycle() {
    let mut t = Timer::new(10, TimerMode::Once);
    t.tick(10);
    assert!(t.is_finished());
    t.reset();
    assert_eq!(t.elapsed, 0);
    assert!(!t.is_finished());
    assert!(!t.just_finished());
}
