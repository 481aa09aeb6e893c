use focus_timer::timer::{BasicTimer, TimerStatus};

#[test]
fn new_timer_has_full_remaining_seconds() {
    let timer = BasicTimer::new(300);
    assert_eq!(timer.remaining_secs(), 300);
}

#[test]
fn tick_reduces_remaining_by_one() {
    let mut timer = BasicTimer::new(300);
    timer.start();
    timer.tick();
    assert_eq!(timer.remaining_secs(), 299);
}

#[test]
fn remaining_never_goes_below_zero() {
    let mut timer = BasicTimer::new(1);
    timer.start();
    timer.tick();
    timer.tick();
    assert_eq!(timer.remaining_secs(), 0);
}

#[test]
fn is_finished_when_remaining_is_zero() {
    let mut timer = BasicTimer::new(1);
    timer.start();
    timer.tick();
    assert!(timer.is_finished());
    assert_eq!(timer.status(), TimerStatus::Finished);
}

#[test]
fn not_finished_when_remaining_is_positive() {
    let timer = BasicTimer::new(300);
    assert!(!timer.is_finished());
}

#[test]
fn reset_restores_full_duration() {
    let mut timer = BasicTimer::new(300);
    timer.start();
    timer.tick();
    timer.tick();
    timer.reset();
    assert_eq!(timer.remaining_secs(), 300);
    assert_eq!(timer.status(), TimerStatus::Idle);
}

#[test]
fn formats_as_minutes_and_seconds() {
    let timer = BasicTimer::new(125); // 2:05
    assert_eq!(timer.display(), "02:05");
}

#[test]
fn formats_zero() {
    let timer = BasicTimer::new(0);
    assert_eq!(timer.display(), "00:00");
}

#[test]
fn formats_with_hours_when_long() {
    let timer = BasicTimer::new(3661); // 1:01:01
    assert_eq!(timer.display(), "1:01:01");
}

#[test]
fn timer_paused_timer_does_not_tick() {
    let mut timer = BasicTimer::new(300);
    timer.start();
    timer.tick();
    assert_eq!(timer.remaining_secs(), 299);
    timer.pause();
    timer.tick();
    assert_eq!(timer.remaining_secs(), 299);
}

#[test]
fn timer_idle_timer_does_not_tick() {
    let mut timer = BasicTimer::new(300);
    timer.tick();
    assert_eq!(timer.remaining_secs(), 300);
}

#[test]
fn set_duration_resets_timer() {
    let mut timer = BasicTimer::new(300);
    timer.start();
    timer.tick();
    timer.set_duration(600);
    assert_eq!(timer.remaining_secs(), 600);
    assert_eq!(timer.status(), TimerStatus::Idle);
}
