use focus_timer::pomodoro::{Phase, PhaseTransition, PomodoroConfig, PomodoroStatus, PomodoroTimer};

fn default_timer() -> PomodoroTimer {
    PomodoroTimer::new(PomodoroConfig::default())
}

fn fast_timer() -> PomodoroTimer {
    PomodoroTimer::new(PomodoroConfig {
        work_secs: 3,
        short_break_secs: 1,
        long_break_secs: 2,
        sessions_before_long_break: 4,
    })
}

#[test]
fn starts_in_work_phase() {
    let timer = default_timer();
    assert_eq!(timer.phase(), Phase::Work);
}

#[test]
fn work_phase_remaining_is_work_duration() {
    let timer = default_timer();
    assert_eq!(timer.remaining_secs(), 25 * 60);
}

#[test]
fn work_transitions_to_short_break() {
    let mut timer = fast_timer();
    timer.start();
    // tick 3 times to finish work phase
    timer.tick();
    timer.tick();
    let transition = timer.tick();
    assert_eq!(
        transition,
        Some(PhaseTransition {
            from: Phase::Work,
            to: Phase::ShortBreak
        })
    );
    assert_eq!(timer.phase(), Phase::ShortBreak);
    assert_eq!(timer.remaining_secs(), 1);
}

#[test]
fn work_transitions_to_long_break_after_4th() {
    let mut timer = fast_timer();
    timer.start();

    // Complete 3 work+short_break cycles
    for _ in 0..3 {
        // work (3 ticks)
        for _ in 0..3 {
            timer.tick();
        }
        // short break (1 tick)
        timer.tick();
    }

    // 4th work session (3 ticks)
    timer.tick();
    timer.tick();
    let transition = timer.tick();
    assert_eq!(
        transition,
        Some(PhaseTransition {
            from: Phase::Work,
            to: Phase::LongBreak
        })
    );
    assert_eq!(timer.phase(), Phase::LongBreak);
    assert_eq!(timer.remaining_secs(), 2);
}

#[test]
fn long_break_transitions_back_to_work() {
    let mut timer = fast_timer();
    timer.start();

    // Complete 4 work sessions to get to long break
    for _ in 0..3 {
        for _ in 0..3 {
            timer.tick();
        }
        timer.tick();
    }
    for _ in 0..3 {
        timer.tick();
    }

    // Now in long break (2 ticks)
    assert_eq!(timer.phase(), Phase::LongBreak);
    timer.tick();
    let transition = timer.tick();
    assert_eq!(
        transition,
        Some(PhaseTransition {
            from: Phase::LongBreak,
            to: Phase::Work
        })
    );
    assert_eq!(timer.phase(), Phase::Work);
}

#[test]
fn session_display_shows_dots() {
    let timer = default_timer();
    assert_eq!(timer.session_display(), "○ ○ ○ ○");
}

#[test]
fn session_display_after_one_completed() {
    let mut timer = fast_timer();
    timer.start();
    for _ in 0..3 {
        timer.tick();
    }
    assert_eq!(timer.session_display(), "● ○ ○ ○");
}

#[test]
fn tray_title_combines_icon_and_time() {
    let timer = default_timer();
    assert_eq!(timer.tray_title(), "🍅 25:00");
}

#[test]
fn tray_title_during_break() {
    let mut timer = fast_timer();
    timer.start();
    for _ in 0..3 {
        timer.tick();
    }
    assert_eq!(timer.tray_title(), "☕ 00:01");
}

#[test]
fn custom_config_uses_custom_durations() {
    let config = PomodoroConfig {
        work_secs: 50 * 60,
        short_break_secs: 10 * 60,
        long_break_secs: 30 * 60,
        sessions_before_long_break: 2,
    };
    let timer = PomodoroTimer::new(config);
    assert_eq!(timer.remaining_secs(), 50 * 60);
}

#[test]
fn pomodoro_paused_timer_does_not_tick() {
    let mut timer = fast_timer();
    timer.start();
    timer.tick();
    assert_eq!(timer.remaining_secs(), 2);
    timer.pause();
    timer.tick();
    assert_eq!(timer.remaining_secs(), 2);
}

#[test]
fn pomodoro_idle_timer_does_not_tick() {
    let mut timer = fast_timer();
    timer.tick();
    assert_eq!(timer.remaining_secs(), 3);
}

#[test]
fn reset_restores_initial_state() {
    let mut timer = fast_timer();
    timer.start();
    for _ in 0..3 {
        timer.tick();
    }
    timer.reset();
    assert_eq!(timer.phase(), Phase::Work);
    assert_eq!(timer.remaining_secs(), 3);
    assert_eq!(timer.completed_sessions(), 0);
    assert_eq!(timer.status(), PomodoroStatus::Idle);
}
