use focus_timer::commands::{
    do_get_snapshot, do_pause, do_reset, do_set_duration, do_start, do_switch_to_basic,
    do_switch_to_pomodoro, ActiveTimer, AppState, TimerSnapshot,
};
use focus_timer::pomodoro::{PomodoroConfig, PomodoroTimer};
use focus_timer::timer::BasicTimer;

// --- TimerSnapshot conversion tests ---

#[test]
fn from_basic_has_correct_fields() {
    let t = BasicTimer::new(300);
    let snap = TimerSnapshot::from_basic(&t);
    assert_eq!(snap.mode, "basic");
    assert!(!snap.is_running);
    assert!(!snap.is_finished);
    assert_eq!(snap.display, "05:00");
    assert_eq!(snap.remaining_secs, 300);
    assert_eq!(snap.total_secs, 300);
    assert_eq!(snap.tray_title, "⏱ 05:00");
    assert!(snap.phase.is_none());
    assert!(snap.session_display.is_none());
}

#[test]
fn from_pomodoro_has_correct_fields() {
    let t = PomodoroTimer::new(PomodoroConfig::default());
    let snap = TimerSnapshot::from_pomodoro(&t);
    assert_eq!(snap.mode, "pomodoro");
    assert!(!snap.is_running);
    assert!(!snap.is_finished);
    assert_eq!(snap.remaining_secs, 25 * 60);
    assert_eq!(snap.total_secs, 25 * 60);
    assert_eq!(snap.phase, Some("Work".to_string()));
    assert_eq!(snap.session_display, Some("○ ○ ○ ○".to_string()));
    assert!(snap.tray_title.contains("🍅"));
}

#[test]
fn from_state_dispatches_to_basic() {
    let active = ActiveTimer::Basic(BasicTimer::new(600));
    let snap = TimerSnapshot::from_state(&active);
    assert_eq!(snap.mode, "basic");
}

#[test]
fn from_state_dispatches_to_pomodoro() {
    let active = ActiveTimer::Pomodoro(PomodoroTimer::new(PomodoroConfig::default()));
    let snap = TimerSnapshot::from_state(&active);
    assert_eq!(snap.mode, "pomodoro");
}

// --- State transition tests (do_* functions) ---

#[test]
fn do_start_sets_running() {
    let mut state = AppState {
        active: ActiveTimer::Basic(BasicTimer::new(300)),
    };
    let snap = do_start(&mut state);
    assert!(snap.is_running);
}

#[test]
fn do_pause_stops_running() {
    let mut state = AppState {
        active: ActiveTimer::Basic(BasicTimer::new(300)),
    };
    do_start(&mut state);
    let snap = do_pause(&mut state);
    assert!(!snap.is_running);
}

#[test]
fn do_reset_restores_full_duration() {
    let mut state = AppState {
        active: ActiveTimer::Basic(BasicTimer::new(300)),
    };
    do_start(&mut state);
    // Tick to reduce remaining
    if let ActiveTimer::Basic(t) = &mut state.active {
        t.tick();
    }
    let snap = do_reset(&mut state);
    assert_eq!(snap.remaining_secs, 300);
    assert_eq!(snap.total_secs, 300);
    assert!(!snap.is_running);
}

#[test]
fn do_set_duration_on_basic_updates_duration() {
    let mut state = AppState {
        active: ActiveTimer::Basic(BasicTimer::new(300)),
    };
    let snap = do_set_duration(&mut state, 600);
    assert!(snap.is_some());
    let snap = snap.unwrap();
    assert_eq!(snap.remaining_secs, 600);
    assert_eq!(snap.total_secs, 600);
}

#[test]
fn do_set_duration_on_pomodoro_returns_none() {
    let mut state = AppState::default();
    let snap = do_set_duration(&mut state, 600);
    assert!(snap.is_none());
}

#[test]
fn do_switch_to_basic_creates_basic_timer() {
    let mut state = AppState::default(); // starts as pomodoro
    let snap = do_switch_to_basic(&mut state);
    assert_eq!(snap.mode, "basic");
    assert_eq!(snap.remaining_secs, 25 * 60);
}

#[test]
fn do_switch_to_pomodoro_creates_pomodoro_timer() {
    let mut state = AppState {
        active: ActiveTimer::Basic(BasicTimer::new(300)),
    };
    let snap = do_switch_to_pomodoro(&mut state);
    assert_eq!(snap.mode, "pomodoro");
    assert_eq!(snap.remaining_secs, 25 * 60);
    assert_eq!(snap.phase, Some("Work".to_string()));
}

#[test]
fn start_pause_reset_sequence() {
    let mut state = AppState {
        active: ActiveTimer::Basic(BasicTimer::new(300)),
    };
    let snap = do_start(&mut state);
    assert!(snap.is_running);

    let snap = do_pause(&mut state);
    assert!(!snap.is_running);

    let snap = do_reset(&mut state);
    assert!(!snap.is_running);
    assert_eq!(snap.remaining_secs, 300);
}

// --- AppState default test ---

#[test]
fn app_state_default_is_pomodoro() {
    let state = AppState::default();
    let snap = do_get_snapshot(&state);
    assert_eq!(snap.mode, "pomodoro");
}
