//! The live timer, the user's commands on it, and the snapshot a display renders.
use vstd::prelude::*;

use crate::clock::{clock_text, minutes_text};
use crate::pomodoro::{
    phase_icon,
    phase_name,
    session_glyphs,
    PomodoroConfig,
    PomodoroModel,
    PomodoroStatus,
    PomodoroTimer,
};
use crate::timer::{BasicTimer, BasicTimerModel, TimerStatus};

verus! {

/// Length of the countdown that switching to the basic mode sets up.
pub const DEFAULT_BASIC_SECS: u32 = 25 * 60;

/// The timer that is live: exactly one of the two kinds.
#[derive(Debug)]
pub enum ActiveTimer {
    Basic(BasicTimer),
    Pomodoro(PomodoroTimer),
}

/// What an `ActiveTimer` holds, as a plain value for contracts.
pub enum ActiveModel {
    Basic(BasicTimerModel),
    Pomodoro(PomodoroModel),
}

impl ActiveModel {
    pub open spec fn started(self) -> ActiveModel {
        match self {
            ActiveModel::Basic(t) => ActiveModel::Basic(t.started()),
            ActiveModel::Pomodoro(t) => ActiveModel::Pomodoro(t.started()),
        }
    }

    pub open spec fn paused(self) -> ActiveModel {
        match self {
            ActiveModel::Basic(t) => ActiveModel::Basic(t.paused()),
            ActiveModel::Pomodoro(t) => ActiveModel::Pomodoro(t.paused()),
        }
    }

    pub open spec fn reset(self) -> ActiveModel {
        match self {
            ActiveModel::Basic(t) => ActiveModel::Basic(t.reset()),
            ActiveModel::Pomodoro(t) => ActiveModel::Pomodoro(t.reset()),
        }
    }

    pub open spec fn ticked(self) -> ActiveModel {
        match self {
            ActiveModel::Basic(t) => ActiveModel::Basic(t.ticked()),
            ActiveModel::Pomodoro(t) => ActiveModel::Pomodoro(t.ticked()),
        }
    }
}

impl View for ActiveTimer {
    type V = ActiveModel;

    open spec fn view(&self) -> ActiveModel {
        match self {
            ActiveTimer::Basic(t) => ActiveModel::Basic(t@),
            ActiveTimer::Pomodoro(t) => ActiveModel::Pomodoro(t@),
        }
    }
}

/// The state that the commands and the periodic tick share.
#[derive(Debug)]
pub struct AppState {
    pub active: ActiveTimer,
}

impl Default for AppState {
    /// A fresh pomodoro timer with the standard configuration.
    fn default() -> (r: Self)
        ensures
            r.active@ == ActiveModel::Pomodoro(PomodoroModel::fresh(PomodoroConfig::standard())),
    {
        AppState { active: ActiveTimer::Pomodoro(PomodoroTimer::new(PomodoroConfig::default())) }
    }
}

/// A read-only, render-ready picture of the live timer.
#[derive(Debug, Clone)]
pub struct TimerSnapshot {
    pub mode: String,
    pub display: String,
    pub remaining_secs: u32,
    pub total_secs: u32,
    pub is_running: bool,
    pub is_finished: bool,
    pub phase: Option<String>,
    pub session_display: Option<String>,
    pub tray_title: String,
}

/// The tray title of a countdown: a stopwatch, a space, and the remaining time.
pub open spec fn basic_tray_title(t: BasicTimerModel) -> Seq<char> {
    seq!['\u{23F1}', ' '] + clock_text(t.remaining_secs as nat)
}

/// `snap` pictures the countdown `t`.
pub open spec fn describes_basic(snap: TimerSnapshot, t: BasicTimerModel) -> bool {
    &&& snap.mode@ == "basic"@
    &&& snap.display@ == clock_text(t.remaining_secs as nat)
    &&& snap.remaining_secs == t.remaining_secs
    &&& snap.total_secs == t.duration_secs
    &&& snap.is_running == (t.status == TimerStatus::Running)
    &&& snap.is_finished == (t.status == TimerStatus::Finished)
    &&& snap.phase is None
    &&& snap.session_display is None
    &&& snap.tray_title@ == basic_tray_title(t)
}

/// `snap` pictures the pomodoro timer `t`.
pub open spec fn describes_pomodoro(snap: TimerSnapshot, t: PomodoroModel) -> bool {
    &&& snap.mode@ == "pomodoro"@
    &&& snap.display@ == minutes_text(t.remaining_secs as nat)
    &&& snap.remaining_secs == t.remaining_secs
    &&& snap.total_secs == t.config.duration_of(t.phase)
    &&& snap.is_running == (t.status == PomodoroStatus::Running)
    &&& !snap.is_finished
    &&& snap.phase is Some && snap.phase->Some_0@ == phase_name(t.phase)
    &&& snap.session_display is Some && snap.session_display->Some_0@ == session_glyphs(
        t.config.sessions_before_long_break as nat,
        t.completed_sessions as nat,
    )
    &&& snap.tray_title@ == phase_icon(t.phase) + seq![' '] + minutes_text(t.remaining_secs as nat)
}

/// `snap` pictures the live timer `m`, whichever kind it is.
pub open spec fn describes(snap: TimerSnapshot, m: ActiveModel) -> bool {
    match m {
        ActiveModel::Basic(t) => describes_basic(snap, t),
        ActiveModel::Pomodoro(t) => describes_pomodoro(snap, t),
    }
}

impl TimerSnapshot {
    pub fn from_state(active: &ActiveTimer) -> (r: Self)
        ensures
            describes(r, active@),
    {
        match active {
            ActiveTimer::Basic(t) => Self::from_basic(t),
            ActiveTimer::Pomodoro(t) => Self::from_pomodoro(t),
        }
    }

    pub fn from_basic(t: &BasicTimer) -> (r: Self)
        ensures
            describes_basic(r, t@),
    {
        let mut tray_title = String::from_str("\u{23F1} ");
        proof {
            reveal_strlit("\u{23F1} ");
        }
        let time = t.display();
        tray_title.append(time.as_str());
        assert(tray_title@ =~= basic_tray_title(t@));
        TimerSnapshot {
            mode: String::from_str("basic"),
            display: t.display(),
            remaining_secs: t.remaining_secs(),
            total_secs: t.duration_secs(),
            is_running: t.status() == TimerStatus::Running,
            is_finished: t.is_finished(),
            phase: None,
            session_display: None,
            tray_title,
        }
    }

    pub fn from_pomodoro(t: &PomodoroTimer) -> (r: Self)
        ensures
            describes_pomodoro(r, t@),
    {
        TimerSnapshot {
            mode: String::from_str("pomodoro"),
            display: t.display(),
            remaining_secs: t.remaining_secs(),
            total_secs: t.phase_duration_secs(),
            is_running: t.status() == PomodoroStatus::Running,
            is_finished: false,
            phase: Some(t.phase().name()),
            session_display: Some(t.session_display()),
            tray_title: t.tray_title(),
        }
    }
}

pub fn do_start(state: &mut AppState) -> (r: TimerSnapshot)
    ensures
        final(state).active@ == old(state).active@.started(),
        describes(r, final(state).active@),
{
    match &mut state.active {
        ActiveTimer::Basic(t) => t.start(),
        ActiveTimer::Pomodoro(t) => t.start(),
    }
    TimerSnapshot::from_state(&state.active)
}

pub fn do_pause(state: &mut AppState) -> (r: TimerSnapshot)
    ensures
        final(state).active@ == old(state).active@.paused(),
        describes(r, final(state).active@),
{
    match &mut state.active {
        ActiveTimer::Basic(t) => t.pause(),
        ActiveTimer::Pomodoro(t) => t.pause(),
    }
    TimerSnapshot::from_state(&state.active)
}

pub fn do_reset(state: &mut AppState) -> (r: TimerSnapshot)
    ensures
        final(state).active@ == old(state).active@.reset(),
        describes(r, final(state).active@),
{
    match &mut state.active {
        ActiveTimer::Basic(t) => t.reset(),
        ActiveTimer::Pomodoro(t) => t.reset(),
    }
    TimerSnapshot::from_state(&state.active)
}

/// Retargets a live countdown to `secs`, idle, and pictures it; in pomodoro mode
/// there is nothing to retarget, the state is kept and nothing is returned.
pub fn do_set_duration(state: &mut AppState, secs: u32) -> (r: Option<TimerSnapshot>)
    ensures
        r is Some <==> old(state).active is Basic,
        old(state).active is Basic ==> {
            &&& final(state).active@ == ActiveModel::Basic(BasicTimerModel::fresh(secs))
            &&& describes(r->Some_0, final(state).active@)
        },
        !(old(state).active is Basic) ==> final(state).active@ == old(state).active@,
{
    if let ActiveTimer::Basic(t) = &mut state.active {
        t.set_duration(secs);
        Some(TimerSnapshot::from_basic(t))
    } else {
        None
    }
}

/// Replaces the live timer, whatever it was, with a fresh countdown of the default length.
pub fn do_switch_to_basic(state: &mut AppState) -> (r: TimerSnapshot)
    ensures
        final(state).active@ == ActiveModel::Basic(BasicTimerModel::fresh(DEFAULT_BASIC_SECS)),
        describes(r, final(state).active@),
{
    state.active = ActiveTimer::Basic(BasicTimer::new(DEFAULT_BASIC_SECS));
    TimerSnapshot::from_state(&state.active)
}

/// Replaces the live timer, whatever it was, with a fresh pomodoro timer of the
/// standard configuration.
pub fn do_switch_to_pomodoro(state: &mut AppState) -> (r: TimerSnapshot)
    ensures
        final(state).active@ == ActiveModel::Pomodoro(
            PomodoroModel::fresh(PomodoroConfig::standard()),
        ),
        describes(r, final(state).active@),
{
    state.active = ActiveTimer::Pomodoro(PomodoroTimer::new(PomodoroConfig::default()));
    TimerSnapshot::from_state(&state.active)
}

pub fn do_get_snapshot(state: &AppState) -> (r: TimerSnapshot)
    ensures
        describes(r, state.active@),
{
    TimerSnapshot::from_state(&state.active)
}

} // verus!
