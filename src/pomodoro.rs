//! A timer that cycles through work phases and breaks, a long break after every
//! so many work phases.
use vstd::prelude::*;

use crate::clock::{format_minutes, minutes_text};

verus! {

#[derive(Debug, Clone, Copy, PartialEq, Eq, Structural)]
pub enum Phase {
    Work,
    ShortBreak,
    LongBreak,
}

/// The name of a phase, as it is shown and reported.
pub open spec fn phase_name(phase: Phase) -> Seq<char> {
    match phase {
        Phase::Work => "Work"@,
        Phase::ShortBreak => "ShortBreak"@,
        Phase::LongBreak => "LongBreak"@,
    }
}

impl Phase {
    pub fn name(&self) -> (r: String)
        ensures
            r@ == phase_name(*self),
    {
        match self {
            Phase::Work => String::from_str("Work"),
            Phase::ShortBreak => String::from_str("ShortBreak"),
            Phase::LongBreak => String::from_str("LongBreak"),
        }
    }

    /// Whether the phase is a break, short or long.
    pub fn is_break(&self) -> (r: bool)
        ensures
            r == (*self != Phase::Work),
    {
        !matches!(self, Phase::Work)
    }
}

/// The move from one phase to the next, reported by the tick that makes it.
#[derive(Debug, Clone, Copy, PartialEq, Eq, Structural)]
pub struct PhaseTransition {
    pub from: Phase,
    pub to: Phase,
}

#[derive(Debug, Clone, Copy)]
pub struct PomodoroConfig {
    pub work_secs: u32,
    pub short_break_secs: u32,
    pub long_break_secs: u32,
    pub sessions_before_long_break: u32,
}

impl PomodoroConfig {
    /// The configured length of `phase`.
    pub open spec fn duration_of(self, phase: Phase) -> u32 {
        match phase {
            Phase::Work => self.work_secs,
            Phase::ShortBreak => self.short_break_secs,
            Phase::LongBreak => self.long_break_secs,
        }
    }
}

impl PomodoroConfig {
    /// The configuration that `default` gives.
    pub open spec fn standard() -> PomodoroConfig {
        PomodoroConfig {
            work_secs: (25 * 60) as u32,
            short_break_secs: (5 * 60) as u32,
            long_break_secs: (15 * 60) as u32,
            sessions_before_long_break: 4,
        }
    }
}

impl Default for PomodoroConfig {
    /// Twenty-five minutes of work, five of short break, fifteen of long break,
    /// and a long break after every fourth work phase.
    fn default() -> (r: Self)
        ensures
            r == PomodoroConfig::standard(),
            r.work_secs == 25 * 60,
            r.short_break_secs == 5 * 60,
            r.long_break_secs == 15 * 60,
            r.sessions_before_long_break == 4,
    {
        PomodoroConfig {
            work_secs: 25 * 60,
            short_break_secs: 5 * 60,
            long_break_secs: 15 * 60,
            sessions_before_long_break: 4,
        }
    }
}

#[derive(Debug, Clone, Copy, PartialEq, Eq, Structural)]
pub enum PomodoroStatus {
    Idle,
    Running,
    Paused,
}

/// Whether a work phase that brings the count to `completed` ends in a long break:
/// when `completed` is a multiple of `per_cycle` (never, for a zero `per_cycle`).
pub open spec fn long_break_due(completed: u32, per_cycle: u32) -> bool {
    if per_cycle == 0 {
        completed == 0
    } else {
        completed % per_cycle == 0
    }
}

/// The phase that follows `from`, with `completed` work phases counted so far.
pub open spec fn next_phase(from: Phase, completed: u32, per_cycle: u32) -> Phase {
    match from {
        Phase::Work => if long_break_due(completed, per_cycle) {
            Phase::LongBreak
        } else {
            Phase::ShortBreak
        },
        _ => Phase::Work,
    }
}

/// What a `PomodoroTimer` holds, as a plain value for contracts.
pub struct PomodoroModel {
    pub config: PomodoroConfig,
    pub phase: Phase,
    pub remaining_secs: u32,
    pub completed_sessions: u32,
    pub status: PomodoroStatus,
}

impl PomodoroModel {
    /// The time left is never above the length of the current phase.
    pub open spec fn wf(self) -> bool {
        self.remaining_secs <= self.config.duration_of(self.phase)
    }

    /// An idle timer at the start of a work phase, no sessions counted.
    pub open spec fn fresh(config: PomodoroConfig) -> PomodoroModel {
        PomodoroModel {
            config,
            phase: Phase::Work,
            remaining_secs: config.work_secs,
            completed_sessions: 0,
            status: PomodoroStatus::Idle,
        }
    }

    pub open spec fn started(self) -> PomodoroModel {
        PomodoroModel { status: PomodoroStatus::Running, ..self }
    }

    pub open spec fn paused(self) -> PomodoroModel {
        if self.status == PomodoroStatus::Running {
            PomodoroModel { status: PomodoroStatus::Paused, ..self }
        } else {
            self
        }
    }

    pub open spec fn reset(self) -> PomodoroModel {
        PomodoroModel::fresh(self.config)
    }

    /// Whether the next tick ends the current phase.
    pub open spec fn phase_ends(self) -> bool {
        self.status == PomodoroStatus::Running && self.remaining_secs <= 1
    }

    /// The session count after the current phase ends.
    pub open spec fn sessions_after_phase(self) -> u32 {
        if self.phase == Phase::Work {
            if self.completed_sessions == u32::MAX {
                u32::MAX
            } else {
                (self.completed_sessions + 1) as u32
            }
        } else {
            self.completed_sessions
        }
    }

    /// One second off a running timer; at zero, on to the next phase at its full length.
    pub open spec fn ticked(self) -> PomodoroModel {
        if self.status != PomodoroStatus::Running {
            self
        } else if !self.phase_ends() {
            PomodoroModel { remaining_secs: (self.remaining_secs - 1) as u32, ..self }
        } else {
            let completed = self.sessions_after_phase();
            let to = next_phase(self.phase, completed, self.config.sessions_before_long_break);
            PomodoroModel {
                phase: to,
                remaining_secs: self.config.duration_of(to),
                completed_sessions: completed,
                ..self
            }
        }
    }

    /// What the next tick reports: the phase change it makes, if any.
    pub open spec fn tick_transition(self) -> Option<PhaseTransition> {
        if self.phase_ends() {
            Some(PhaseTransition { from: self.phase, to: self.ticked().phase })
        } else {
            None
        }
    }

    /// The state after `n` ticks.
    pub open spec fn ticked_times(self, n: nat) -> PomodoroModel
        decreases n,
    {
        if n == 0 {
            self
        } else {
            self.ticked_times((n - 1) as nat).ticked()
        }
    }
}

/// One progress glyph: filled for a completed session, hollow otherwise.
pub open spec fn session_glyph(filled: bool) -> Seq<char> {
    if filled {
        seq!['\u{25CF}']
    } else {
        seq!['\u{25CB}']
    }
}

/// The first `n` progress glyphs, space-separated, the first `completed` filled.
pub open spec fn session_glyphs(n: nat, completed: nat) -> Seq<char>
    decreases n,
{
    if n == 0 {
        Seq::empty()
    } else if n == 1 {
        session_glyph(0 < completed)
    } else {
        session_glyphs((n - 1) as nat, completed) + seq![' '] + session_glyph(n - 1 < completed)
    }
}

/// The tray icon of a phase: a tomato for work, a cup for a break.
pub open spec fn phase_icon(phase: Phase) -> Seq<char> {
    match phase {
        Phase::Work => seq!['\u{1F345}'],
        _ => seq!['\u{2615}'],
    }
}

#[derive(Debug, Clone)]
pub struct PomodoroTimer {
    config: PomodoroConfig,
    phase: Phase,
    remaining_secs: u32,
    completed_sessions: u32,
    status: PomodoroStatus,
}

impl View for PomodoroTimer {
    type V = PomodoroModel;

    closed spec fn view(&self) -> PomodoroModel {
        PomodoroModel {
            config: self.config,
            phase: self.phase,
            remaining_secs: self.remaining_secs,
            completed_sessions: self.completed_sessions,
            status: self.status,
        }
    }
}

impl PomodoroTimer {
    pub fn new(config: PomodoroConfig) -> (r: Self)
        ensures
            r@ == PomodoroModel::fresh(config),
            r@.wf(),
    {
        PomodoroTimer {
            config,
            phase: Phase::Work,
            remaining_secs: config.work_secs,
            completed_sessions: 0,
            status: PomodoroStatus::Idle,
        }
    }

    pub fn phase(&self) -> (r: Phase)
        ensures
            r == self@.phase,
    {
        self.phase
    }

    pub fn remaining_secs(&self) -> (r: u32)
        ensures
            r == self@.remaining_secs,
    {
        self.remaining_secs
    }

    pub fn completed_sessions(&self) -> (r: u32)
        ensures
            r == self@.completed_sessions,
    {
        self.completed_sessions
    }

    pub fn status(&self) -> (r: PomodoroStatus)
        ensures
            r == self@.status,
    {
        self.status
    }

    /// The configured length of the current phase.
    pub fn phase_duration_secs(&self) -> (r: u32)
        ensures
            r == self@.config.duration_of(self@.phase),
    {
        match self.phase {
            Phase::Work => self.config.work_secs,
            Phase::ShortBreak => self.config.short_break_secs,
            Phase::LongBreak => self.config.long_break_secs,
        }
    }

    /// Runs the timer, from whatever state.
    pub fn start(&mut self)
        ensures
            final(self)@ == old(self)@.started(),
            old(self)@.wf() ==> final(self)@.wf(),
    {
        self.status = PomodoroStatus::Running;
    }

    /// Pauses a running timer; does nothing otherwise.
    pub fn pause(&mut self)
        ensures
            final(self)@ == old(self)@.paused(),
            old(self)@.wf() ==> final(self)@.wf(),
    {
        if self.status == PomodoroStatus::Running {
            self.status = PomodoroStatus::Paused;
        }
    }

    /// Rewinds to an idle work phase at full length with no sessions counted,
    /// whatever the phase was.
    pub fn reset(&mut self)
        ensures
            final(self)@ == old(self)@.reset(),
            final(self)@.phase == Phase::Work,
            final(self)@.completed_sessions == 0,
            final(self)@.status == PomodoroStatus::Idle,
            final(self)@.remaining_secs == old(self)@.config.work_secs,
            final(self)@.wf(),
    {
        self.phase = Phase::Work;
        self.remaining_secs = self.config.work_secs;
        self.completed_sessions = 0;
        self.status = PomodoroStatus::Idle;
    }

    /// Advances a running timer by one second, moving on to the next phase when
    /// the current one runs out, and reports that move. The end of a work phase
    /// counts a session; the count is never reduced but by `reset`, and stops at
    /// `u32::MAX`.
    pub fn tick(&mut self) -> (r: Option<PhaseTransition>)
        ensures
            final(self)@ == old(self)@.ticked(),
            r == old(self)@.tick_transition(),
            old(self)@.wf() ==> final(self)@.wf(),
    {
        if self.status != PomodoroStatus::Running {
            return None;
        }
        self.remaining_secs = self.remaining_secs.saturating_sub(1);
        if self.remaining_secs == 0 {
            let from = self.phase;
            let to = match self.phase {
                Phase::Work => {
                    self.completed_sessions = self.completed_sessions.saturating_add(1);
                    if self.completed_sessions.is_multiple_of(
                        self.config.sessions_before_long_break,
                    ) {
                        Phase::LongBreak
                    } else {
                        Phase::ShortBreak
                    }
                },
                Phase::ShortBreak | Phase::LongBreak => Phase::Work,
            };
            self.phase = to;
            self.remaining_secs = self.phase_duration_secs();
            Some(PhaseTransition { from, to })
        } else {
            None
        }
    }

    /// The remaining time as `MM:SS`, minutes uncapped.
    pub fn display(&self) -> (r: String)
        ensures
            r@ == minutes_text(self@.remaining_secs as nat),
    {
        format_minutes(self.remaining_secs)
    }

    /// One glyph per session of a cycle, space-separated; as many filled as
    /// sessions have been completed.
    pub fn session_display(&self) -> (r: String)
        ensures
            r@ == session_glyphs(
                self@.config.sessions_before_long_break as nat,
                self@.completed_sessions as nat,
            ),
    {
        let total = self.config.sessions_before_long_break;
        let mut out = String::new();
        let mut i: u32 = 0;
        while i < total
            invariant
                i <= total,
                total == self@.config.sessions_before_long_break,
                out@ == session_glyphs(i as nat, self@.completed_sessions as nat),
            decreases total - i,
        {
            if i > 0 {
                out.append(" ");
            }
            if i < self.completed_sessions {
                out.append("\u{25CF}");
            } else {
                out.append("\u{25CB}");
            }
            proof {
                reveal_strlit(" ");
                reveal_strlit("\u{25CF}");
                reveal_strlit("\u{25CB}");
            }
            assert(out@ =~= session_glyphs(i as nat + 1, self@.completed_sessions as nat));
            i = i + 1;
        }
        out
    }

    /// The phase's icon, a space, and the remaining time.
    pub fn tray_title(&self) -> (r: String)
        ensures
            r@ == phase_icon(self@.phase) + seq![' '] + minutes_text(self@.remaining_secs as nat),
    {
        let mut out = String::new();
        match self.phase {
            Phase::Work => out.append("\u{1F345} "),
            Phase::ShortBreak | Phase::LongBreak => out.append("\u{2615} "),
        }
        proof {
            reveal_strlit("\u{1F345} ");
            reveal_strlit("\u{2615} ");
        }
        let time = self.display();
        out.append(time.as_str());
        assert(out@ =~= phase_icon(self@.phase) + seq![' '] + minutes_text(
            self@.remaining_secs as nat,
        ));
        out
    }
}

/// Ticks change nothing on a timer that is idle or paused, however many there are.
pub proof fn lemma_ticks_while_stopped(m: PomodoroModel, n: nat)
    requires
        m.status == PomodoroStatus::Idle || m.status == PomodoroStatus::Paused,
    ensures
        m.ticked_times(n) == m,
        m.ticked_times(n).remaining_secs == m.remaining_secs,
    decreases n,
{
    if n > 0 {
        lemma_ticks_while_stopped(m, (n - 1) as nat);
    }
}

proof fn lemma_ticked_times_add(m: PomodoroModel, a: nat, b: nat)
    ensures
        m.ticked_times(a + b) == m.ticked_times(a).ticked_times(b),
    decreases b,
{
    if b > 0 {
        lemma_ticked_times_add(m, a, (b - 1) as nat);
        assert(a + b - 1 == a + (b - 1));
    }
}

proof fn lemma_within_phase(m: PomodoroModel, k: nat)
    requires
        m.status == PomodoroStatus::Running,
        k < m.remaining_secs,
    ensures
        m.ticked_times(k) == (PomodoroModel { remaining_secs: (m.remaining_secs - k) as u32, ..m }),
    decreases k,
{
    if k > 0 {
        lemma_within_phase(m, (k - 1) as nat);
    }
}

/// The running timer at the start of a work phase, `k` sessions counted.
pub open spec fn work_start(config: PomodoroConfig, k: u32) -> PomodoroModel {
    PomodoroModel {
        config,
        phase: Phase::Work,
        remaining_secs: config.work_secs,
        completed_sessions: k,
        status: PomodoroStatus::Running,
    }
}

/// Ticks of one work phase followed by one short break.
pub open spec fn cycle_ticks(config: PomodoroConfig) -> nat {
    config.work_secs as nat + config.short_break_secs as nat
}

proof fn lemma_work_phase(config: PomodoroConfig, k: u32)
    requires
        config.work_secs > 0,
        k < u32::MAX,
    ensures
        work_start(config, k).ticked_times((config.work_secs - 1) as nat).tick_transition() == Some(
            PhaseTransition {
                from: Phase::Work,
                to: next_phase(Phase::Work, (k + 1) as u32, config.sessions_before_long_break),
            },
        ),
        work_start(config, k).ticked_times(config.work_secs as nat) == ({
            let to = next_phase(Phase::Work, (k + 1) as u32, config.sessions_before_long_break);
            PomodoroModel {
                phase: to,
                remaining_secs: config.duration_of(to),
                completed_sessions: (k + 1) as u32,
                ..work_start(config, k)
            }
        }),
{
    let w = work_start(config, k);
    lemma_within_phase(w, (config.work_secs - 1) as nat);
}

proof fn lemma_short_break_cycle(config: PomodoroConfig, k: u32)
    requires
        config.work_secs > 0,
        config.short_break_secs > 0,
        k < u32::MAX,
        !long_break_due((k + 1) as u32, config.sessions_before_long_break),
    ensures
        work_start(config, k).ticked_times(cycle_ticks(config)) == work_start(config, (k + 1) as u32),
{
    let w = work_start(config, k);
    lemma_work_phase(config, k);
    let b = w.ticked_times(config.work_secs as nat);
    lemma_ticked_times_add(w, config.work_secs as nat, config.short_break_secs as nat);
    lemma_within_phase(b, (config.short_break_secs - 1) as nat);
    assert(b.ticked_times(config.short_break_secs as nat) == b.ticked_times(
        (config.short_break_secs - 1) as nat,
    ).ticked());
}

/// With four sessions to a cycle and phases of at least a second, a started timer
/// ends its first three work phases in a short break and the fourth in a long
/// break, reported by the tick that ends each; the long break then leads back to
/// work.
pub proof fn lemma_fourth_work_phase_ends_in_long_break(config: PomodoroConfig)
    requires
        config.sessions_before_long_break == 4,
        config.work_secs > 0,
        config.short_break_secs > 0,
        config.long_break_secs > 0,
    ensures
        forall|k: nat|
            k < 4 ==> #[trigger] PomodoroModel::fresh(config).started().ticked_times(
                (k * cycle_ticks(config) + config.work_secs - 1) as nat,
            ).tick_transition() == Some(
                PhaseTransition {
                    from: Phase::Work,
                    to: if k == 3 {
                        Phase::LongBreak
                    } else {
                        Phase::ShortBreak
                    },
                },
            ),
        PomodoroModel::fresh(config).started().ticked_times(
            (3 * cycle_ticks(config) + config.work_secs + config.long_break_secs - 1) as nat,
        ).tick_transition() == Some(PhaseTransition { from: Phase::LongBreak, to: Phase::Work }),
{
    let s0 = PomodoroModel::fresh(config).started();
    let c = cycle_ticks(config);
    assert(s0 == work_start(config, 0));
    lemma_short_break_cycle(config, 0);
    lemma_short_break_cycle(config, 1);
    lemma_short_break_cycle(config, 2);
    lemma_ticked_times_add(s0, c, c);
    lemma_ticked_times_add(s0, 2 * c, c);
    assert(s0.ticked_times(c) == work_start(config, 1));
    assert(s0.ticked_times(2 * c) == work_start(config, 2)) by {
        assert(c + c == 2 * c);
    }
    assert(s0.ticked_times(3 * c) == work_start(config, 3)) by {
        assert(2 * c + c == 3 * c);
    }
    let w1 = (config.work_secs - 1) as nat;
    assert forall|k: nat|
        k < 4 implies #[trigger] s0.ticked_times((k * c + config.work_secs - 1) as nat).tick_transition()
        == Some(
        PhaseTransition {
            from: Phase::Work,
            to: if k == 3 {
                Phase::LongBreak
            } else {
                Phase::ShortBreak
            },
        },
    ) by {
        assert(k == 0 || k == 1 || k == 2 || k == 3);
        assert(k * c + config.work_secs - 1 == k * c + w1);
        assert(0 * c == 0) by (nonlinear_arith);
        assert(1 * c == c) by (nonlinear_arith);
        lemma_ticked_times_add(s0, k * c, w1);
        lemma_work_phase(config, k as u32);
    }
    lemma_work_phase(config, 3);
    let lb = work_start(config, 3).ticked_times(config.work_secs as nat);
    lemma_ticked_times_add(s0, 3 * c, config.work_secs as nat);
    lemma_ticked_times_add(s0, (3 * c + config.work_secs) as nat, (config.long_break_secs - 1) as nat);
    lemma_within_phase(lb, (config.long_break_secs - 1) as nat);
    assert(3 * c + config.work_secs + config.long_break_secs - 1 == 3 * c + config.work_secs + (
    config.long_break_secs - 1) as nat);
}

} // verus!
