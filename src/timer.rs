//! A single countdown that stops for good at zero.
use vstd::prelude::*;

use crate::clock::{clock_text, format_clock};

verus! {

#[derive(Debug, Clone, Copy, PartialEq, Eq, Structural)]
pub enum TimerStatus {
    Idle,
    Running,
    Paused,
    Finished,
}

/// What a `BasicTimer` holds, as a plain value for contracts.
pub struct BasicTimerModel {
    pub duration_secs: u32,
    pub remaining_secs: u32,
    pub status: TimerStatus,
}

impl BasicTimerModel {
    /// A countdown is never above its duration, and is finished only at zero.
    pub open spec fn wf(self) -> bool {
        &&& self.remaining_secs <= self.duration_secs
        &&& self.status == TimerStatus::Finished ==> self.remaining_secs == 0
    }

    /// An idle countdown over the whole of `secs`.
    pub open spec fn fresh(secs: u32) -> BasicTimerModel {
        BasicTimerModel { duration_secs: secs, remaining_secs: secs, status: TimerStatus::Idle }
    }

    pub open spec fn started(self) -> BasicTimerModel {
        if self.status == TimerStatus::Finished {
            self
        } else {
            BasicTimerModel { status: TimerStatus::Running, ..self }
        }
    }

    pub open spec fn paused(self) -> BasicTimerModel {
        if self.status == TimerStatus::Running {
            BasicTimerModel { status: TimerStatus::Paused, ..self }
        } else {
            self
        }
    }

    pub open spec fn reset(self) -> BasicTimerModel {
        BasicTimerModel::fresh(self.duration_secs)
    }

    /// One second off a running countdown, finishing it when it reaches zero.
    pub open spec fn ticked(self) -> BasicTimerModel {
        if self.status != TimerStatus::Running {
            self
        } else {
            let rem = if self.remaining_secs == 0 { 0 } else { (self.remaining_secs - 1) as u32 };
            BasicTimerModel {
                remaining_secs: rem,
                status: if rem == 0 { TimerStatus::Finished } else { TimerStatus::Running },
                ..self
            }
        }
    }

    /// The state after `n` ticks.
    pub open spec fn ticked_times(self, n: nat) -> BasicTimerModel
        decreases n,
    {
        if n == 0 {
            self
        } else {
            self.ticked_times((n - 1) as nat).ticked()
        }
    }
}

#[derive(Debug, Clone)]
pub struct BasicTimer {
    duration_secs: u32,
    remaining_secs: u32,
    status: TimerStatus,
}

impl View for BasicTimer {
    type V = BasicTimerModel;

    closed spec fn view(&self) -> BasicTimerModel {
        BasicTimerModel {
            duration_secs: self.duration_secs,
            remaining_secs: self.remaining_secs,
            status: self.status,
        }
    }
}

impl BasicTimer {
    pub fn new(duration_secs: u32) -> (r: Self)
        ensures
            r@ == BasicTimerModel::fresh(duration_secs),
            r@.wf(),
    {
        BasicTimer { duration_secs, remaining_secs: duration_secs, status: TimerStatus::Idle }
    }

    pub fn remaining_secs(&self) -> (r: u32)
        ensures
            r == self@.remaining_secs,
    {
        self.remaining_secs
    }

    pub fn duration_secs(&self) -> (r: u32)
        ensures
            r == self@.duration_secs,
    {
        self.duration_secs
    }

    pub fn status(&self) -> (r: TimerStatus)
        ensures
            r == self@.status,
    {
        self.status
    }

    pub fn is_finished(&self) -> (r: bool)
        ensures
            r == (self@.status == TimerStatus::Finished),
    {
        self.status == TimerStatus::Finished
    }

    /// Advances a running countdown by one second; does nothing otherwise.
    pub fn tick(&mut self)
        ensures
            final(self)@ == old(self)@.ticked(),
            old(self)@.wf() ==> final(self)@.wf(),
    {
        if self.status != TimerStatus::Running {
            return ;
        }
        self.remaining_secs = self.remaining_secs.saturating_sub(1);
        if self.remaining_secs == 0 {
            self.status = TimerStatus::Finished;
        }
    }

    /// Runs the countdown, unless it has finished.
    pub fn start(&mut self)
        ensures
            final(self)@ == old(self)@.started(),
            old(self)@.wf() ==> final(self)@.wf(),
    {
        if self.status != TimerStatus::Finished {
            self.status = TimerStatus::Running;
        }
    }

    /// Pauses a running countdown; does nothing otherwise.
    pub fn pause(&mut self)
        ensures
            final(self)@ == old(self)@.paused(),
            old(self)@.wf() ==> final(self)@.wf(),
    {
        if self.status == TimerStatus::Running {
            self.status = TimerStatus::Paused;
        }
    }

    /// Rewinds to the whole duration, idle, whatever the state was.
    pub fn reset(&mut self)
        ensures
            final(self)@ == old(self)@.reset(),
            final(self)@.remaining_secs == final(self)@.duration_secs,
            final(self)@.status == TimerStatus::Idle,
            final(self)@.wf(),
    {
        self.remaining_secs = self.duration_secs;
        self.status = TimerStatus::Idle;
    }

    /// Replaces the duration and rewinds to it, discarding any countdown in progress.
    pub fn set_duration(&mut self, secs: u32)
        ensures
            final(self)@ == BasicTimerModel::fresh(secs),
            final(self)@.wf(),
    {
        self.duration_secs = secs;
        self.remaining_secs = secs;
        self.status = TimerStatus::Idle;
    }

    /// The remaining time as `MM:SS`, or `H:MM:SS` from one hour on.
    pub fn display(&self) -> (r: String)
        ensures
            r@ == clock_text(self@.remaining_secs as nat),
    {
        format_clock(self.remaining_secs)
    }
}

/// Ticks change nothing on a countdown that is idle or paused, however many there are.
pub proof fn lemma_ticks_while_stopped(m: BasicTimerModel, n: nat)
    requires
        m.status == TimerStatus::Idle || m.status == TimerStatus::Paused,
    ensures
        m.ticked_times(n) == m,
        m.ticked_times(n).remaining_secs == m.remaining_secs,
    decreases n,
{
    if n > 0 {
        lemma_ticks_while_stopped(m, (n - 1) as nat);
    }
}

proof fn lemma_running_countdown(m: BasicTimerModel, k: nat)
    requires
        m.status == TimerStatus::Running,
        k < m.remaining_secs,
    ensures
        m.ticked_times(k) == (BasicTimerModel { remaining_secs: (m.remaining_secs - k) as u32, ..m }),
    decreases k,
{
    if k > 0 {
        lemma_running_countdown(m, (k - 1) as nat);
    }
}

/// Started over a positive duration `d`, a countdown runs through `d - 1` ticks, is
/// finished at zero after the `d`-th, and stays so on a further tick.
pub proof fn lemma_countdown_finishes(d: u32)
    requires
        d > 0,
    ensures
        forall|k: nat| k < d ==> #[trigger] BasicTimerModel::fresh(d).started().ticked_times(k).status
            == TimerStatus::Running,
        BasicTimerModel::fresh(d).started().ticked_times(d as nat).remaining_secs == 0,
        BasicTimerModel::fresh(d).started().ticked_times(d as nat).status == TimerStatus::Finished,
        BasicTimerModel::fresh(d).started().ticked_times(d as nat + 1) == BasicTimerModel::fresh(
            d,
        ).started().ticked_times(d as nat),
{
    let m = BasicTimerModel::fresh(d).started();
    assert forall|k: nat| k < d implies #[trigger] m.ticked_times(k).status == TimerStatus::Running by {
        lemma_running_countdown(m, k);
    }
    lemma_running_countdown(m, (d - 1) as nat);
}

} // verus!
