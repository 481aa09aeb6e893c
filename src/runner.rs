//! What one second of the periodic driver does to the live timer, and what it reports.
use vstd::prelude::*;

use crate::commands::{describes, ActiveModel, ActiveTimer, AppState, TimerSnapshot};
use crate::pomodoro::{phase_name, Phase, PhaseTransition};
use crate::timer::TimerStatus;

verus! {

/// A change that one tick made and that is announced downstream.
#[derive(Debug, Clone, Copy, PartialEq, Eq, Structural)]
pub enum TransitionEvent {
    /// A countdown reached zero.
    TimerFinished,
    /// A pomodoro timer moved on to its next phase.
    PhaseChanged(PhaseTransition),
}

/// The name of where an event comes from: `timer` for a countdown, else the phase left.
pub open spec fn event_from(e: TransitionEvent) -> Seq<char> {
    match e {
        TransitionEvent::TimerFinished => "timer"@,
        TransitionEvent::PhaseChanged(t) => phase_name(t.from),
    }
}

/// The name of where an event leads: `finished` for a countdown, else the phase entered.
pub open spec fn event_to(e: TransitionEvent) -> Seq<char> {
    match e {
        TransitionEvent::TimerFinished => "finished"@,
        TransitionEvent::PhaseChanged(t) => phase_name(t.to),
    }
}

impl TransitionEvent {
    pub fn from_name(&self) -> (r: String)
        ensures
            r@ == event_from(*self),
    {
        match self {
            TransitionEvent::TimerFinished => String::from_str("timer"),
            TransitionEvent::PhaseChanged(t) => t.from.name(),
        }
    }

    pub fn to_name(&self) -> (r: String)
        ensures
            r@ == event_to(*self),
    {
        match self {
            TransitionEvent::TimerFinished => String::from_str("finished"),
            TransitionEvent::PhaseChanged(t) => t.to.name(),
        }
    }

    /// Whether the event starts a break after work, which is announced over the
    /// whole screen rather than in a small notification.
    pub fn starts_break(&self) -> (r: bool)
        ensures
            r == (*self is PhaseChanged && self->PhaseChanged_0.from == Phase::Work
                && self->PhaseChanged_0.to != Phase::Work),
    {
        match self {
            TransitionEvent::TimerFinished => false,
            TransitionEvent::PhaseChanged(t) => t.from == Phase::Work && t.to.is_break(),
        }
    }
}

impl ActiveModel {
    /// What a tick of this timer announces: a countdown's reaching zero, or a phase change.
    pub open spec fn tick_event(self) -> Option<TransitionEvent> {
        match self {
            ActiveModel::Basic(t) => if t.status != TimerStatus::Finished && t.ticked().status
                == TimerStatus::Finished {
                Some(TransitionEvent::TimerFinished)
            } else {
                None
            },
            ActiveModel::Pomodoro(t) => match t.tick_transition() {
                Some(tr) => Some(TransitionEvent::PhaseChanged(tr)),
                None => None,
            },
        }
    }
}

/// The outcome of one tick: the picture after it, and at most one event.
#[derive(Debug, Clone)]
pub struct TickReport {
    pub snapshot: TimerSnapshot,
    pub event: Option<TransitionEvent>,
}

/// Advances the live timer by one second, pictures it, and reports the change
/// that the tick made, if any.
pub fn advance_one_second(state: &mut AppState) -> (r: TickReport)
    ensures
        final(state).active@ == old(state).active@.ticked(),
        describes(r.snapshot, final(state).active@),
        r.event == old(state).active@.tick_event(),
{
    match &mut state.active {
        ActiveTimer::Basic(timer) => {
            let was_finished = timer.is_finished();
            timer.tick();
            let snapshot = TimerSnapshot::from_basic(timer);
            let event = if timer.is_finished() && !was_finished {
                Some(TransitionEvent::TimerFinished)
            } else {
                None
            };
            TickReport { snapshot, event }
        },
        ActiveTimer::Pomodoro(timer) => {
            let transition = timer.tick();
            let snapshot = TimerSnapshot::from_pomodoro(timer);
            let event = match transition {
                Some(t) => Some(TransitionEvent::PhaseChanged(t)),
                None => None,
            };
            TickReport { snapshot, event }
        },
    }
}

/// A tick reports at most one event, and the end of a countdown only once: the
/// tick after the one that reports it reports nothing.
pub proof fn lemma_finish_reported_once(m: ActiveModel)
    requires
        m.tick_event() == Some(TransitionEvent::TimerFinished),
    ensures
        m.ticked().tick_event() is None,
{
}

} // verus!
