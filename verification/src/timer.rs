//! The timer state machine: phases, events, the transition table, and the
//! scheduling actions the driving layer must carry out after each
//! transition.

use vstd::prelude::*;
use crate::time_utils::Duration;
use crate::time_utils::display_string;
use crate::time_utils::to_string;

verus! {

/// The timer's current mode.
#[derive(Clone, Copy, PartialEq, Eq, Structural, Debug)]
pub enum Phase {
    /// No period is running and none is paused.
    Idle,
    /// A work period is counting down.
    Work,
    /// A break period is counting down.
    Break,
    /// A work or break period is suspended; `previous_phase` names it.
    Paused,
}

/// The four input events the state machine reacts to.
#[derive(Clone, Copy, PartialEq, Eq, Structural, Debug)]
pub enum Event {
    /// The user asked to start the next period or resume a paused one.
    StartOrResume,
    /// The user asked to suspend the running period.
    Pause,
    /// The recurring one-second callback fired.
    Tick,
    /// The one-shot completion callback fired: the period is over.
    PhaseComplete,
}

/// What the driving layer must do with its two scheduled callbacks after a
/// successful transition.
#[derive(Clone, Copy, PartialEq, Eq, Structural, Debug)]
pub enum Action {
    /// Arm a fresh one-shot completion callback one millisecond after the
    /// given duration elapses, and a fresh recurring one-second tick
    /// callback. The extra millisecond lets the final tick bring the
    /// display to `00:00` before the completion event resets the phase.
    Schedule(Duration),
    /// Drop both callbacks: the period is suspended.
    CancelBoth,
    /// Drop the recurring tick callback; the completion callback has just
    /// fired and is spent.
    CancelTick,
    /// Leave both callbacks as they are.
    Keep,
}

/// The one error the state machine reports: the event is not permitted for
/// the current combination of phase and previous phase. It means the
/// driving layer has fallen out of step with the state machine.
#[derive(Clone, Copy, PartialEq, Eq, Structural, Debug)]
pub struct InvalidTransition;

/// The timer's whole state: the configured period lengths, the current and
/// previous phase, the time left in the current period, and whether the
/// two scheduled callbacks are currently registered. The driving layer
/// owns the real callback registrations and keeps them in step with the
/// two flags here.
pub struct TimerState {
    /// Length of a work period, fixed at construction.
    pub work_duration: Duration,
    /// Length of a break period, fixed at construction.
    pub break_duration: Duration,
    /// The current phase.
    pub phase: Phase,
    /// The phase held immediately before the current one. It resolves what
    /// a start from `Idle` should begin (the period after the one just
    /// finished) and which phase a resume from `Paused` returns to.
    pub previous_phase: Phase,
    /// Time left in the current period; meaningful while the phase is
    /// `Work` or `Break`, and kept across `Paused`.
    pub remaining: Duration,
    /// Whether a recurring one-second tick callback is registered.
    pub tick_scheduled: bool,
    /// Whether a one-shot completion callback is registered.
    pub completion_scheduled: bool,
}

impl TimerState {
    /// The phase is actively counting down.
    pub open spec fn running(self) -> bool {
        self.phase == Phase::Work || self.phase == Phase::Break
    }

    /// Well-formedness: the previous phase is never `Paused` (so a resume
    /// always finds the interrupted phase there), and the two callbacks
    /// are registered together exactly while a period is counting down.
    pub open spec fn wf(self) -> bool {
        &&& self.previous_phase != Phase::Paused
        &&& (self.tick_scheduled <==> self.running())
        &&& self.completion_scheduled == self.tick_scheduled
    }

    /// A fresh timer: idle, nothing scheduled, no time remaining.
    pub fn new(work_duration: Duration, break_duration: Duration) -> (t: TimerState)
        ensures
            t.wf(),
            t.work_duration == work_duration,
            t.break_duration == break_duration,
            t.phase == Phase::Idle,
            t.previous_phase == Phase::Idle,
            t.remaining.seconds == 0,
            !t.tick_scheduled,
            !t.completion_scheduled,
    {
        TimerState {
            work_duration,
            break_duration,
            phase: Phase::Idle,
            previous_phase: Phase::Idle,
            remaining: Duration { seconds: 0 },
            tick_scheduled: false,
            completion_scheduled: false,
        }
    }

    /// Record the phase being left into `previous_phase`, then commit the
    /// new phase. Every transition that enters a different phase goes
    /// through here, except a resume, which must not record `Paused`.
    fn set_state(&mut self, phase: Phase)
        ensures
            final(self).phase == phase,
            final(self).previous_phase == old(self).phase,
            final(self).work_duration == old(self).work_duration,
            final(self).break_duration == old(self).break_duration,
            final(self).remaining == old(self).remaining,
            final(self).tick_scheduled == old(self).tick_scheduled,
            final(self).completion_scheduled == old(self).completion_scheduled,
    {
        self.previous_phase = self.phase;
        self.phase = phase;
    }

    /// Begin counting down `duration`: set the remaining time and note
    /// that both callbacks are to be registered. The driving layer arms
    /// the real callbacks when it sees the `Schedule` action.
    fn start_timer(&mut self, duration: Duration)
        ensures
            final(self).remaining == duration,
            final(self).tick_scheduled,
            final(self).completion_scheduled,
            final(self).phase == old(self).phase,
            final(self).previous_phase == old(self).previous_phase,
            final(self).work_duration == old(self).work_duration,
            final(self).break_duration == old(self).break_duration,
    {
        self.remaining = duration;
        self.tick_scheduled = true;
        self.completion_scheduled = true;
    }

    /// The guard column of the transition table: whether `event` is
    /// permitted for the current combination of phase and previous phase.
    pub open spec fn event_permitted(self, event: Event) -> bool {
        match event {
            Event::StartOrResume => {
                ||| (self.phase == Phase::Idle && self.previous_phase != Phase::Paused)
                ||| (self.phase == Phase::Paused && (self.previous_phase == Phase::Work
                    || self.previous_phase == Phase::Break))
            },
            Event::Pause => self.running(),
            Event::Tick => self.running(),
            Event::PhaseComplete => self.running(),
        }
    }

    /// The state after a permitted `event`: the transition table.
    ///
    /// - A start from `Idle` enters `Work` with the full work duration,
    ///   unless a work period was just finished, in which case it enters
    ///   `Break` with the full break duration.
    /// - A resume from `Paused` re-enters the interrupted phase with the
    ///   remaining time untouched; `previous_phase` keeps naming that
    ///   phase rather than recording `Paused`.
    /// - A pause suspends the running phase, dropping both callbacks and
    ///   leaving the remaining time untouched.
    /// - A tick takes one second off the remaining time.
    /// - A completion returns to `Idle`, remembering which phase finished.
    pub open spec fn spec_next(self, event: Event) -> TimerState
        recommends
            self.event_permitted(event),
            event == Event::Tick ==> self.remaining.seconds >= 1,
    {
        match event {
            Event::StartOrResume => {
                if self.phase == Phase::Idle {
                    if self.previous_phase == Phase::Work {
                        TimerState {
                            phase: Phase::Break,
                            previous_phase: Phase::Idle,
                            remaining: self.break_duration,
                            tick_scheduled: true,
                            completion_scheduled: true,
                            ..self
                        }
                    } else {
                        TimerState {
                            phase: Phase::Work,
                            previous_phase: Phase::Idle,
                            remaining: self.work_duration,
                            tick_scheduled: true,
                            completion_scheduled: true,
                            ..self
                        }
                    }
                } else {
                    TimerState {
                        phase: self.previous_phase,
                        tick_scheduled: true,
                        completion_scheduled: true,
                        ..self
                    }
                }
            },
            Event::Pause => TimerState {
                phase: Phase::Paused,
                previous_phase: self.phase,
                tick_scheduled: false,
                completion_scheduled: false,
                ..self
            },
            Event::Tick => TimerState {
                remaining: Duration { seconds: (self.remaining.seconds - 1) as u64 },
                ..self
            },
            Event::PhaseComplete => TimerState {
                phase: Phase::Idle,
                previous_phase: self.phase,
                tick_scheduled: false,
                completion_scheduled: false,
                ..self
            },
        }
    }

    /// The action column of the transition table: what the driving layer
    /// must do with its callbacks after a permitted `event`.
    pub open spec fn spec_action(self, event: Event) -> Action
        recommends
            self.event_permitted(event),
    {
        match event {
            Event::StartOrResume => {
                if self.phase == Phase::Idle {
                    if self.previous_phase == Phase::Work {
                        Action::Schedule(self.break_duration)
                    } else {
                        Action::Schedule(self.work_duration)
                    }
                } else {
                    Action::Schedule(self.remaining)
                }
            },
            Event::Pause => Action::CancelBoth,
            Event::Tick => Action::Keep,
            Event::PhaseComplete => Action::CancelTick,
        }
    }

    /// React to one event.
    ///
    /// A permitted event commits the transition the table prescribes and
    /// returns the scheduling action the driving layer must carry out; an
    /// event not permitted for the current combination of phase and
    /// previous phase returns `InvalidTransition` and leaves the state
    /// untouched. A tick only arrives while at least one second remains:
    /// the completion callback is armed a millisecond after the last
    /// whole second, so the countdown never goes below zero.
    pub fn dispatch(&mut self, event: Event) -> (r: Result<Action, InvalidTransition>)
        requires
            old(self).wf(),
            event == Event::Tick && old(self).running() ==> old(self).remaining.seconds >= 1,
        ensures
            final(self).wf(),
            old(self).event_permitted(event) ==> {
                &&& r == Ok::<Action, InvalidTransition>(old(self).spec_action(event))
                &&& *final(self) == old(self).spec_next(event)
            },
            !old(self).event_permitted(event) ==> {
                &&& r == Err::<Action, InvalidTransition>(InvalidTransition)
                &&& *final(self) == *old(self)
            },
    {
        match (event, self.phase, self.previous_phase) {
            (Event::StartOrResume, Phase::Idle, Phase::Idle | Phase::Break) => {
                self.set_state(Phase::Work);
                let d = self.work_duration;
                self.start_timer(d);
                Ok(Action::Schedule(d))
            },
            (Event::StartOrResume, Phase::Idle, Phase::Work) => {
                self.set_state(Phase::Break);
                let d = self.break_duration;
                self.start_timer(d);
                Ok(Action::Schedule(d))
            },
            (Event::StartOrResume, Phase::Paused, Phase::Work | Phase::Break) => {
                // Re-enter the interrupted phase directly: going through
                // set_state here would record Paused into previous_phase
                // and break well-formedness.
                self.phase = self.previous_phase;
                let d = self.remaining;
                self.start_timer(d);
                Ok(Action::Schedule(d))
            },
            (Event::Pause, Phase::Work | Phase::Break, _) => {
                self.set_state(Phase::Paused);
                self.tick_scheduled = false;
                self.completion_scheduled = false;
                Ok(Action::CancelBoth)
            },
            (Event::Tick, Phase::Work | Phase::Break, _) => {
                self.remaining = Duration { seconds: self.remaining.seconds - 1 };
                Ok(Action::Keep)
            },
            (Event::PhaseComplete, Phase::Work | Phase::Break, _) => {
                self.set_state(Phase::Idle);
                self.tick_scheduled = false;
                self.completion_scheduled = false;
                Ok(Action::CancelTick)
            },
            _ => Err(InvalidTransition),
        }
    }

    /// The current phase, for the view layer.
    pub fn current_phase(&self) -> (p: Phase)
        ensures
            p == self.phase,
    {
        self.phase
    }

    /// The remaining time as display text, zero-padded `MM:SS`.
    pub fn remaining_display(&self) -> (r: String)
        ensures
            r@ == display_string(self.remaining.seconds as nat),
    {
        to_string(self.remaining)
    }

    /// The label of the single toggle button: it offers to start or
    /// resume while nothing is counting down, and to pause while a
    /// period is.
    pub fn button_label(&self) -> (r: &'static str)
        ensures
            !self.running() ==> r@ == "Start timer"@,
            self.running() ==> r@ == "Pause timer"@,
    {
        match self.phase {
            Phase::Idle | Phase::Paused => "Start timer",
            Phase::Work | Phase::Break => "Pause timer",
        }
    }

    /// The event a click of the toggle button stands for in the current
    /// phase.
    pub fn button_event(&self) -> (e: Event)
        ensures
            !self.running() ==> e == Event::StartOrResume,
            self.running() ==> e == Event::Pause,
    {
        match self.phase {
            Phase::Idle | Phase::Paused => Event::StartOrResume,
            Phase::Work | Phase::Break => Event::Pause,
        }
    }
}

/// The state after `n` consecutive tick events.
pub open spec fn spec_ticks(t: TimerState, n: nat) -> TimerState
    decreases n,
{
    if n == 0 {
        t
    } else {
        spec_ticks(t, (n - 1) as nat).spec_next(Event::Tick)
    }
}

/// From a freshly idle timer (previous phase also idle), a start request
/// is permitted and enters the work phase with the full work duration
/// remaining and both callbacks armed.
pub proof fn lemma_start_from_idle(t: TimerState)
    requires
        t.wf(),
        t.phase == Phase::Idle,
        t.previous_phase == Phase::Idle,
    ensures
        t.event_permitted(Event::StartOrResume),
        t.spec_next(Event::StartOrResume).wf(),
        t.spec_next(Event::StartOrResume).phase == Phase::Work,
        t.spec_next(Event::StartOrResume).remaining == t.work_duration,
        t.spec_action(Event::StartOrResume) == Action::Schedule(t.work_duration),
{
}

/// Pausing a running period and then resuming is always permitted, and
/// returns to the very phase that was paused with the remaining time
/// unchanged from its value at pause time — not reset to the configured
/// period length.
pub proof fn lemma_pause_resume_keeps_remaining(t: TimerState)
    requires
        t.wf(),
        t.running(),
    ensures
        ({
            let paused = t.spec_next(Event::Pause);
            let resumed = paused.spec_next(Event::StartOrResume);
            &&& t.event_permitted(Event::Pause)
            &&& paused.phase == Phase::Paused
            &&& paused.remaining == t.remaining
            &&& paused.event_permitted(Event::StartOrResume)
            &&& resumed.phase == t.phase
            &&& resumed.remaining == t.remaining
            &&& resumed.wf()
        }),
{
}

/// Each of `n` tick events is permitted and takes exactly one second off
/// the remaining time, so `n` ticks take off `n` seconds; the countdown
/// never goes negative because `n` stays within the seconds remaining at
/// the start. The phase and everything else are untouched.
pub proof fn lemma_ticks_reduce(t: TimerState, n: nat)
    requires
        t.wf(),
        t.running(),
        n <= t.remaining.seconds,
    ensures
        spec_ticks(t, n).wf(),
        spec_ticks(t, n).phase == t.phase,
        spec_ticks(t, n).previous_phase == t.previous_phase,
        spec_ticks(t, n).remaining.seconds == t.remaining.seconds - n,
        n > 0 ==> spec_ticks(t, (n - 1) as nat).event_permitted(Event::Tick),
    decreases n,
{
    if n > 0 {
        lemma_ticks_reduce(t, (n - 1) as nat);
    }
}

/// A completion while working or on a break always lands in idle, and the
/// following start alternates: a finished work period is followed by a
/// break, a finished break by work.
pub proof fn lemma_complete_alternates(t: TimerState)
    requires
        t.wf(),
        t.running(),
    ensures
        ({
            let done = t.spec_next(Event::PhaseComplete);
            let next = done.spec_next(Event::StartOrResume);
            &&& t.event_permitted(Event::PhaseComplete)
            &&& done.phase == Phase::Idle
            &&& done.previous_phase == t.phase
            &&& done.wf()
            &&& done.event_permitted(Event::StartOrResume)
            &&& (t.phase == Phase::Work ==> next.phase == Phase::Break
                && next.remaining == t.break_duration)
            &&& (t.phase == Phase::Break ==> next.phase == Phase::Work
                && next.remaining == t.work_duration)
        }),
{
}

} // verus!
