//! The mathematical model of the timer record and of its transitions.

use vstd::prelude::*;

verus! {

/// The phase of the timer's session.
///
/// The three flags that observers see are functions of the phase, so no
/// combination of them outside these four can arise.
#[derive(Clone, Copy, Debug, PartialEq, Eq, Structural)]
pub enum TimerPhase {
    /// No session: nothing was started, or the session was stopped.
    Idle,
    /// A countdown is taking seconds off.
    Active,
    /// The session holds its remaining time.
    Paused,
    /// The countdown reached zero and completion was announced.
    Finished,
}

/// What one tick of a countdown did to the record.
#[derive(Clone, Copy, Debug, PartialEq, Eq, Structural)]
pub enum TickOutcome {
    /// The record was not counting: nothing changed, the countdown ends.
    Cancelled,
    /// One second was taken off; the countdown goes on.
    Counted,
    /// No second was left: the session is finished, the countdown ends.
    Completed,
}

/// The phase that the three flags of an observer stand for, if they stand
/// for one. A finished timer shows the flags of an idle one, so no flags
/// stand for `Finished`.
pub open spec fn spec_phase_of_flags(
    is_running: bool,
    is_active: bool,
    is_paused: bool,
) -> Option<TimerPhase> {
    if !is_running && !is_active && !is_paused {
        Some(TimerPhase::Idle)
    } else if is_running && is_active && !is_paused {
        Some(TimerPhase::Active)
    } else if is_running && !is_active && is_paused {
        Some(TimerPhase::Paused)
    } else {
        None
    }
}

/// The timer record as a mathematical value.
pub ghost struct TimerModel {
    pub phase: TimerPhase,
    pub remaining_seconds: nat,
    pub original_seconds: nat,
    pub todo_title: Seq<char>,
    pub todo_id: Seq<char>,
}

impl TimerModel {
    /// The invariant of the record: no more is left than the session began with.
    pub open spec fn wf(self) -> bool {
        self.remaining_seconds <= self.original_seconds
    }

    /// The record at process start.
    pub open spec fn idle() -> TimerModel {
        TimerModel {
            phase: TimerPhase::Idle,
            remaining_seconds: 0,
            original_seconds: 0,
            todo_title: Seq::empty(),
            todo_id: Seq::empty(),
        }
    }

    /// A session is under way, counting or held.
    pub open spec fn is_running(self) -> bool {
        self.phase == TimerPhase::Active || self.phase == TimerPhase::Paused
    }

    /// A countdown should keep taking seconds off.
    pub open spec fn is_active(self) -> bool {
        self.phase == TimerPhase::Active
    }

    /// The session is held.
    pub open spec fn is_paused(self) -> bool {
        self.phase == TimerPhase::Paused
    }

    /// The flags of every record stand for its phase, but that a finished
    /// record reads as an idle one.
    pub proof fn lemma_flags_stand_for_phase(self)
        ensures
            spec_phase_of_flags(self.is_running(), self.is_active(), self.is_paused()) == Some(
                if self.phase == TimerPhase::Finished {
                    TimerPhase::Idle
                } else {
                    self.phase
                },
            ),
            self.is_active() ==> self.is_running() && !self.is_paused(),
    {
    }

    /// The record of a session that has just been started. Whatever the
    /// record held before is discarded.
    pub open spec fn started(
        todo_title: Seq<char>,
        todo_id: Seq<char>,
        duration_minutes: nat,
    ) -> TimerModel {
        TimerModel {
            phase: TimerPhase::Active,
            remaining_seconds: duration_minutes * 60,
            original_seconds: duration_minutes * 60,
            todo_title,
            todo_id,
        }
    }

    /// Stopping ends the session from any phase and keeps the seconds.
    pub open spec fn stop(self) -> TimerModel {
        TimerModel { phase: TimerPhase::Idle, ..self }
    }

    /// Pausing holds an active session; in any other phase it changes nothing.
    pub open spec fn pause(self) -> TimerModel {
        if self.phase == TimerPhase::Active {
            TimerModel { phase: TimerPhase::Paused, ..self }
        } else {
            self
        }
    }

    /// Resuming lets a held session count again; in any other phase it
    /// changes nothing.
    pub open spec fn resume(self) -> TimerModel {
        if self.phase == TimerPhase::Paused {
            TimerModel { phase: TimerPhase::Active, ..self }
        } else {
            self
        }
    }

    /// Restarting gives the session its full time back and holds it.
    pub open spec fn restart(self) -> TimerModel {
        TimerModel {
            phase: TimerPhase::Paused,
            remaining_seconds: self.original_seconds,
            ..self
        }
    }

    /// What a tick finds: a record that is not counting, one with seconds
    /// left, or one that has run out.
    pub open spec fn tick_outcome(self) -> TickOutcome {
        if self.phase != TimerPhase::Active {
            TickOutcome::Cancelled
        } else if self.remaining_seconds > 0 {
            TickOutcome::Counted
        } else {
            TickOutcome::Completed
        }
    }

    /// The record after a tick.
    pub open spec fn tick(self) -> TimerModel {
        match self.tick_outcome() {
            TickOutcome::Cancelled => self,
            TickOutcome::Counted => TimerModel {
                remaining_seconds: (self.remaining_seconds - 1) as nat,
                ..self
            },
            TickOutcome::Completed => TimerModel { phase: TimerPhase::Finished, ..self },
        }
    }
}

/// The number that follows `generation`. The numbers run in a cycle through
/// the range of `u64`, so the next one always differs from the one before.
pub open spec fn next_generation(generation: nat) -> nat {
    if generation >= u64::MAX {
        0
    } else {
        generation + 1
    }
}

/// The engine as a mathematical value: the record, and the number of the
/// one countdown that may advance it.
///
/// Every command that begins or ends counting moves `generation` on. A
/// countdown carries the number it was spawned with as its token, and a tick
/// with any other token is stale: it leaves the engine as it is.
pub ghost struct EngineModel {
    pub timer: TimerModel,
    pub generation: nat,
}

impl EngineModel {
    /// The invariant of the engine.
    pub open spec fn wf(self) -> bool {
        self.timer.wf() && self.generation <= u64::MAX
    }

    /// The engine at process start.
    pub open spec fn initial() -> EngineModel {
        EngineModel { timer: TimerModel::idle(), generation: 0 }
    }

    /// Starting begins a new session under a new generation.
    pub open spec fn start(
        self,
        todo_title: Seq<char>,
        todo_id: Seq<char>,
        duration_minutes: nat,
    ) -> EngineModel {
        EngineModel {
            timer: TimerModel::started(todo_title, todo_id, duration_minutes),
            generation: next_generation(self.generation),
        }
    }

    /// Stopping ends the session and retires the running countdown.
    pub open spec fn stop(self) -> EngineModel {
        EngineModel { timer: self.timer.stop(), generation: next_generation(self.generation) }
    }

    /// Pausing holds the session; the countdown ends on its next tick.
    pub open spec fn pause(self) -> EngineModel {
        EngineModel { timer: self.timer.pause(), ..self }
    }

    /// Resuming a held session lets it count under a new generation; in any
    /// other phase nothing changes.
    pub open spec fn resume(self) -> EngineModel {
        if self.timer.phase == TimerPhase::Paused {
            EngineModel {
                timer: self.timer.resume(),
                generation: next_generation(self.generation),
            }
        } else {
            self
        }
    }

    /// Restarting primes the session and holds it.
    pub open spec fn restart(self) -> EngineModel {
        EngineModel { timer: self.timer.restart(), ..self }
    }

    /// What a tick with this token finds.
    pub open spec fn tick_outcome(self, token: nat) -> TickOutcome {
        if token != self.generation {
            TickOutcome::Cancelled
        } else {
            self.timer.tick_outcome()
        }
    }

    /// The engine after a tick with this token.
    pub open spec fn tick(self, token: nat) -> EngineModel {
        if token != self.generation {
            self
        } else {
            EngineModel { timer: self.timer.tick(), ..self }
        }
    }
}

} // verus!
