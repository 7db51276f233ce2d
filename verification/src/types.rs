//! The timer record and the errors of its commands.

use vstd::prelude::*;
use vstd::string::*;
use crate::model::{
    next_generation, spec_phase_of_flags, EngineModel, TickOutcome, TimerModel, TimerPhase,
};

verus! {

/// Why a command was refused.
#[derive(Clone, Copy, Debug, PartialEq, Eq, Structural)]
pub enum TimerError {
    /// Pause was asked of a timer that is not counting.
    NotActive,
    /// Resume was asked of a timer that is not held.
    NotPaused,
    /// The lock around the record was poisoned; the record was reset.
    LockPoisoned,
}

impl TimerError {
    /// The text of the error in the model.
    pub open spec fn spec_message(self) -> Seq<char> {
        match self {
            TimerError::NotActive => "cannot pause: the timer is not active"@,
            TimerError::NotPaused => "cannot resume: the timer is not paused"@,
            TimerError::LockPoisoned => {
                "internal error: the timer lock was poisoned and the timer was reset"@
            },
        }
    }

    /// The description handed to the presentation layer.
    pub fn message(&self) -> (text: String)
        ensures
            text@ == self.spec_message(),
    {
        match self {
            TimerError::NotActive => String::from_str("cannot pause: the timer is not active"),
            TimerError::NotPaused => String::from_str("cannot resume: the timer is not paused"),
            TimerError::LockPoisoned => String::from_str(
                "internal error: the timer lock was poisoned and the timer was reset",
            ),
        }
    }
}

/// Reads the phase off the three flags of an observer. Flags that no phase
/// shows give `None`.
pub fn phase_of_flags(
    is_running: bool,
    is_active: bool,
    is_paused: bool,
) -> (phase: Option<TimerPhase>)
    ensures
        phase == spec_phase_of_flags(is_running, is_active, is_paused),
{
    if !is_running && !is_active && !is_paused {
        Some(TimerPhase::Idle)
    } else if is_running && is_active && !is_paused {
        Some(TimerPhase::Active)
    } else if is_running && !is_active && is_paused {
        Some(TimerPhase::Paused)
    } else {
        None
    }
}

/// The one record of the timer.
///
/// Its fields are private: the record changes only through the transitions
/// below, which keep `remaining_seconds <= original_seconds`.
#[derive(Debug)]
pub struct TimerState {
    phase: TimerPhase,
    remaining_seconds: u64,
    original_seconds: u64,
    todo_title: String,
    todo_id: String,
}

impl View for TimerState {
    type V = TimerModel;

    closed spec fn view(&self) -> TimerModel {
        TimerModel {
            phase: self.phase,
            remaining_seconds: self.remaining_seconds as nat,
            original_seconds: self.original_seconds as nat,
            todo_title: self.todo_title@,
            todo_id: self.todo_id@,
        }
    }
}

impl TimerState {
    #[verifier::type_invariant]
    spec fn bounded(self) -> bool {
        self.remaining_seconds <= self.original_seconds
    }

    /// The record at process start: idle, no seconds, no task.
    pub fn new() -> (timer: TimerState)
        ensures
            timer@ == TimerModel::idle(),
            timer@.wf(),
    {
        TimerState {
            phase: TimerPhase::Idle,
            remaining_seconds: 0,
            original_seconds: 0,
            todo_title: String::new(),
            todo_id: String::new(),
        }
    }

    /// Builds a record from the values that an observer holds. The flags
    /// must stand for a phase and no more seconds may be left than the
    /// session began with; any other values give `None`.
    pub fn from_flags(
        is_running: bool,
        is_active: bool,
        is_paused: bool,
        remaining_seconds: u64,
        original_seconds: u64,
        todo_title: String,
        todo_id: String,
    ) -> (timer: Option<TimerState>)
        ensures
            timer is Some <==> spec_phase_of_flags(is_running, is_active, is_paused) is Some
                && remaining_seconds <= original_seconds,
            timer matches Some(record) ==> record@ == (TimerModel {
                phase: spec_phase_of_flags(is_running, is_active, is_paused).unwrap(),
                remaining_seconds: remaining_seconds as nat,
                original_seconds: original_seconds as nat,
                todo_title: todo_title@,
                todo_id: todo_id@,
            }) && record@.wf(),
    {
        match phase_of_flags(is_running, is_active, is_paused) {
            Some(phase) => {
                if remaining_seconds <= original_seconds {
                    Some(
                        TimerState {
                            phase,
                            remaining_seconds,
                            original_seconds,
                            todo_title,
                            todo_id,
                        },
                    )
                } else {
                    None
                }
            },
            None => None,
        }
    }

    /// The phase of the session.
    pub fn phase(&self) -> (phase: TimerPhase)
        ensures
            phase == self@.phase,
    {
        self.phase
    }

    /// True once a countdown has been started and not yet stopped or finished.
    pub fn is_running(&self) -> (flag: bool)
        ensures
            flag == self@.is_running(),
    {
        self.phase == TimerPhase::Active || self.phase == TimerPhase::Paused
    }

    /// True while a countdown should keep taking seconds off.
    pub fn is_active(&self) -> (flag: bool)
        ensures
            flag == self@.is_active(),
    {
        self.phase == TimerPhase::Active
    }

    /// True while the session is held.
    pub fn is_paused(&self) -> (flag: bool)
        ensures
            flag == self@.is_paused(),
    {
        self.phase == TimerPhase::Paused
    }

    /// The seconds left.
    pub fn remaining_seconds(&self) -> (seconds: u64)
        ensures
            seconds == self@.remaining_seconds,
            seconds <= self@.original_seconds,
    {
        proof {
            use_type_invariant(self);
        }
        self.remaining_seconds
    }

    /// The seconds the session was started with.
    pub fn original_seconds(&self) -> (seconds: u64)
        ensures
            seconds == self@.original_seconds,
    {
        self.original_seconds
    }

    /// The label of the task being timed.
    pub fn todo_title(&self) -> (title: &String)
        ensures
            title@ == self@.todo_title,
    {
        &self.todo_title
    }

    /// The identifier of the task being timed.
    pub fn todo_id(&self) -> (id: &String)
        ensures
            id@ == self@.todo_id,
    {
        &self.todo_id
    }

    /// Begins a session of `duration_minutes` minutes for the given task,
    /// discarding whatever session there was.
    pub fn start(&mut self, todo_title: String, todo_id: String, duration_minutes: u64)
        requires
            duration_minutes * 60 <= u64::MAX,
        ensures
            final(self)@ == TimerModel::started(todo_title@, todo_id@, duration_minutes as nat),
            final(self)@.phase == TimerPhase::Active,
            final(self)@.remaining_seconds == duration_minutes * 60,
            final(self)@.original_seconds == duration_minutes * 60,
            final(self)@.wf(),
    {
        let seconds: u64 = duration_minutes * 60;
        *self = TimerState {
            phase: TimerPhase::Active,
            remaining_seconds: seconds,
            original_seconds: seconds,
            todo_title,
            todo_id,
        };
    }

    /// Ends the session, whatever its phase. The seconds stay as they were.
    pub fn stop(&mut self)
        ensures
            final(self)@ == old(self)@.stop(),
            final(self)@.phase == TimerPhase::Idle,
            final(self)@.wf(),
    {
        proof {
            use_type_invariant(&*self);
        }
        self.phase = TimerPhase::Idle;
    }

    /// Holds an active session. A timer in any other phase refuses and
    /// stays as it is.
    pub fn pause(&mut self) -> (result: Result<(), TimerError>)
        ensures
            result is Ok <==> old(self)@.phase == TimerPhase::Active,
            result is Err ==> result == Err::<(), TimerError>(TimerError::NotActive),
            final(self)@ == old(self)@.pause(),
            result is Ok ==> final(self)@.phase == TimerPhase::Paused,
            result is Err ==> final(self)@ == old(self)@,
            final(self)@.wf(),
    {
        proof {
            use_type_invariant(&*self);
        }
        if self.phase == TimerPhase::Active {
            self.phase = TimerPhase::Paused;
            Ok(())
        } else {
            Err(TimerError::NotActive)
        }
    }

    /// Lets a held session count again. A timer in any other phase refuses
    /// and stays as it is.
    pub fn resume(&mut self) -> (result: Result<(), TimerError>)
        ensures
            result is Ok <==> old(self)@.phase == TimerPhase::Paused,
            result is Err ==> result == Err::<(), TimerError>(TimerError::NotPaused),
            final(self)@ == old(self)@.resume(),
            result is Ok ==> final(self)@.phase == TimerPhase::Active,
            result is Err ==> final(self)@ == old(self)@,
            final(self)@.wf(),
    {
        proof {
            use_type_invariant(&*self);
        }
        if self.phase == TimerPhase::Paused {
            self.phase = TimerPhase::Active;
            Ok(())
        } else {
            Err(TimerError::NotPaused)
        }
    }

    /// Gives the session its full time back and holds it. Counting begins
    /// again only with `resume`.
    pub fn restart(&mut self)
        ensures
            final(self)@ == old(self)@.restart(),
            final(self)@.phase == TimerPhase::Paused,
            final(self)@.remaining_seconds == old(self)@.original_seconds,
            final(self)@.wf(),
    {
        proof {
            use_type_invariant(&*self);
        }
        self.remaining_seconds = self.original_seconds;
        self.phase = TimerPhase::Paused;
    }

    /// One tick of the countdown: a record that is not counting is left
    /// alone, one with seconds left loses one, one without is finished.
    pub fn tick(&mut self) -> (outcome: TickOutcome)
        ensures
            outcome == old(self)@.tick_outcome(),
            final(self)@ == old(self)@.tick(),
            final(self)@.wf(),
    {
        proof {
            use_type_invariant(&*self);
        }
        if self.phase != TimerPhase::Active {
            TickOutcome::Cancelled
        } else if self.remaining_seconds > 0 {
            self.remaining_seconds = self.remaining_seconds - 1;
            TickOutcome::Counted
        } else {
            self.phase = TimerPhase::Finished;
            TickOutcome::Completed
        }
    }

    /// A copy of the record as it is now.
    pub fn snapshot(&self) -> (copy: TimerState)
        ensures
            copy@ == self@,
            copy@.wf(),
    {
        proof {
            use_type_invariant(self);
        }
        TimerState {
            phase: self.phase,
            remaining_seconds: self.remaining_seconds,
            original_seconds: self.original_seconds,
            todo_title: self.todo_title.clone(),
            todo_id: self.todo_id.clone(),
        }
    }
}

impl Default for TimerState {
    fn default() -> (timer: TimerState)
        ensures
            timer@ == TimerModel::idle(),
    {
        TimerState::new()
    }
}

impl Clone for TimerState {
    fn clone(&self) -> (copy: TimerState)
        ensures
            copy@ == self@,
    {
        self.snapshot()
    }
}

/// The timer engine: the one record and the generation of the one
/// countdown that may advance it.
///
/// The engine is a single owned value. A program that reaches it from
/// several tasks keeps it behind one lock and holds the lock for the length
/// of one call.
#[derive(Debug)]
pub struct AppTimerState {
    timer: TimerState,
    generation: u64,
}

impl View for AppTimerState {
    type V = EngineModel;

    closed spec fn view(&self) -> EngineModel {
        EngineModel { timer: self.timer@, generation: self.generation as nat }
    }
}

impl AppTimerState {
    /// The engine at process start.
    pub fn new() -> (engine: AppTimerState)
        ensures
            engine@ == EngineModel::initial(),
            engine@.wf(),
    {
        AppTimerState { timer: TimerState::new(), generation: 0 }
    }

    /// The record.
    pub fn timer(&self) -> (timer: &TimerState)
        ensures
            timer@ == self@.timer,
            timer@.wf(),
    {
        proof {
            use_type_invariant(&self.timer);
        }
        &self.timer
    }

    /// The token of the one countdown that may advance the record.
    pub fn generation(&self) -> (generation: u64)
        ensures
            generation == self@.generation,
    {
        self.generation
    }

    /// Moves the generation on, which retires every countdown spawned so far.
    fn retire_countdowns(&mut self)
        ensures
            final(self)@.timer == old(self)@.timer,
            final(self)@.generation == next_generation(old(self)@.generation),
    {
        if self.generation == u64::MAX {
            self.generation = 0;
        } else {
            self.generation = self.generation + 1;
        }
    }

    /// Begins a session and returns the token for its countdown.
    pub fn start(
        &mut self,
        todo_title: String,
        todo_id: String,
        duration_minutes: u64,
    ) -> (token: u64)
        requires
            duration_minutes * 60 <= u64::MAX,
        ensures
            final(self)@ == old(self)@.start(todo_title@, todo_id@, duration_minutes as nat),
            token == final(self)@.generation,
            token != old(self)@.generation,
            final(self)@.wf(),
    {
        self.timer.start(todo_title, todo_id, duration_minutes);
        self.retire_countdowns();
        self.generation
    }

    /// Ends the session and retires its countdown.
    pub fn stop(&mut self)
        ensures
            final(self)@ == old(self)@.stop(),
            final(self)@.generation != old(self)@.generation,
            final(self)@.wf(),
    {
        self.timer.stop();
        self.retire_countdowns();
    }

    /// Holds an active session; refuses in any other phase.
    pub fn pause(&mut self) -> (result: Result<(), TimerError>)
        ensures
            result is Ok <==> old(self)@.timer.phase == TimerPhase::Active,
            result is Err ==> result == Err::<(), TimerError>(TimerError::NotActive),
            final(self)@ == old(self)@.pause(),
            final(self)@.wf(),
    {
        self.timer.pause()
    }

    /// Lets a held session count again and returns the token for its new
    /// countdown; refuses in any other phase.
    pub fn resume(&mut self) -> (result: Result<u64, TimerError>)
        ensures
            result is Ok <==> old(self)@.timer.phase == TimerPhase::Paused,
            result is Err ==> result == Err::<u64, TimerError>(TimerError::NotPaused),
            final(self)@ == old(self)@.resume(),
            result matches Ok(token) ==> token == final(self)@.generation,
            result is Ok ==> final(self)@.generation != old(self)@.generation,
            final(self)@.wf(),
    {
        match self.timer.resume() {
            Ok(()) => {
                self.retire_countdowns();
                Ok(self.generation)
            },
            Err(error) => Err(error),
        }
    }

    /// Primes the session with its full time and holds it.
    pub fn restart(&mut self)
        ensures
            final(self)@ == old(self)@.restart(),
            final(self)@.wf(),
    {
        self.timer.restart();
    }

    /// One tick of the countdown that carries `token`. A stale token leaves
    /// the engine untouched.
    pub fn tick(&mut self, token: u64) -> (outcome: TickOutcome)
        ensures
            outcome == old(self)@.tick_outcome(token as nat),
            final(self)@ == old(self)@.tick(token as nat),
            final(self)@.wf(),
    {
        proof {
            use_type_invariant(&self.timer);
        }
        if token != self.generation {
            TickOutcome::Cancelled
        } else {
            self.timer.tick()
        }
    }

    /// A copy of the record as it is now.
    pub fn snapshot(&self) -> (copy: TimerState)
        ensures
            copy@ == self@.timer,
            copy@.wf(),
    {
        self.timer.snapshot()
    }

    /// Brings the engine back to a known state after the lock around it was
    /// found poisoned: the session is ended as by `stop`, and the error to
    /// report is returned.
    pub fn recover(&mut self) -> (error: TimerError)
        ensures
            error == TimerError::LockPoisoned,
            final(self)@ == old(self)@.stop(),
            final(self)@.timer.phase == TimerPhase::Idle,
            final(self)@.wf(),
    {
        self.stop();
        TimerError::LockPoisoned
    }
}

impl Default for AppTimerState {
    fn default() -> (engine: AppTimerState)
        ensures
            engine@ == EngineModel::initial(),
    {
        AppTimerState::new()
    }
}

} // verus!
