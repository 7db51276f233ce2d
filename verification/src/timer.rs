//! One tick of the countdown.
//!
//! The countdown itself sleeps a second between ticks, which only the
//! caller can do. After each sleep it calls `countdown_tick`, carries out
//! the plan it gets back, and goes on while the outcome is `Counted`.

use vstd::prelude::*;
use vstd::string::*;
use crate::effect::{plan_view, restore_main, restore_main_plan, Effect, EffectModel};
use crate::model::{EngineModel, TickOutcome, TimerModel};
use crate::types::AppTimerState;

verus! {

/// The seconds that the countdown sleeps before each tick.
pub const TICK_SECONDS: u64 = 1;

/// The name of the event that carries a snapshot to the countdown display.
pub const UPDATE_EVENT: &'static str = "timer-update";

/// The name of the event that tells every observer of a completed countdown.
pub const FINISHED_EVENT: &'static str = "timer-finished";

impl TickOutcome {
    /// True when the countdown sleeps and ticks again.
    pub fn goes_on(&self) -> (goes_on: bool)
        ensures
            goes_on == (*self == TickOutcome::Counted),
    {
        match self {
            TickOutcome::Counted => true,
            TickOutcome::Cancelled => false,
            TickOutcome::Completed => false,
        }
    }
}

/// The title of the notification that a completed countdown raises.
pub open spec fn completion_title() -> Seq<char> {
    "Timer Completed!"@
}

/// The body of the notification that a completed countdown raises.
pub open spec fn completion_body(todo_title: Seq<char>) -> Seq<char> {
    "Time's up for: "@ + todo_title
}

/// The plan that sends one snapshot to the countdown display.
pub open spec fn update_plan(snapshot: TimerModel) -> Seq<EffectModel> {
    seq![EffectModel::EmitUpdate(snapshot)]
}

/// The plan of a completed countdown: the notification, the event for the
/// observers, then the countdown display closes and the task list returns.
pub open spec fn completion_plan(todo_title: Seq<char>) -> Seq<EffectModel> {
    seq![
        EffectModel::Notify { title: completion_title(), body: completion_body(todo_title) },
        EffectModel::EmitFinished,
    ] + restore_main_plan()
}

/// The plan of a tick: nothing when it was cancelled, the new snapshot when
/// it counted, the completion when no second was left.
pub open spec fn tick_plan(engine: EngineModel, token: nat) -> Seq<EffectModel> {
    match engine.tick_outcome(token) {
        TickOutcome::Cancelled => Seq::empty(),
        TickOutcome::Counted => update_plan(engine.tick(token).timer),
        TickOutcome::Completed => completion_plan(engine.timer.todo_title),
    }
}

/// What one tick did and what the countdown has to carry out for it.
#[derive(Debug)]
pub struct CountdownStep {
    pub outcome: TickOutcome,
    pub plan: Vec<Effect>,
}

/// Builds the notification for the task with this title.
pub fn completion_notice(todo_title: &String) -> (notice: Effect)
    ensures
        notice@ == (EffectModel::Notify {
            title: completion_title(),
            body: completion_body(todo_title@),
        }),
{
    let title = String::from_str("Timer Completed!");
    let body = String::from_str("Time's up for: ").concat(todo_title.as_str());
    Effect::Notify { title, body }
}

/// Takes the tick of the countdown that carries `token`, after its
/// one-second sleep.
///
/// A countdown whose token is stale, or that finds the timer held, stopped
/// or finished, changes nothing and emits nothing. Otherwise a second is
/// taken off and the new snapshot goes to the display; when no second is
/// left the session is finished and completion is announced, once.
pub fn countdown_tick(timer_state: &mut AppTimerState, token: u64) -> (step: CountdownStep)
    ensures
        final(timer_state)@ == old(timer_state)@.tick(token as nat),
        step.outcome == old(timer_state)@.tick_outcome(token as nat),
        plan_view(step.plan@) == tick_plan(old(timer_state)@, token as nat),
        final(timer_state)@.wf(),
{
    let outcome = timer_state.tick(token);
    match outcome {
        TickOutcome::Cancelled => {
            let plan: Vec<Effect> = Vec::new();
            assert(plan_view(plan@) =~= Seq::<EffectModel>::empty());
            CountdownStep { outcome, plan }
        },
        TickOutcome::Counted => {
            let mut plan: Vec<Effect> = Vec::new();
            plan.push(Effect::EmitUpdate(timer_state.snapshot()));
            assert(plan_view(plan@) =~= update_plan(timer_state@.timer));
            CountdownStep { outcome, plan }
        },
        TickOutcome::Completed => {
            let mut plan: Vec<Effect> = Vec::new();
            plan.push(completion_notice(timer_state.timer().todo_title()));
            plan.push(Effect::EmitFinished);
            let mut restore = restore_main();
            let ghost restore_view = plan_view(restore@);
            let ghost head = plan@;
            plan.append(&mut restore);
            assert(plan_view(plan@) =~= plan_view(head) + restore_view);
            assert(plan_view(plan@) =~= completion_plan(old(timer_state)@.timer.todo_title));
            CountdownStep { outcome, plan }
        },
    }
}

} // verus!
