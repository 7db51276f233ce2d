//! The commands of the presentation layer.
//!
//! Each command changes the engine and returns the plan that the caller
//! carries out on windows and observers, in order. A command never waits
//! and never fails for want of a window.

use vstd::prelude::*;
use vstd::string::*;
use crate::effect::{plan_view, restore_main, restore_main_plan, Effect, EffectModel};
use crate::model::{TimerModel, TimerPhase};
use crate::timer::update_plan;
use crate::types::{AppTimerState, TimerError, TimerState};
use crate::window::Surface;

verus! {

/// The greeting for `name` in the model.
pub open spec fn spec_greet(name: Seq<char>) -> Seq<char> {
    "Hello, "@ + name + "! You've been greeted from Rust!"@
}

/// Greets `name`.
pub fn greet(name: &str) -> (greeting: String)
    ensures
        greeting@ == spec_greet(name@),
{
    String::from_str("Hello, ").concat(name).concat("! You've been greeted from Rust!")
}

/// The plan of a start: the task list hides, the countdown display opens,
/// and the countdown of the new session is spawned.
pub open spec fn start_plan(token: nat) -> Seq<EffectModel> {
    seq![
        EffectModel::HideWindow(Surface::Main),
        EffectModel::OpenTimerWindow,
        EffectModel::SpawnCountdown(token),
    ]
}

/// The plan of a resume: the display gets the snapshot and the countdown of
/// the resumed session is spawned.
pub open spec fn resume_plan(snapshot: TimerModel, token: nat) -> Seq<EffectModel> {
    seq![EffectModel::EmitUpdate(snapshot), EffectModel::SpawnCountdown(token)]
}

/// The plan that hides the application into the system tray.
pub open spec fn hide_plan() -> Seq<EffectModel> {
    seq![EffectModel::HideWindow(Surface::Main), EffectModel::HideWindow(Surface::Timer)]
}

/// The plan that brings the task list back from the system tray.
pub open spec fn show_plan() -> Seq<EffectModel> {
    seq![EffectModel::ShowWindow(Surface::Main), EffectModel::FocusWindow(Surface::Main)]
}

/// Starts a session of `duration_minutes` minutes for the given task,
/// discarding any session there was.
///
/// The caller stops carrying out the plan at the first effect that fails.
pub fn start_timer(
    timer_state: &mut AppTimerState,
    todo_title: String,
    todo_id: String,
    duration_minutes: u64,
) -> (plan: Vec<Effect>)
    requires
        duration_minutes * 60 <= u64::MAX,
    ensures
        final(timer_state)@ == old(timer_state)@.start(
            todo_title@,
            todo_id@,
            duration_minutes as nat,
        ),
        final(timer_state)@.timer.phase == TimerPhase::Active,
        final(timer_state)@.timer.remaining_seconds == duration_minutes * 60,
        final(timer_state)@.timer.original_seconds == duration_minutes * 60,
        plan_view(plan@) == start_plan(final(timer_state)@.generation),
        final(timer_state)@.wf(),
{
    let token = timer_state.start(todo_title, todo_id, duration_minutes);
    let mut plan: Vec<Effect> = Vec::new();
    plan.push(Effect::HideWindow(Surface::Main));
    plan.push(Effect::OpenTimerWindow);
    plan.push(Effect::SpawnCountdown(token));
    assert(plan_view(plan@) =~= start_plan(token as nat));
    plan
}

/// Stops the timer from any phase, closes the countdown display and brings
/// the task list back. The seconds stay as they were.
pub fn stop_timer(timer_state: &mut AppTimerState) -> (plan: Vec<Effect>)
    ensures
        final(timer_state)@ == old(timer_state)@.stop(),
        final(timer_state)@.timer.phase == TimerPhase::Idle,
        plan_view(plan@) == restore_main_plan(),
        final(timer_state)@.wf(),
{
    timer_state.stop();
    restore_main()
}

/// Pauses an active timer and sends the display the snapshot. In any other
/// phase the command is refused and nothing changes.
pub fn pause_timer(timer_state: &mut AppTimerState) -> (result: Result<Vec<Effect>, TimerError>)
    ensures
        result is Ok <==> old(timer_state)@.timer.phase == TimerPhase::Active,
        result matches Err(error) ==> error == TimerError::NotActive,
        final(timer_state)@ == old(timer_state)@.pause(),
        result matches Ok(plan) ==> plan_view(plan@) == update_plan(final(timer_state)@.timer),
        final(timer_state)@.wf(),
{
    match timer_state.pause() {
        Ok(()) => {
            let mut plan: Vec<Effect> = Vec::new();
            plan.push(Effect::EmitUpdate(timer_state.snapshot()));
            assert(plan_view(plan@) =~= update_plan(timer_state@.timer));
            Ok(plan)
        },
        Err(error) => Err(error),
    }
}

/// Resumes a paused timer: the display gets the snapshot and a new
/// countdown is spawned. In any other phase the command is refused and
/// nothing changes.
pub fn resume_timer(timer_state: &mut AppTimerState) -> (result: Result<Vec<Effect>, TimerError>)
    ensures
        result is Ok <==> old(timer_state)@.timer.phase == TimerPhase::Paused,
        result matches Err(error) ==> error == TimerError::NotPaused,
        final(timer_state)@ == old(timer_state)@.resume(),
        result matches Ok(plan) ==> plan_view(plan@) == resume_plan(
            final(timer_state)@.timer,
            final(timer_state)@.generation,
        ),
        final(timer_state)@.wf(),
{
    match timer_state.resume() {
        Ok(token) => {
            let mut plan: Vec<Effect> = Vec::new();
            plan.push(Effect::EmitUpdate(timer_state.snapshot()));
            plan.push(Effect::SpawnCountdown(token));
            assert(plan_view(plan@) =~= resume_plan(timer_state@.timer, token as nat));
            Ok(plan)
        },
        Err(error) => Err(error),
    }
}

/// Gives the session its full time back, holds it and sends the display
/// the snapshot. No countdown is spawned: counting begins with a resume.
pub fn restart_timer(timer_state: &mut AppTimerState) -> (plan: Vec<Effect>)
    ensures
        final(timer_state)@ == old(timer_state)@.restart(),
        final(timer_state)@.timer.phase == TimerPhase::Paused,
        final(timer_state)@.timer.remaining_seconds == old(timer_state)@.timer.original_seconds,
        plan_view(plan@) == update_plan(final(timer_state)@.timer),
        final(timer_state)@.wf(),
{
    timer_state.restart();
    let mut plan: Vec<Effect> = Vec::new();
    plan.push(Effect::EmitUpdate(timer_state.snapshot()));
    assert(plan_view(plan@) =~= update_plan(timer_state@.timer));
    plan
}

/// The snapshot of the timer as it is now.
pub fn get_timer_state(timer_state: &AppTimerState) -> (snapshot: TimerState)
    ensures
        snapshot@ == timer_state@.timer,
        snapshot@.wf(),
{
    timer_state.snapshot()
}

/// Stops the timer because its display is closing, and brings the task
/// list back.
pub fn close_timer_window(timer_state: &mut AppTimerState) -> (plan: Vec<Effect>)
    ensures
        final(timer_state)@ == old(timer_state)@.stop(),
        final(timer_state)@.timer.phase == TimerPhase::Idle,
        plan_view(plan@) == restore_main_plan(),
        final(timer_state)@.wf(),
{
    stop_timer(timer_state)
}

/// Hides the task list and the countdown display into the system tray.
pub fn hide_app_to_tray() -> (plan: Vec<Effect>)
    ensures
        plan_view(plan@) == hide_plan(),
{
    let mut plan: Vec<Effect> = Vec::new();
    plan.push(Effect::HideWindow(Surface::Main));
    plan.push(Effect::HideWindow(Surface::Timer));
    assert(plan_view(plan@) =~= hide_plan());
    plan
}

/// Brings the task list back from the system tray.
pub fn show_app_from_tray() -> (plan: Vec<Effect>)
    ensures
        plan_view(plan@) == show_plan(),
{
    let mut plan: Vec<Effect> = Vec::new();
    plan.push(Effect::ShowWindow(Surface::Main));
    plan.push(Effect::FocusWindow(Surface::Main));
    assert(plan_view(plan@) =~= show_plan());
    plan
}

} // verus!
