//! What a command or a tick asks its caller to carry out.

use vstd::prelude::*;
use crate::model::TimerModel;
use crate::types::TimerState;
use crate::window::Surface;

verus! {

/// One thing for the caller to do on a window, for an observer or for the
/// user. A window that does not exist is passed over: that is no error.
#[derive(Debug)]
pub enum Effect {
    /// Hide the window.
    HideWindow(Surface),
    /// Show the window.
    ShowWindow(Surface),
    /// Give the window the focus.
    FocusWindow(Surface),
    /// Close the window.
    CloseWindow(Surface),
    /// Open the countdown display, in place of one that is still open.
    OpenTimerWindow,
    /// Spawn the one countdown of the session, carrying this token.
    SpawnCountdown(u64),
    /// Send the snapshot to the countdown display.
    EmitUpdate(TimerState),
    /// Tell every observer that the countdown has completed.
    EmitFinished,
    /// Raise a notification on the user's desktop.
    Notify { title: String, body: String },
}

/// An effect as a mathematical value.
pub ghost enum EffectModel {
    HideWindow(Surface),
    ShowWindow(Surface),
    FocusWindow(Surface),
    CloseWindow(Surface),
    OpenTimerWindow,
    SpawnCountdown(nat),
    EmitUpdate(TimerModel),
    EmitFinished,
    Notify { title: Seq<char>, body: Seq<char> },
}

impl View for Effect {
    type V = EffectModel;

    open spec fn view(&self) -> EffectModel {
        match *self {
            Effect::HideWindow(surface) => EffectModel::HideWindow(surface),
            Effect::ShowWindow(surface) => EffectModel::ShowWindow(surface),
            Effect::FocusWindow(surface) => EffectModel::FocusWindow(surface),
            Effect::CloseWindow(surface) => EffectModel::CloseWindow(surface),
            Effect::OpenTimerWindow => EffectModel::OpenTimerWindow,
            Effect::SpawnCountdown(token) => EffectModel::SpawnCountdown(token as nat),
            Effect::EmitUpdate(snapshot) => EffectModel::EmitUpdate(snapshot@),
            Effect::EmitFinished => EffectModel::EmitFinished,
            Effect::Notify { title, body } => EffectModel::Notify { title: title@, body: body@ },
        }
    }
}

/// A plan, the effects of one call in the order in which they are carried
/// out, as a mathematical value.
pub open spec fn plan_view(plan: Seq<Effect>) -> Seq<EffectModel> {
    plan.map_values(|effect: Effect| effect@)
}

/// The plan that closes the countdown display and brings the task list back.
pub open spec fn restore_main_plan() -> Seq<EffectModel> {
    seq![
        EffectModel::CloseWindow(Surface::Timer),
        EffectModel::ShowWindow(Surface::Main),
        EffectModel::FocusWindow(Surface::Main),
    ]
}

/// Builds the plan that closes the countdown display and brings the task
/// list back.
pub fn restore_main() -> (plan: Vec<Effect>)
    ensures
        plan_view(plan@) == restore_main_plan(),
{
    let mut plan: Vec<Effect> = Vec::new();
    plan.push(Effect::CloseWindow(Surface::Timer));
    plan.push(Effect::ShowWindow(Surface::Main));
    plan.push(Effect::FocusWindow(Surface::Main));
    assert(plan_view(plan@) =~= restore_main_plan());
    plan
}

} // verus!
