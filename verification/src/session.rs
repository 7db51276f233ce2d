//! Sessions: what sequences of commands and ticks do to the engine.
//!
//! A session is the lifetime of one countdown, from the start or resume
//! that spawned it. The theorems here are stated over the model that the
//! contracts of the commands and of the tick speak of.

use vstd::prelude::*;
use crate::commands::{resume_plan, start_plan};
use crate::effect::{restore_main_plan, EffectModel};
use crate::model::{EngineModel, TickOutcome, TimerModel, TimerPhase};
use crate::timer::{completion_body, completion_plan, completion_title, tick_plan, update_plan};
use crate::window::Surface;

verus! {

/// One call on the engine: a command of the presentation layer or a tick of
/// a countdown.
pub ghost enum Event {
    Start { todo_title: Seq<char>, todo_id: Seq<char>, duration_minutes: nat },
    Stop,
    Pause,
    Resume,
    Restart,
    Tick { token: nat },
}

impl Event {
    /// True of the two commands that spawn a countdown.
    pub open spec fn begins_countdown(self) -> bool {
        self is Start || self is Resume
    }
}

/// The engine after one event.
pub open spec fn step(engine: EngineModel, event: Event) -> EngineModel {
    match event {
        Event::Start { todo_title, todo_id, duration_minutes } => engine.start(
            todo_title,
            todo_id,
            duration_minutes,
        ),
        Event::Stop => engine.stop(),
        Event::Pause => engine.pause(),
        Event::Resume => engine.resume(),
        Event::Restart => engine.restart(),
        Event::Tick { token } => engine.tick(token),
    }
}

/// The plan that one event hands to the caller. A refused command hands
/// over nothing.
pub open spec fn plan_of(engine: EngineModel, event: Event) -> Seq<EffectModel> {
    match event {
        Event::Start { .. } => start_plan(step(engine, event).generation),
        Event::Stop => restore_main_plan(),
        Event::Pause => if engine.timer.phase == TimerPhase::Active {
            update_plan(engine.pause().timer)
        } else {
            Seq::empty()
        },
        Event::Resume => if engine.timer.phase == TimerPhase::Paused {
            resume_plan(engine.resume().timer, engine.resume().generation)
        } else {
            Seq::empty()
        },
        Event::Restart => update_plan(engine.restart().timer),
        Event::Tick { token } => tick_plan(engine, token),
    }
}

/// The engine after a sequence of events.
pub open spec fn run(engine: EngineModel, events: Seq<Event>) -> EngineModel
    decreases events.len(),
{
    if events.len() == 0 {
        engine
    } else {
        step(run(engine, events.drop_last()), events.last())
    }
}

/// The number of "finished" events in a plan.
pub open spec fn finished_in(plan: Seq<EffectModel>) -> nat
    decreases plan.len(),
{
    if plan.len() == 0 {
        0
    } else {
        finished_in(plan.drop_last()) + if plan.last() is EmitFinished {
            1nat
        } else {
            0nat
        }
    }
}

/// The number of notifications in a plan.
pub open spec fn notices_in(plan: Seq<EffectModel>) -> nat
    decreases plan.len(),
{
    if plan.len() == 0 {
        0
    } else {
        notices_in(plan.drop_last()) + if plan.last() is Notify {
            1nat
        } else {
            0nat
        }
    }
}

/// The number of "finished" events that a sequence of events fires.
pub open spec fn finished_fired(engine: EngineModel, events: Seq<Event>) -> nat
    decreases events.len(),
{
    if events.len() == 0 {
        0
    } else {
        finished_fired(engine, events.drop_last()) + finished_in(
            plan_of(run(engine, events.drop_last()), events.last()),
        )
    }
}

/// The number of notifications that a sequence of events raises.
pub open spec fn notices_raised(engine: EngineModel, events: Seq<Event>) -> nat
    decreases events.len(),
{
    if events.len() == 0 {
        0
    } else {
        notices_raised(engine, events.drop_last()) + notices_in(
            plan_of(run(engine, events.drop_last()), events.last()),
        )
    }
}

/// `count` ticks in a row, all carrying `token`.
pub open spec fn ticks(token: nat, count: nat) -> Seq<Event> {
    Seq::new(count, |i: int| Event::Tick { token })
}

proof fn lemma_count_push(plan: Seq<EffectModel>, effect: EffectModel)
    ensures
        finished_in(plan.push(effect)) == finished_in(plan) + if effect is EmitFinished {
            1nat
        } else {
            0nat
        },
        notices_in(plan.push(effect)) == notices_in(plan) + if effect is Notify {
            1nat
        } else {
            0nat
        },
{
    assert(plan.push(effect).drop_last() =~= plan);
    assert(plan.push(effect).last() == effect);
}

proof fn lemma_count_restore_main()
    ensures
        finished_in(restore_main_plan()) == 0,
        notices_in(restore_main_plan()) == 0,
{
    let close = EffectModel::CloseWindow(Surface::Timer);
    let show = EffectModel::ShowWindow(Surface::Main);
    let focus = EffectModel::FocusWindow(Surface::Main);
    let empty = Seq::<EffectModel>::empty();
    lemma_count_push(empty, close);
    lemma_count_push(empty.push(close), show);
    lemma_count_push(empty.push(close).push(show), focus);
    assert(restore_main_plan() =~= empty.push(close).push(show).push(focus));
}

proof fn lemma_count_update(snapshot: TimerModel)
    ensures
        finished_in(update_plan(snapshot)) == 0,
        notices_in(update_plan(snapshot)) == 0,
{
    let empty = Seq::<EffectModel>::empty();
    lemma_count_push(empty, EffectModel::EmitUpdate(snapshot));
    assert(update_plan(snapshot) =~= empty.push(EffectModel::EmitUpdate(snapshot)));
}

proof fn lemma_count_start(token: nat)
    ensures
        finished_in(start_plan(token)) == 0,
        notices_in(start_plan(token)) == 0,
{
    let hide = EffectModel::HideWindow(Surface::Main);
    let empty = Seq::<EffectModel>::empty();
    lemma_count_push(empty, hide);
    lemma_count_push(empty.push(hide), EffectModel::OpenTimerWindow);
    lemma_count_push(
        empty.push(hide).push(EffectModel::OpenTimerWindow),
        EffectModel::SpawnCountdown(token),
    );
    assert(start_plan(token) =~= empty.push(hide).push(EffectModel::OpenTimerWindow).push(
        EffectModel::SpawnCountdown(token),
    ));
}

proof fn lemma_count_resume(snapshot: TimerModel, token: nat)
    ensures
        finished_in(resume_plan(snapshot, token)) == 0,
        notices_in(resume_plan(snapshot, token)) == 0,
{
    let empty = Seq::<EffectModel>::empty();
    lemma_count_push(empty, EffectModel::EmitUpdate(snapshot));
    lemma_count_push(
        empty.push(EffectModel::EmitUpdate(snapshot)),
        EffectModel::SpawnCountdown(token),
    );
    assert(resume_plan(snapshot, token) =~= empty.push(EffectModel::EmitUpdate(snapshot)).push(
        EffectModel::SpawnCountdown(token),
    ));
}

proof fn lemma_count_completion(todo_title: Seq<char>)
    ensures
        finished_in(completion_plan(todo_title)) == 1,
        notices_in(completion_plan(todo_title)) == 1,
{
    let notice = EffectModel::Notify {
        title: completion_title(),
        body: completion_body(todo_title),
    };
    let close = EffectModel::CloseWindow(Surface::Timer);
    let show = EffectModel::ShowWindow(Surface::Main);
    let focus = EffectModel::FocusWindow(Surface::Main);
    let empty = Seq::<EffectModel>::empty();
    let noticed = empty.push(notice);
    let announced = noticed.push(EffectModel::EmitFinished);
    let closed = announced.push(close);
    let shown = closed.push(show);
    let focused = shown.push(focus);
    lemma_count_push(empty, notice);
    lemma_count_push(noticed, EffectModel::EmitFinished);
    lemma_count_push(announced, close);
    lemma_count_push(closed, show);
    lemma_count_push(shown, focus);
    assert(completion_plan(todo_title) =~= focused);
}

/// Completion is announced by the tick that finds no second left, and by
/// nothing else: that tick fires one "finished" event and raises one
/// notification, and every other event, a pause among them, fires and
/// raises none.
pub proof fn lemma_only_the_last_tick_announces(engine: EngineModel, event: Event)
    ensures
        finished_in(plan_of(engine, event)) == notices_in(plan_of(engine, event)),
        finished_in(plan_of(engine, event)) == if event matches Event::Tick { token }
            && engine.tick_outcome(token) == TickOutcome::Completed {
            1nat
        } else {
            0nat
        },
{
    lemma_count_restore_main();
    match event {
        Event::Start { .. } => {
            lemma_count_start(step(engine, event).generation);
        },
        Event::Stop => {},
        Event::Pause => {
            lemma_count_update(engine.pause().timer);
        },
        Event::Resume => {
            lemma_count_resume(engine.resume().timer, engine.resume().generation);
        },
        Event::Restart => {
            lemma_count_update(engine.restart().timer);
        },
        Event::Tick { token } => {
            lemma_count_update(engine.tick(token).timer);
            lemma_count_completion(engine.timer.todo_title);
        },
    }
}

/// The invariant of the engine holds throughout: from the engine at process
/// start, or from any engine that meets it, no sequence of events leads to
/// an engine with more seconds left than the session began with.
pub proof fn lemma_invariant_holds_throughout(engine: EngineModel, events: Seq<Event>)
    requires
        engine.wf(),
    ensures
        EngineModel::initial().wf(),
        run(engine, events).wf(),
        run(engine, events).timer.remaining_seconds <= run(engine, events).timer.original_seconds,
    decreases events.len(),
{
    if events.len() > 0 {
        lemma_invariant_holds_throughout(engine, events.drop_last());
    }
}

/// A tick takes a second off only when it carries the live token and finds
/// the timer active with a second left. It then takes exactly one; any
/// other tick leaves the seconds as they are. No tick takes the remaining
/// seconds below zero or above the original ones.
pub proof fn lemma_tick_takes_at_most_one_second(engine: EngineModel, token: nat)
    requires
        engine.wf(),
    ensures
        engine.tick(token).wf(),
        engine.tick_outcome(token) == TickOutcome::Counted <==> token == engine.generation
            && engine.timer.phase == TimerPhase::Active && engine.timer.remaining_seconds > 0,
        engine.tick_outcome(token) == TickOutcome::Counted ==> engine.tick(
            token,
        ).timer.remaining_seconds + 1 == engine.timer.remaining_seconds && engine.tick(
            token,
        ).timer.phase == TimerPhase::Active,
        engine.tick_outcome(token) != TickOutcome::Counted ==> engine.tick(
            token,
        ).timer.remaining_seconds == engine.timer.remaining_seconds,
{
}

proof fn lemma_ticks_unfold(token: nat, count: nat)
    requires
        count > 0,
    ensures
        ticks(token, count).drop_last() == ticks(token, (count - 1) as nat),
        ticks(token, count).last() == (Event::Tick { token }),
{
    assert(ticks(token, count).drop_last() =~= ticks(token, (count - 1) as nat));
}

/// While the timer is active, each tick of its countdown takes exactly one
/// second off: after `count` ticks, `count` seconds are gone, and nothing
/// else in the engine has changed.
pub proof fn lemma_countdown_is_monotone(engine: EngineModel, count: nat)
    requires
        engine.timer.phase == TimerPhase::Active,
        count <= engine.timer.remaining_seconds,
    ensures
        run(engine, ticks(engine.generation, count)) == (EngineModel {
            timer: TimerModel {
                remaining_seconds: (engine.timer.remaining_seconds - count) as nat,
                ..engine.timer
            },
            ..engine
        }),
        finished_fired(engine, ticks(engine.generation, count)) == 0,
        notices_raised(engine, ticks(engine.generation, count)) == 0,
    decreases count,
{
    let events = ticks(engine.generation, count);
    if count == 0 {
        assert(events.len() == 0);
    } else {
        lemma_ticks_unfold(engine.generation, count);
        lemma_countdown_is_monotone(engine, (count - 1) as nat);
        let before = run(engine, events.drop_last());
        lemma_only_the_last_tick_announces(before, events.last());
    }
}

/// A countdown that nothing interrupts completes exactly once: the tick
/// that finds no second left finishes the session, fires one "finished"
/// event and raises one notification, and every later tick is cancelled.
pub proof fn lemma_uninterrupted_countdown_completes_once(engine: EngineModel, count: nat)
    requires
        engine.timer.phase == TimerPhase::Active,
        count > engine.timer.remaining_seconds,
    ensures
        run(engine, ticks(engine.generation, count)) == (EngineModel {
            timer: TimerModel {
                phase: TimerPhase::Finished,
                remaining_seconds: 0,
                ..engine.timer
            },
            ..engine
        }),
        finished_fired(engine, ticks(engine.generation, count)) == 1,
        notices_raised(engine, ticks(engine.generation, count)) == 1,
    decreases count,
{
    let events = ticks(engine.generation, count);
    lemma_ticks_unfold(engine.generation, count);
    let before = run(engine, events.drop_last());
    if count == engine.timer.remaining_seconds + 1 {
        lemma_countdown_is_monotone(engine, (count - 1) as nat);
    } else {
        lemma_uninterrupted_countdown_completes_once(engine, (count - 1) as nat);
    }
    lemma_only_the_last_tick_announces(before, events.last());
}

/// Completion is one-shot. In a session, that is over any sequence of
/// events in which no countdown is spawned anew, at most one "finished"
/// event fires and as many notifications are raised; once it has fired the
/// timer is no longer active.
pub proof fn lemma_completion_is_one_shot(engine: EngineModel, events: Seq<Event>)
    requires
        forall|i: int| 0 <= i < events.len() ==> !(#[trigger] events[i]).begins_countdown(),
    ensures
        finished_fired(engine, events) <= 1,
        notices_raised(engine, events) == finished_fired(engine, events),
        finished_fired(engine, events) == 1 ==> run(engine, events).timer.phase
            != TimerPhase::Active,
    decreases events.len(),
{
    if events.len() > 0 {
        let earlier = events.drop_last();
        assert forall|i: int| 0 <= i < earlier.len() implies !(#[trigger] earlier[i])
            .begins_countdown() by {
            assert(earlier[i] == events[i]);
        }
        lemma_completion_is_one_shot(engine, earlier);
        assert(!events.last().begins_countdown()) by {
            assert(events.last() == events[events.len() - 1]);
        }
        lemma_only_the_last_tick_announces(run(engine, earlier), events.last());
    }
}

/// Pausing and then resuming keeps the remaining seconds, whatever ticks,
/// pauses and stops come in between. Where the timer was active and
/// nothing but ticks came in between, the whole record is as it was.
pub proof fn lemma_pause_then_resume_keeps_seconds(engine: EngineModel, between: Seq<Event>)
    requires
        forall|i: int|
            0 <= i < between.len() ==> (#[trigger] between[i]) is Tick || between[i] is Pause
                || between[i] is Stop,
    ensures
        run(engine.pause(), between).timer.phase != TimerPhase::Active,
        run(engine.pause(), between).resume().timer.remaining_seconds
            == engine.timer.remaining_seconds,
        run(engine.pause(), between).resume().timer.original_seconds
            == engine.timer.original_seconds,
        engine.timer.phase == TimerPhase::Active && (forall|i: int|
            0 <= i < between.len() ==> (#[trigger] between[i]) is Tick) ==> run(
            engine.pause(),
            between,
        ).resume().timer == engine.timer,
    decreases between.len(),
{
    if between.len() > 0 {
        let earlier = between.drop_last();
        assert forall|i: int| 0 <= i < earlier.len() implies (#[trigger] earlier[i]) is Tick
            || earlier[i] is Pause || earlier[i] is Stop by {
            assert(earlier[i] == between[i]);
        }
        lemma_pause_then_resume_keeps_seconds(engine, earlier);
        assert(between.last() == between[between.len() - 1]);
        if forall|i: int| 0 <= i < between.len() ==> (#[trigger] between[i]) is Tick {
            assert forall|i: int| 0 <= i < earlier.len() implies (#[trigger] earlier[i])
                is Tick by {
                assert(earlier[i] == between[i]);
            }
        }
    }
}

/// A timer that is not active is not advanced by ticks: whatever tokens
/// they carry, the engine stays as it is and nothing is emitted.
pub proof fn lemma_held_timer_ignores_ticks(engine: EngineModel, events: Seq<Event>)
    requires
        engine.timer.phase != TimerPhase::Active,
        forall|i: int| 0 <= i < events.len() ==> (#[trigger] events[i]) is Tick,
    ensures
        run(engine, events) == engine,
        forall|token: nat| #[trigger] tick_plan(engine, token) == Seq::<EffectModel>::empty(),
        finished_fired(engine, events) == 0,
        notices_raised(engine, events) == 0,
    decreases events.len(),
{
    if events.len() > 0 {
        let earlier = events.drop_last();
        assert forall|i: int| 0 <= i < earlier.len() implies (#[trigger] earlier[i]) is Tick by {
            assert(earlier[i] == events[i]);
        }
        lemma_held_timer_ignores_ticks(engine, earlier);
        assert(events.last() == events[events.len() - 1]);
        lemma_only_the_last_tick_announces(engine, events.last());
    }
}

/// Restarting gives the session its full time back and leaves it paused,
/// and the countdown does not advance until a resume or a new start:
/// whatever ticks, pauses, stops and restarts follow, the timer is not
/// active and all its seconds are left. Ticks alone change nothing at all.
pub proof fn lemma_restart_holds_until_resume(engine: EngineModel, events: Seq<Event>)
    requires
        forall|i: int| 0 <= i < events.len() ==> !(#[trigger] events[i]).begins_countdown(),
    ensures
        engine.restart().timer.phase == TimerPhase::Paused,
        engine.restart().timer.remaining_seconds == engine.timer.original_seconds,
        run(engine.restart(), events).timer.phase != TimerPhase::Active,
        run(engine.restart(), events).timer.remaining_seconds == engine.timer.original_seconds,
        run(engine.restart(), events).timer.original_seconds == engine.timer.original_seconds,
        (forall|i: int| 0 <= i < events.len() ==> (#[trigger] events[i]) is Tick) ==> run(
            engine.restart(),
            events,
        ) == engine.restart(),
    decreases events.len(),
{
    if events.len() > 0 {
        let earlier = events.drop_last();
        assert forall|i: int| 0 <= i < earlier.len() implies !(#[trigger] earlier[i])
            .begins_countdown() by {
            assert(earlier[i] == events[i]);
        }
        lemma_restart_holds_until_resume(engine, earlier);
        assert(events.last() == events[events.len() - 1]);
        if forall|i: int| 0 <= i < events.len() ==> (#[trigger] events[i]) is Tick {
            lemma_held_timer_ignores_ticks(engine.restart(), events);
        }
    }
}

/// At most one countdown is live: of two ticks that carry different
/// tokens, at most one can take a second off or complete the session.
pub proof fn lemma_one_live_countdown(engine: EngineModel, first: nat, second: nat)
    requires
        first != second,
    ensures
        engine.tick_outcome(first) == TickOutcome::Cancelled || engine.tick_outcome(second)
            == TickOutcome::Cancelled,
        engine.tick(first) == engine || engine.tick(second) == engine,
{
}

/// A tick that carries a token other than the live one is inert: it
/// changes nothing and emits nothing.
pub proof fn lemma_stale_tick_is_inert(engine: EngineModel, token: nat)
    requires
        token != engine.generation,
    ensures
        engine.tick(token) == engine,
        engine.tick_outcome(token) == TickOutcome::Cancelled,
        tick_plan(engine, token) == Seq::<EffectModel>::empty(),
{
}

/// Starting a session retires the countdown of the session before: the
/// token of the new countdown differs from the one that was live, and a
/// tick of any countdown but the new one changes nothing in the new
/// session and emits nothing.
pub proof fn lemma_start_cancels_stale_countdown(
    engine: EngineModel,
    todo_title: Seq<char>,
    todo_id: Seq<char>,
    duration_minutes: nat,
    token: nat,
)
    ensures
        engine.start(todo_title, todo_id, duration_minutes).generation != engine.generation,
        token != engine.start(todo_title, todo_id, duration_minutes).generation ==> {
            let started = engine.start(todo_title, todo_id, duration_minutes);
            &&& started.tick(token) == started
            &&& started.tick_outcome(token) == TickOutcome::Cancelled
            &&& tick_plan(started, token) == Seq::<EffectModel>::empty()
        },
{
}

/// Resuming and stopping retire the live countdown as starting does.
pub proof fn lemma_resume_and_stop_retire_countdown(engine: EngineModel)
    ensures
        engine.stop().generation != engine.generation,
        engine.stop().tick(engine.generation) == engine.stop(),
        engine.timer.phase == TimerPhase::Paused ==> engine.resume().generation
            != engine.generation && engine.resume().tick(engine.generation) == engine.resume(),
{
}

} // verus!
