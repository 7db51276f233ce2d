use todo_timer::commands::{
    close_timer_window, get_timer_state, greet, hide_app_to_tray, pause_timer, restart_timer,
    resume_timer, show_app_from_tray, start_timer, stop_timer,
};
use todo_timer::effect::{restore_main, Effect};
use todo_timer::model::{TickOutcome, TimerPhase};
use todo_timer::timer::{
    completion_notice, countdown_tick, FINISHED_EVENT, TICK_SECONDS, UPDATE_EVENT,
};
use todo_timer::types::{AppTimerState, TimerError};
use todo_timer::window::Surface;

fn describe(effect: &Effect) -> String {
    match effect {
        Effect::HideWindow(surface) => format!("hide {}", surface.label()),
        Effect::ShowWindow(surface) => format!("show {}", surface.label()),
        Effect::FocusWindow(surface) => format!("focus {}", surface.label()),
        Effect::CloseWindow(surface) => format!("close {}", surface.label()),
        Effect::OpenTimerWindow => "open timer".to_string(),
        Effect::SpawnCountdown(token) => format!("spawn {}", token),
        Effect::EmitUpdate(snapshot) => format!(
            "update {:?} {}/{}",
            snapshot.phase(),
            snapshot.remaining_seconds(),
            snapshot.original_seconds()
        ),
        Effect::EmitFinished => "finished".to_string(),
        Effect::Notify { title, body } => format!("notify [{}] [{}]", title, body),
    }
}

fn described(plan: &[Effect]) -> Vec<String> {
    plan.iter().map(describe).collect()
}

fn started(minutes: u64) -> (AppTimerState, u64) {
    let mut engine = AppTimerState::new();
    start_timer(&mut engine, "Write report".to_string(), "42".to_string(), minutes);
    let token = engine.generation();
    (engine, token)
}

#[test]
fn new_engine_holds_an_idle_record() {
    let engine = AppTimerState::new();
    assert_eq!(engine.timer().phase(), TimerPhase::Idle);
    assert_eq!(engine.timer().remaining_seconds(), 0);
    assert_eq!(engine.generation(), 0);
    let other = AppTimerState::default();
    assert_eq!(other.timer().phase(), TimerPhase::Idle);
    assert_eq!(other.generation(), 0);
}

#[test]
fn start_timer_plans_hide_open_spawn() {
    let mut engine = AppTimerState::new();
    let plan = start_timer(&mut engine, "Write report".to_string(), "42".to_string(), 25);
    assert_eq!(described(&plan), vec!["hide main", "open timer", "spawn 1"]);
    assert_eq!(engine.generation(), 1);
    assert_eq!(engine.timer().phase(), TimerPhase::Active);
    assert_eq!(engine.timer().remaining_seconds(), 1500);
    assert_eq!(engine.timer().original_seconds(), 1500);
    assert_eq!(engine.timer().todo_title(), "Write report");
    assert_eq!(engine.timer().todo_id(), "42");
}

#[test]
fn engine_start_returns_the_live_token() {
    let mut engine = AppTimerState::new();
    let first = engine.start("a".to_string(), "1".to_string(), 1);
    assert_eq!(first, engine.generation());
    let second = engine.start("b".to_string(), "2".to_string(), 1);
    assert_eq!(second, engine.generation());
    assert_ne!(first, second);
}

#[test]
fn stop_timer_plans_the_return_to_the_task_list() {
    let (mut engine, token) = started(1);
    countdown_tick(&mut engine, token);
    let plan = stop_timer(&mut engine);
    assert_eq!(described(&plan), vec!["close timer", "show main", "focus main"]);
    assert_eq!(engine.timer().phase(), TimerPhase::Idle);
    assert_eq!(engine.timer().remaining_seconds(), 59);
    assert_ne!(engine.generation(), token);
}

#[test]
fn close_timer_window_stops_like_stop_timer() {
    let (mut engine, token) = started(1);
    countdown_tick(&mut engine, token);
    let plan = close_timer_window(&mut engine);
    assert_eq!(described(&plan), vec!["close timer", "show main", "focus main"]);
    assert_eq!(engine.timer().phase(), TimerPhase::Idle);
    assert_eq!(engine.timer().remaining_seconds(), 59);
    assert_eq!(countdown_tick(&mut engine, token).outcome, TickOutcome::Cancelled);
}

#[test]
fn restore_main_is_close_show_focus() {
    assert_eq!(described(&restore_main()), vec!["close timer", "show main", "focus main"]);
}

#[test]
fn pause_timer_plans_one_update_with_the_paused_snapshot() {
    let (mut engine, token) = started(1);
    countdown_tick(&mut engine, token);
    let plan = pause_timer(&mut engine).unwrap();
    assert_eq!(described(&plan), vec!["update Paused 59/60"]);
    assert_eq!(engine.generation(), token);
}

#[test]
fn pause_timer_is_refused_unless_active() {
    let mut engine = AppTimerState::new();
    assert_eq!(pause_timer(&mut engine).unwrap_err(), TimerError::NotActive);
    assert_eq!(engine.timer().phase(), TimerPhase::Idle);
    assert_eq!(engine.generation(), 0);

    let (mut paused, _) = started(1);
    pause_timer(&mut paused).unwrap();
    assert_eq!(pause_timer(&mut paused).unwrap_err(), TimerError::NotActive);
    assert_eq!(paused.timer().phase(), TimerPhase::Paused);
}

#[test]
fn resume_timer_plans_update_and_a_new_countdown() {
    let (mut engine, token) = started(1);
    pause_timer(&mut engine).unwrap();
    let plan = resume_timer(&mut engine).unwrap();
    assert_eq!(described(&plan), vec!["update Active 60/60", "spawn 2"]);
    assert_eq!(engine.generation(), 2);
    assert_ne!(engine.generation(), token);
    assert_eq!(engine.timer().phase(), TimerPhase::Active);
}

#[test]
fn resume_timer_is_refused_from_idle_and_changes_nothing() {
    let mut engine = AppTimerState::new();
    assert_eq!(resume_timer(&mut engine).unwrap_err(), TimerError::NotPaused);
    assert_eq!(engine.timer().phase(), TimerPhase::Idle);
    assert!(!engine.timer().is_active());
    assert_eq!(engine.generation(), 0);
}

#[test]
fn resume_timer_is_refused_while_active_and_after_stop() {
    let (mut engine, token) = started(1);
    assert_eq!(resume_timer(&mut engine).unwrap_err(), TimerError::NotPaused);
    assert_eq!(engine.generation(), token);
    assert_eq!(engine.timer().phase(), TimerPhase::Active);

    stop_timer(&mut engine);
    let after_stop = engine.generation();
    assert_eq!(resume_timer(&mut engine).unwrap_err(), TimerError::NotPaused);
    assert_eq!(engine.timer().phase(), TimerPhase::Idle);
    assert_eq!(engine.generation(), after_stop);
}

#[test]
fn restart_timer_plans_one_update_and_spawns_nothing() {
    let (mut engine, token) = started(5);
    for _ in 0..200 {
        countdown_tick(&mut engine, token);
    }
    let plan = restart_timer(&mut engine);
    assert_eq!(described(&plan), vec!["update Paused 300/300"]);
    assert_eq!(engine.generation(), token);
    assert_eq!(engine.timer().phase(), TimerPhase::Paused);
}

#[test]
fn get_timer_state_returns_the_current_snapshot() {
    let (mut engine, token) = started(1);
    countdown_tick(&mut engine, token);
    let snapshot = get_timer_state(&engine);
    assert_eq!(snapshot.phase(), TimerPhase::Active);
    assert_eq!(snapshot.remaining_seconds(), 59);
    assert_eq!(snapshot.original_seconds(), 60);
    assert_eq!(snapshot.todo_title(), "Write report");
    assert_eq!(snapshot.todo_id(), "42");
    countdown_tick(&mut engine, token);
    assert_eq!(snapshot.remaining_seconds(), 59);
    assert_eq!(engine.snapshot().remaining_seconds(), 58);
}

#[test]
fn counted_tick_plans_one_update_with_the_new_snapshot() {
    let (mut engine, token) = started(1);
    let step = countdown_tick(&mut engine, token);
    assert_eq!(step.outcome, TickOutcome::Counted);
    assert!(step.outcome.goes_on());
    assert_eq!(described(&step.plan), vec!["update Active 59/60"]);
}

#[test]
fn completing_tick_plans_notice_event_and_return() {
    let (mut engine, token) = started(0);
    let step = countdown_tick(&mut engine, token);
    assert_eq!(step.outcome, TickOutcome::Completed);
    assert!(!step.outcome.goes_on());
    assert_eq!(
        described(&step.plan),
        vec![
            "notify [Timer Completed!] [Time's up for: Write report]",
            "finished",
            "close timer",
            "show main",
            "focus main",
        ]
    );
    assert_eq!(engine.timer().phase(), TimerPhase::Finished);
    assert!(!engine.timer().is_running());
}

#[test]
fn cancelled_tick_plans_nothing() {
    let mut engine = AppTimerState::new();
    let step = countdown_tick(&mut engine, 0);
    assert_eq!(step.outcome, TickOutcome::Cancelled);
    assert!(!step.outcome.goes_on());
    assert!(step.plan.is_empty());
    assert_eq!(engine.timer().phase(), TimerPhase::Idle);
}

#[test]
fn completion_notice_carries_the_title() {
    let notice = completion_notice(&"Buy milk".to_string());
    assert_eq!(describe(&notice), "notify [Timer Completed!] [Time's up for: Buy milk]");
    let empty = completion_notice(&String::new());
    assert_eq!(describe(&empty), "notify [Timer Completed!] [Time's up for: ]");
}

#[test]
fn stale_countdown_is_cancelled_after_a_new_start() {
    let (mut engine, old_token) = started(1);
    countdown_tick(&mut engine, old_token);
    start_timer(&mut engine, "Call home".to_string(), "7".to_string(), 2);
    let new_token = engine.generation();
    assert_ne!(new_token, old_token);

    let stale = countdown_tick(&mut engine, old_token);
    assert_eq!(stale.outcome, TickOutcome::Cancelled);
    assert!(stale.plan.is_empty());
    assert_eq!(engine.timer().remaining_seconds(), 120);
    assert_eq!(engine.timer().phase(), TimerPhase::Active);
    assert_eq!(engine.timer().todo_title(), "Call home");

    let live = countdown_tick(&mut engine, new_token);
    assert_eq!(live.outcome, TickOutcome::Counted);
    assert_eq!(engine.timer().remaining_seconds(), 119);
}

#[test]
fn stale_countdown_is_cancelled_after_pause_and_quick_resume() {
    let (mut engine, old_token) = started(1);
    pause_timer(&mut engine).unwrap();
    resume_timer(&mut engine).unwrap();
    let new_token = engine.generation();
    assert_eq!(countdown_tick(&mut engine, old_token).outcome, TickOutcome::Cancelled);
    assert_eq!(engine.timer().remaining_seconds(), 60);
    assert_eq!(countdown_tick(&mut engine, new_token).outcome, TickOutcome::Counted);
    assert_eq!(engine.timer().remaining_seconds(), 59);
}

#[test]
fn completion_fires_once_however_long_the_countdown_ticks() {
    let (mut engine, token) = started(1);
    let mut finished = 0;
    let mut notices = 0;
    for _ in 0..200 {
        let step = countdown_tick(&mut engine, token);
        for effect in &step.plan {
            match effect {
                Effect::EmitFinished => finished += 1,
                Effect::Notify { .. } => notices += 1,
                _ => {}
            }
        }
    }
    assert_eq!(finished, 1);
    assert_eq!(notices, 1);
    assert_eq!(engine.timer().phase(), TimerPhase::Finished);
    assert_eq!(engine.timer().remaining_seconds(), 0);
}

#[test]
fn commands_other_than_ticks_never_announce_completion() {
    let (mut engine, token) = started(0);
    let mut plans: Vec<Vec<Effect>> = Vec::new();
    plans.push(pause_timer(&mut engine).unwrap());
    plans.push(restart_timer(&mut engine));
    plans.push(resume_timer(&mut engine).unwrap());
    plans.push(pause_timer(&mut engine).unwrap());
    plans.push(stop_timer(&mut engine));
    plans.push(start_timer(&mut engine, "x".to_string(), "y".to_string(), 0));
    plans.push(close_timer_window(&mut engine));
    for plan in &plans {
        for effect in plan {
            assert!(!matches!(effect, Effect::EmitFinished | Effect::Notify { .. }));
        }
    }
    assert_eq!(countdown_tick(&mut engine, token).outcome, TickOutcome::Cancelled);
}

#[test]
fn recover_resets_to_idle_and_reports_the_poisoned_lock() {
    let (mut engine, token) = started(1);
    countdown_tick(&mut engine, token);
    let error = engine.recover();
    assert_eq!(error, TimerError::LockPoisoned);
    assert_eq!(engine.timer().phase(), TimerPhase::Idle);
    assert_eq!(engine.timer().remaining_seconds(), 59);
    assert_eq!(countdown_tick(&mut engine, token).outcome, TickOutcome::Cancelled);
}

#[test]
fn engine_methods_match_the_commands() {
    let mut engine = AppTimerState::new();
    let token = engine.start("a".to_string(), "1".to_string(), 1);
    assert_eq!(engine.tick(token), TickOutcome::Counted);
    assert_eq!(engine.pause(), Ok(()));
    assert_eq!(engine.pause(), Err(TimerError::NotActive));
    assert_eq!(engine.tick(token), TickOutcome::Cancelled);
    let resumed = engine.resume().unwrap();
    assert_eq!(resumed, engine.generation());
    assert_eq!(engine.resume(), Err(TimerError::NotPaused));
    assert_eq!(engine.tick(token), TickOutcome::Cancelled);
    assert_eq!(engine.tick(resumed), TickOutcome::Counted);
    engine.restart();
    assert_eq!(engine.timer().remaining_seconds(), 60);
    assert_eq!(engine.timer().phase(), TimerPhase::Paused);
    engine.stop();
    assert_eq!(engine.timer().phase(), TimerPhase::Idle);
}

#[test]
fn hide_and_show_plans() {
    assert_eq!(described(&hide_app_to_tray()), vec!["hide main", "hide timer"]);
    assert_eq!(described(&show_app_from_tray()), vec!["show main", "focus main"]);
}

#[test]
fn greet_wraps_the_name() {
    assert_eq!(greet("Ann"), "Hello, Ann! You've been greeted from Rust!");
    assert_eq!(greet(""), "Hello, ! You've been greeted from Rust!");
}

#[test]
fn surface_labels() {
    assert_eq!(Surface::Main.label(), "main");
    assert_eq!(Surface::Timer.label(), "timer");
    assert_eq!(Surface::About.label(), "about");
}

fn with_engine<R>(
    timer: &std::sync::Mutex<AppTimerState>,
    call: impl FnOnce(&mut AppTimerState) -> R,
) -> Result<R, String> {
    match timer.lock() {
        Ok(mut engine) => Ok(call(&mut *engine)),
        Err(poisoned) => {
            let mut engine = poisoned.into_inner();
            let error = engine.recover();
            timer.clear_poison();
            Err(error.message())
        }
    }
}

#[test]
fn engine_works_behind_a_lock() {
    let shared = std::sync::Arc::new(std::sync::Mutex::new(AppTimerState::default()));
    let plan = with_engine(&shared, |engine| {
        start_timer(engine, "Write report".to_string(), "42".to_string(), 1)
    })
    .unwrap();
    assert_eq!(described(&plan), vec!["hide main", "open timer", "spawn 1"]);
    let step = with_engine(&shared, |engine| countdown_tick(engine, 1)).unwrap();
    assert_eq!(step.outcome, TickOutcome::Counted);
    let paused = with_engine(&shared, pause_timer).unwrap();
    assert_eq!(described(&paused.unwrap()), vec!["update Paused 59/60"]);
    let refused = with_engine(&shared, pause_timer).unwrap();
    assert_eq!(
        refused.map_err(|error| error.message()).unwrap_err(),
        "cannot pause: the timer is not active"
    );
    let snapshot = with_engine(&shared, |engine| get_timer_state(engine)).unwrap();
    assert_eq!(snapshot.remaining_seconds(), 59);
    let stopped = with_engine(&shared, stop_timer).unwrap();
    assert_eq!(described(&stopped), vec!["close timer", "show main", "focus main"]);
}

#[test]
fn cadence_and_event_names() {
    assert_eq!(TICK_SECONDS, 1);
    assert_eq!(UPDATE_EVENT, "timer-update");
    assert_eq!(FINISHED_EVENT, "timer-finished");
}
