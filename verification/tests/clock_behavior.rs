use tomatocrab::Action;
use tomatocrab::App;
use tomatocrab::AppState;
use tomatocrab::Now;
use tomatocrab::SessionFilter;
use tomatocrab::View;
use tomatocrab::TimerMode;

fn at(t: u64) -> Now {
    Now { mono_secs: t, utc_secs: t as i64, local_day: 739000 }
}

fn type_task(app: &mut App, task: &str, t: u64) {
    app.handle_action(Action::Confirm, at(t));
    assert_eq!(app.state, AppState::EnteringTask);
    for c in task.chars() {
        app.handle_action(Action::Input(c), at(t));
    }
}

fn start_work(app: &mut App, task: &str, t: u64) {
    type_task(app, task, t);
    app.handle_action(Action::Confirm, at(t));
    assert_eq!(app.state, AppState::Running);
    assert_eq!(app.timer_mode, TimerMode::Work);
}

#[test]
fn work_completion_persists_full_duration() {
    // work_duration = 25 minutes = 1500 s; start at t=0, tick at t=1500
    let mut app = App::new(25, 5, 15, 4);
    start_work(&mut app, "write spec", 0);
    assert_eq!(app.total_duration_secs, 1500);
    assert_eq!(app.remaining_secs, 1500);

    let saved = app.handle_action(Action::Tick, at(1500));
    assert_eq!(app.state, AppState::WorkFinished);
    assert_eq!(app.work_sessions_completed, 1);
    assert_eq!(app.remaining_secs, 0);
    let rec = saved.expect("completion must persist a record");
    assert_eq!(rec.task, "write spec");
    assert_eq!(rec.duration_secs, 1500);
    assert!(rec.completed);
    assert_eq!(rec.started_at, 0);
}

#[test]
fn pause_donates_time_to_interval_start() {
    // pause at t=600, resume at t=900, tick at t=901 -> elapsed 601
    let mut app = App::new(25, 5, 15, 4);
    start_work(&mut app, "write spec", 0);

    app.handle_action(Action::Input(' '), at(600));
    assert_eq!(app.state, AppState::Paused);

    app.handle_action(Action::Input(' '), at(900));
    assert_eq!(app.state, AppState::Running);

    app.handle_action(Action::Tick, at(901));
    assert_eq!(app.remaining_secs, 1500 - 601);
    assert_eq!(app.elapsed_secs(), 601);
}

#[test]
fn remaining_updates_from_absolute_time() {
    let mut app = App::new(25, 5, 15, 4);
    start_work(&mut app, "focus", 100);
    app.handle_action(Action::Tick, at(100));
    assert_eq!(app.remaining_secs, 1500);
    app.handle_action(Action::Tick, at(350));
    assert_eq!(app.remaining_secs, 1250);
    // a missed poll does not drift: one late tick lands on the same value
    app.handle_action(Action::Tick, at(1400));
    assert_eq!(app.remaining_secs, 200);
    assert!(app.remaining_secs <= app.total_duration_secs);
}

#[test]
fn long_break_after_threshold_then_short_again() {
    // threshold 4: the 4th completion selects a long break and resets the
    // counter; the 5th completion's break is short again
    let mut app = App::new(25, 5, 15, 4);
    let mut t: u64 = 0;
    for round in 0..4 {
        start_work(&mut app, "task", t);
        t += 1500;
        app.handle_action(Action::Tick, at(t));
        assert_eq!(app.state, AppState::WorkFinished);
        assert_eq!(app.work_sessions_completed, round + 1);
        if round < 3 {
            // skip the break entirely
            app.handle_action(Action::Input('s'), at(t));
            assert_eq!(app.state, AppState::Idle);
        }
    }
    assert_eq!(app.work_sessions_completed, 4);
    app.handle_action(Action::Input('b'), at(t));
    assert_eq!(app.timer_mode, TimerMode::LongBreak);
    assert_eq!(app.total_duration_secs, 15 * 60);
    assert_eq!(app.work_sessions_completed, 0);

    // finish the long break, then complete a 5th work interval
    t += 900;
    app.handle_action(Action::Tick, at(t));
    assert_eq!(app.state, AppState::BreakFinished);
    app.handle_action(Action::Input('s'), at(t));
    start_work(&mut app, "task", t);
    t += 1500;
    app.handle_action(Action::Tick, at(t));
    assert_eq!(app.work_sessions_completed, 1);
    app.handle_action(Action::Input('b'), at(t));
    assert_eq!(app.timer_mode, TimerMode::ShortBreak);
    assert_eq!(app.total_duration_secs, 5 * 60);
}

#[test]
fn stop_mid_work_persists_partial_duration() {
    // stopping at elapsed 120 of 1500 persists 120, not completed
    let mut app = App::new(25, 5, 15, 4);
    start_work(&mut app, "interrupted", 0);
    app.handle_action(Action::Tick, at(120));
    assert_eq!(app.remaining_secs, 1380);
    let saved = app.handle_action(Action::Input('r'), at(120));
    let rec = saved.expect("stop with a task must persist");
    assert_eq!(rec.duration_secs, 120);
    assert!(!rec.completed);
    assert_eq!(rec.task, "interrupted");
    assert_eq!(app.state, AppState::Idle);
    assert_eq!(app.remaining_secs, app.total_duration_secs);
}

#[test]
fn quit_mid_work_persists_then_flags_quit() {
    let mut app = App::new(25, 5, 15, 4);
    start_work(&mut app, "nearly done", 0);
    app.handle_action(Action::Tick, at(60));
    let saved = app.handle_action(Action::Quit, at(60));
    let rec = saved.expect("quit mid-work must persist");
    assert_eq!(rec.duration_secs, 60);
    assert!(!rec.completed);
    assert!(app.should_quit);
}

#[test]
fn quit_key_from_idle_does_not_persist() {
    let mut app = App::new(25, 5, 15, 4);
    let saved = app.handle_action(Action::Input('q'), at(0));
    assert!(saved.is_none());
    assert!(app.should_quit);
}

#[test]
fn breaks_are_never_persisted() {
    let mut app = App::new(25, 5, 15, 4);
    start_work(&mut app, "task", 0);
    let saved = app.handle_action(Action::Tick, at(1500));
    assert!(saved.is_some());
    // take the short break, then stop it mid-way
    app.handle_action(Action::Input('b'), at(1500));
    assert_eq!(app.timer_mode, TimerMode::ShortBreak);
    let saved = app.handle_action(Action::Input('r'), at(1600));
    assert!(saved.is_none(), "stopping a break must not persist");
    assert_eq!(app.state, AppState::Idle);

    // complete a break fully: nothing persisted either
    start_work(&mut app, "task", 2000);
    app.handle_action(Action::Tick, at(3500));
    app.handle_action(Action::Input('b'), at(3500));
    let saved = app.handle_action(Action::Tick, at(3500 + 300));
    assert!(saved.is_none(), "completing a break must not persist");
    assert_eq!(app.state, AppState::BreakFinished);
}

#[test]
fn skip_key_ends_break_early_without_record() {
    let mut app = App::new(25, 5, 15, 4);
    start_work(&mut app, "task", 0);
    app.handle_action(Action::Tick, at(1500));
    app.handle_action(Action::Input('b'), at(1500));
    assert_eq!(app.state, AppState::Running);
    let saved = app.handle_action(Action::Input('s'), at(1550));
    assert!(saved.is_none());
    assert_eq!(app.state, AppState::BreakFinished);
}

#[test]
fn blank_task_cannot_start_and_never_persists() {
    let mut app = App::new(25, 5, 15, 4);
    type_task(&mut app, "   ", 0);
    app.handle_action(Action::Confirm, at(0));
    assert_eq!(app.state, AppState::EnteringTask, "blank task must not start");
    app.handle_action(Action::Cancel, at(0));
    assert_eq!(app.state, AppState::Idle);
    assert!(app.task_description.is_empty());
}

#[test]
fn backspace_edits_task_text() {
    let mut app = App::new(25, 5, 15, 4);
    type_task(&mut app, "abc", 0);
    app.handle_action(Action::Backspace, at(0));
    let text: String = app.task_description.iter().collect();
    assert_eq!(text, "ab");
    app.handle_action(Action::Backspace, at(0));
    app.handle_action(Action::Backspace, at(0));
    app.handle_action(Action::Backspace, at(0));
    assert!(app.task_description.is_empty());
}

#[test]
fn typing_from_idle_seeds_the_task() {
    let mut app = App::new(25, 5, 15, 4);
    app.handle_action(Action::Input('x'), at(0));
    assert_eq!(app.state, AppState::EnteringTask);
    let text: String = app.task_description.iter().collect();
    assert_eq!(text, "x");
}

#[test]
fn tab_navigation_wraps_and_is_blocked_while_entering() {
    let mut app = App::new(25, 5, 15, 4);
    assert_eq!(app.current_view, View::Timer);
    app.handle_action(Action::NextTab, at(0));
    assert_eq!(app.current_view, View::History);
    app.handle_action(Action::NextTab, at(0));
    assert_eq!(app.current_view, View::Stats);
    app.handle_action(Action::NextTab, at(0));
    assert_eq!(app.current_view, View::Timer);
    app.handle_action(Action::PrevTab, at(0));
    assert_eq!(app.current_view, View::Stats);
    app.handle_action(Action::PrevTab, at(0));
    app.handle_action(Action::PrevTab, at(0));
    assert_eq!(app.current_view, View::Timer);

    app.handle_action(Action::Confirm, at(0));
    assert_eq!(app.state, AppState::EnteringTask);
    app.handle_action(Action::NextTab, at(0));
    assert_eq!(app.current_view, View::Timer, "tabs must not move while entering a task");
}

#[test]
fn filter_cycles_on_history_and_stats_views() {
    let mut app = App::new(25, 5, 15, 4);
    assert_eq!(app.session_filter, SessionFilter::Week);
    // 'f' on the timer view starts task entry instead
    app.handle_action(Action::Input('f'), at(0));
    assert_eq!(app.state, AppState::EnteringTask);
    app.handle_action(Action::Cancel, at(0));

    app.handle_action(Action::NextTab, at(0));
    app.handle_action(Action::Input('f'), at(0));
    assert_eq!(app.session_filter, SessionFilter::All);
    app.handle_action(Action::Input('f'), at(0));
    assert_eq!(app.session_filter, SessionFilter::Today);
    app.handle_action(Action::Input('f'), at(0));
    assert_eq!(app.session_filter, SessionFilter::Week);
}

#[test]
fn confirm_after_finish_starts_fresh_entry() {
    let mut app = App::new(25, 5, 15, 4);
    start_work(&mut app, "one", 0);
    app.handle_action(Action::Tick, at(1500));
    assert_eq!(app.state, AppState::WorkFinished);
    app.handle_action(Action::Confirm, at(1500));
    assert_eq!(app.state, AppState::EnteringTask);
    assert!(app.task_description.is_empty());
    assert_eq!(app.timer_mode, TimerMode::Work);
    assert_eq!(app.remaining_secs, 1500);
}

#[test]
fn invalid_intents_are_ignored() {
    let mut app = App::new(25, 5, 15, 4);
    // a tick in idle does nothing
    let saved = app.handle_action(Action::Tick, at(50));
    assert!(saved.is_none());
    assert_eq!(app.state, AppState::Idle);
    // confirm while running does nothing
    start_work(&mut app, "task", 100);
    app.handle_action(Action::Confirm, at(150));
    assert_eq!(app.state, AppState::Running);
    // pause is only for work; in a break the space key is ignored
    app.handle_action(Action::Tick, at(1600));
    app.handle_action(Action::Input('b'), at(1600));
    app.handle_action(Action::Input(' '), at(1650));
    assert_eq!(app.state, AppState::Running);
    assert_eq!(app.timer_mode, TimerMode::ShortBreak);
}

#[test]
fn remaining_stays_in_range_over_arbitrary_intents() {
    let mut app = App::new(1, 1, 2, 2);
    let intents = [
        Action::Confirm,
        Action::Input('a'),
        Action::Confirm,
        Action::Tick,
        Action::Input(' '),
        Action::Input(' '),
        Action::Tick,
        Action::Input('r'),
        Action::Confirm,
        Action::Input('b'),
        Action::Input('s'),
        Action::Tick,
        Action::NextTab,
        Action::ScrollDown,
        Action::ScrollUp,
        Action::PrevTab,
        Action::Confirm,
        Action::Input('x'),
        Action::Confirm,
        Action::Tick,
    ];
    let mut t: u64 = 0;
    for a in intents.iter() {
        t += 37;
        app.handle_action(a.clone(), at(t));
        assert!(app.remaining_secs <= app.total_duration_secs);
    }
}

#[test]
fn fresh_ids_differ_between_records() {
    let mut app = App::new(25, 5, 15, 4);
    start_work(&mut app, "a", 0);
    let r1 = app.handle_action(Action::Input('r'), at(10)).unwrap();
    start_work(&mut app, "b", 20);
    let r2 = app.handle_action(Action::Input('r'), at(30)).unwrap();
    assert_ne!(r1.id, r2.id);
}

#[test]
fn can_apply_guards_clock_regression() {
    let mut app = App::new(25, 5, 15, 4);
    assert!(app.can_apply(at(0)));
    start_work(&mut app, "task", 100);
    assert!(app.can_apply(at(100)));
    assert!(app.can_apply(at(5000)));
    assert!(!app.can_apply(at(99)), "a moment before the interval start is rejected");
}
