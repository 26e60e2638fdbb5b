use tomatocrab::App;
use tomatocrab::Session;
use tomatocrab::SessionFilter;
use tomatocrab::SessionStats;
use tomatocrab::daily_focus_data;
use tomatocrab::day_label;
use tomatocrab::filter_sessions;
use tomatocrab::focus_time_for_date;
use tomatocrab::local_days;
use tomatocrab::weekly_bar_data;

fn rec(task: &str, started_at: i64, duration_secs: u32, completed: bool) -> Session {
    Session::new(task.to_string(), started_at, duration_secs, completed)
}

#[test]
fn today_filter_keeps_exactly_the_reference_day() {
    let sessions = vec![
        rec("a", 0, 100, true),
        rec("b", 0, 200, false),
        rec("c", 0, 300, true),
        rec("d", 0, 400, true),
    ];
    let days: Vec<i32> = vec![739000, 738999, 739000, 738990];
    let kept = filter_sessions(&sessions, &days, SessionFilter::Today, 739000);
    let tasks: Vec<&str> = kept.iter().map(|s| s.task.as_str()).collect();
    assert_eq!(tasks, vec!["a", "c"]);
}

#[test]
fn week_filter_keeps_the_eight_day_window() {
    let sessions = vec![
        rec("today", 0, 1, true),
        rec("edge", 0, 2, true),
        rec("too_old", 0, 3, true),
        rec("recent", 0, 4, true),
    ];
    let today = 739000;
    let days: Vec<i32> = vec![today, today - 7, today - 8, today - 3];
    let kept = filter_sessions(&sessions, &days, SessionFilter::Week, today);
    let tasks: Vec<&str> = kept.iter().map(|s| s.task.as_str()).collect();
    assert_eq!(tasks, vec!["today", "edge", "recent"]);
}

#[test]
fn all_filter_keeps_everything_in_order() {
    let sessions = vec![rec("a", 0, 1, true), rec("b", 0, 2, false), rec("c", 0, 3, true)];
    let days: Vec<i32> = vec![1, 500000, 739000];
    let kept = filter_sessions(&sessions, &days, SessionFilter::All, 739000);
    assert_eq!(kept.len(), 3);
    let tasks: Vec<&str> = kept.iter().map(|s| s.task.as_str()).collect();
    assert_eq!(tasks, vec!["a", "b", "c"]);
}

#[test]
fn empty_ledger_filters_to_empty() {
    let sessions: Vec<Session> = Vec::new();
    let days: Vec<i32> = Vec::new();
    assert!(filter_sessions(&sessions, &days, SessionFilter::Today, 739000).is_empty());
    assert!(filter_sessions(&sessions, &days, SessionFilter::Week, 739000).is_empty());
    assert!(filter_sessions(&sessions, &days, SessionFilter::All, 739000).is_empty());
}

#[test]
fn daily_totals_always_have_seven_entries() {
    let sessions: Vec<Session> = Vec::new();
    let days: Vec<i32> = Vec::new();
    let totals = daily_focus_data(&sessions, &days, 739000);
    assert_eq!(totals, vec![0, 0, 0, 0, 0, 0, 0]);

    let sessions = vec![rec("a", 0, 900, true)];
    let days: Vec<i32> = vec![739000];
    let totals = daily_focus_data(&sessions, &days, 739000);
    assert_eq!(totals.len(), 7);
    assert_eq!(totals, vec![0, 0, 0, 0, 0, 0, 900]);
}

#[test]
fn daily_totals_bucket_by_day_oldest_first() {
    let today = 739000;
    let sessions = vec![
        rec("oldest_kept", 0, 10, true),
        rec("same_day", 0, 20, true),
        rec("yesterday", 0, 40, false),
        rec("out_of_range", 0, 80, true),
        rec("today", 0, 160, true),
    ];
    let days: Vec<i32> = vec![today - 6, today - 6, today - 1, today - 7, today];
    let totals = daily_focus_data(&sessions, &days, today);
    assert_eq!(totals, vec![30, 0, 0, 0, 0, 40, 160]);
    assert_eq!(focus_time_for_date(&sessions, &days, (today - 6) as i64), 30);
    assert_eq!(focus_time_for_date(&sessions, &days, (today - 7) as i64), 80);
}

#[test]
fn weekly_bar_data_pairs_totals_with_weekday_labels() {
    // day 1 is a Monday, so day 7 is a Sunday
    let sessions = vec![rec("a", 0, 60, true)];
    let days: Vec<i32> = vec![7];
    let bars = weekly_bar_data(&sessions, &days, 7);
    assert_eq!(bars.len(), 7);
    let labels: Vec<&str> = bars.iter().map(|b| b.0).collect();
    assert_eq!(labels, vec!["Mon", "Tue", "Wed", "Thu", "Fri", "Sat", "Sun"]);
    let values: Vec<u64> = bars.iter().map(|b| b.1).collect();
    assert_eq!(values, vec![0, 0, 0, 0, 0, 0, 60]);
}

#[test]
fn day_labels_follow_the_weekly_cycle() {
    assert_eq!(day_label(1), "Mon");
    assert_eq!(day_label(2), "Tue");
    assert_eq!(day_label(7), "Sun");
    assert_eq!(day_label(8), "Mon");
    assert_eq!(day_label(0), "Sun");
    // one whole week before day 1 is a Monday again
    assert_eq!(day_label(-6), "Mon");
}

#[test]
fn stats_from_sessions_are_exact() {
    let sessions = vec![
        rec("a", 0, 1500, true),
        rec("b", 0, 120, false),
        rec("c", 0, 1500, true),
        rec("d", 0, 1000, false),
    ];
    let stats = SessionStats::from_sessions(&sessions);
    assert_eq!(stats.total_sessions, 4);
    assert_eq!(stats.completed_sessions, 2);
    assert_eq!(stats.interrupted_sessions, 2);
    assert_eq!(stats.total_focus_time_secs, 4120);
    assert_eq!(stats.average_duration_secs, 1030);
}

#[test]
fn stats_average_rounds_down_and_empty_is_zero() {
    let sessions = vec![rec("a", 0, 10, true), rec("b", 0, 11, true), rec("c", 0, 10, true)];
    let stats = SessionStats::from_sessions(&sessions);
    assert_eq!(stats.average_duration_secs, 10);

    let none: Vec<Session> = Vec::new();
    let stats = SessionStats::from_sessions(&none);
    assert_eq!(stats.total_sessions, 0);
    assert_eq!(stats.completed_sessions, 0);
    assert_eq!(stats.interrupted_sessions, 0);
    assert_eq!(stats.total_focus_time_secs, 0);
    assert_eq!(stats.average_duration_secs, 0);
}

#[test]
fn local_days_pair_one_day_per_record() {
    let sessions = vec![rec("a", 0, 1, true), rec("b", 1700000000, 2, false)];
    let days = local_days(&sessions);
    assert_eq!(days.len(), sessions.len());
}

#[test]
fn app_cache_pairs_days_and_filters_all() {
    let mut app = App::new(25, 5, 15, 4);
    let sessions = vec![rec("a", 0, 1, true), rec("b", 1700000000, 2, false)];
    app.set_sessions(sessions);
    assert_eq!(app.session_days.len(), 2);
    let kept = app.filtered_sessions(739000).len();
    assert!(kept <= 2);
    // the All window ignores day numbers entirely
    app.session_filter = SessionFilter::All;
    let all = app.filtered_sessions(739000);
    assert_eq!(all.len(), 2);
}

#[test]
fn session_new_keeps_its_fields() {
    let s = Session::new("deep work".to_string(), 1700000000, 1234, false);
    assert_eq!(s.task, "deep work");
    assert_eq!(s.started_at, 1700000000);
    assert_eq!(s.duration_secs, 1234);
    assert!(!s.completed);
}
