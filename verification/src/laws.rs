//! The general laws of the session state machine, proved once over the
//! transition relation and therefore holding along every sequence of
//! intents.

use vstd::prelude::*;

use crate::action::Action;
use crate::clock::AppState;
use crate::clock::Model;
use crate::clock::Now;
use crate::clock::TimerMode;
use crate::clock::now_ok;
use crate::clock::step;
use crate::clock::wf;
use crate::ledger::SessionFilter;
use crate::ledger::day_total;
use crate::ledger::filtered_models;
use crate::ledger::in_window;
use crate::session::SessionModel;
use crate::text::is_blank_spec;

verus! {

/// Every step taken from a well-formed state at an admissible moment
/// lands in a well-formed state. In particular the remaining time stays
/// in `[0, total_duration_secs]` after any sequence of intents, and the
/// timing marks keep their phase discipline.
pub proof fn lemma_step_preserves_wf(m: Model, a: Action, now: Now)
    requires
        wf(m),
        now_ok(m, now),
    ensures
        wf(step(m, a, now).post),
{
}

/// Pausing and then resuming after any wall-clock delay leaves the
/// active elapsed time unchanged: at any moment at or after the resume,
/// the time elapsed since the (shifted) interval start equals the time
/// that had elapsed when the pause began, plus only the time spent
/// running since the resume. Pause time is donated to the start mark and
/// never counts.
pub proof fn lemma_pause_resume_preserves_elapsed(
    m: Model,
    pause_now: Now,
    resume_now: Now,
    later: int,
)
    requires
        wf(m),
        now_ok(m, pause_now),
        m.state == AppState::Running,
        m.timer_mode == TimerMode::Work,
        pause_now.mono_secs <= resume_now.mono_secs,
        resume_now.mono_secs <= later,
    ensures
        ({
            let paused = step(m, Action::Input(' '), pause_now).post;
            let resumed = step(paused, Action::Input(' '), resume_now).post;
            &&& paused.state == AppState::Paused
            &&& resumed.state == AppState::Running
            &&& later - resumed.session_start.unwrap() == (pause_now.mono_secs
                - m.session_start.unwrap()) + (later - resume_now.mono_secs)
        }),
{
}

/// A single step emits a record exactly when a work interval leaves the
/// running or paused phase while the task text is not blank: by the tick
/// that completes it, by an explicit stop, or by a quit. In particular a
/// break never emits one.
pub proof fn lemma_persist_iff(m: Model, a: Action, now: Now)
    requires
        wf(m),
        now_ok(m, now),
    ensures
        ({
            let stops = a == Action::Input('r') || a == Action::Input('R') || a == Action::Input(
                'q',
            ) || a == Action::Input('Q') || a == Action::Quit;
            let completes = a == Action::Tick && m.state == AppState::Running
                && (m.session_start matches Some(s) && now.mono_secs - s
                >= m.total_duration_secs);
            step(m, a, now).save is Some <==> {
                &&& m.timer_mode == TimerMode::Work
                &&& !is_blank_spec(m.task_description)
                &&& ((m.state == AppState::Running || m.state == AppState::Paused) && stops)
                    || completes
            }
        }),
        m.timer_mode != TimerMode::Work ==> step(m, a, now).save is None,
{
}

/// The completed-work counter becomes exactly zero when a long break is
/// selected, grows by exactly one when a work interval completes, and is
/// untouched by every other step; and the selected break is the long one
/// exactly when the counter has reached the configured threshold.
pub proof fn lemma_counter_changes(m: Model, a: Action, now: Now)
    requires
        wf(m),
        now_ok(m, now),
    ensures
        ({
            let post = step(m, a, now).post;
            let selects_break = m.state == AppState::WorkFinished && (a == Action::Input('b') || a
                == Action::Input('B'));
            let completes_work = m.state == AppState::Running && m.timer_mode == TimerMode::Work
                && a == Action::Tick && (m.session_start matches Some(s) && now.mono_secs - s
                >= m.total_duration_secs);
            &&& post.work_sessions_completed == if selects_break && m.work_sessions_completed
                >= m.sessions_until_long_break {
                0int
            } else if completes_work {
                m.work_sessions_completed + 1
            } else {
                m.work_sessions_completed
            }
            &&& selects_break ==> (post.timer_mode == TimerMode::LongBreak
                <==> m.work_sessions_completed >= m.sessions_until_long_break)
            &&& selects_break ==> (post.timer_mode == TimerMode::ShortBreak
                <==> m.work_sessions_completed < m.sessions_until_long_break)
        }),
{
}

/// Whether `x` stands at some index of `sessions` whose paired day
/// number falls inside the window.
pub open spec fn comes_from_window(
    sessions: Seq<SessionModel>,
    days: Seq<i32>,
    filter: SessionFilter,
    today: int,
    x: SessionModel,
) -> bool {
    exists|i: int|
        0 <= i < sessions.len() && #[trigger] sessions[i] == x && in_window(
            days[i] as int,
            filter,
            today,
        )
}

/// Every record that falls inside the window is in the filtered list,
/// and everything in the filtered list is a record that falls inside the
/// window.
pub proof fn lemma_filtered_membership(
    sessions: Seq<SessionModel>,
    days: Seq<i32>,
    filter: SessionFilter,
    today: int,
)
    requires
        sessions.len() == days.len(),
    ensures
        forall|i: int|
            0 <= i < sessions.len() && in_window(days[i] as int, filter, today)
                ==> filtered_models(sessions, days, filter, today).contains(sessions[i]),
        forall|j: int|
            0 <= j < filtered_models(sessions, days, filter, today).len() ==> comes_from_window(
                sessions,
                days,
                filter,
                today,
                #[trigger] filtered_models(sessions, days, filter, today)[j],
            ),
    decreases sessions.len(),
{
    if sessions.len() > 0 {
        lemma_filtered_membership(sessions.drop_last(), days.drop_last(), filter, today);
        let rest = filtered_models(sessions.drop_last(), days.drop_last(), filter, today);
        let whole = filtered_models(sessions, days, filter, today);
        assert forall|i: int|
            0 <= i < sessions.len() && in_window(days[i] as int, filter, today) implies whole
            .contains(sessions[i]) by {
            if i < sessions.len() - 1 {
                assert(sessions.drop_last()[i] == sessions[i]);
                assert(days.drop_last()[i] == days[i]);
                assert(rest.contains(sessions[i]));
                let k = choose|k: int| 0 <= k < rest.len() && rest[k] == sessions[i];
                assert(whole[k] == sessions[i]);
            } else {
                assert(whole.last() == sessions[i]);
            }
        }
        assert forall|j: int| 0 <= j < whole.len() implies comes_from_window(
            sessions,
            days,
            filter,
            today,
            whole[j],
        ) by {
            if j < rest.len() {
                assert(comes_from_window(
                    sessions.drop_last(),
                    days.drop_last(),
                    filter,
                    today,
                    rest[j],
                ));
                let i = choose|i: int|
                    0 <= i < sessions.drop_last().len() && #[trigger] sessions.drop_last()[i]
                        == rest[j] && in_window(days.drop_last()[i] as int, filter, today);
                assert(whole[j] == rest[j]);
                assert(sessions[i] == whole[j] && in_window(days[i] as int, filter, today));
            } else {
                let i = sessions.len() - 1;
                assert(sessions[i] == whole[j] && in_window(days[i] as int, filter, today));
            }
        }
    }
}

/// The week window, on a ledger with no record dated after the reference
/// day, keeps exactly the records of the eight days from seven days
/// before the reference day through the reference day itself.
pub proof fn lemma_week_window_is_interval(days: Seq<i32>, today: int)
    requires
        forall|i: int| 0 <= i < days.len() ==> (#[trigger] days[i]) <= today,
    ensures
        forall|i: int|
            0 <= i < days.len() ==> (in_window(#[trigger] days[i] as int, SessionFilter::Week, today)
                <==> today - 7 <= days[i] <= today),
{
}

/// A day on which no record falls contributes a zero total.
pub proof fn lemma_day_total_empty_day(sessions: Seq<SessionModel>, days: Seq<i32>, day: int)
    requires
        sessions.len() == days.len(),
        forall|i: int| 0 <= i < days.len() ==> (#[trigger] days[i]) != day,
    ensures
        day_total(sessions, days, day) == 0,
    decreases sessions.len(),
{
    if sessions.len() > 0 {
        assert(days.last() == days[days.len() - 1]);
        lemma_day_total_empty_day(sessions.drop_last(), days.drop_last(), day);
    }
}

} // verus!
