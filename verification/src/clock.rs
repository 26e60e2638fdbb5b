//! The session state machine: phases, the mutable clock state, and the
//! transition rules driven by user intents and wall-clock time.
//!
//! The whole machine is modelled by one specification function,
//! [`step`], over the mathematical state [`Model`]; the executable
//! [`App::handle_action`] is proved to follow it exactly. Elapsed time is
//! always recomputed from absolute timestamps: pausing stores the pause
//! moment, and resuming shifts the interval start forward by the pause
//! duration, so one subtraction always yields true active time and no
//! missed poll can cause drift.

use vstd::prelude::*;
use vstd::view::View as _;

use crate::action::Action;
use crate::ledger::SessionFilter;
use crate::ledger::filter_sessions;
use crate::ledger::filtered_models;
use crate::ledger::local_days;
use crate::ledger::models_of;
use crate::session::Session;
use crate::session::SessionModel;
use crate::text::is_blank;
use crate::text::is_blank_spec;
use crate::text::string_of_chars;

verus! {

/// What kind of timer is currently active
#[derive(Debug, Clone, Copy, PartialEq, Eq, Structural)]
pub enum TimerMode {
    /// A focused work interval
    Work,
    /// A short break between work intervals
    ShortBreak,
    /// A long break after enough completed work intervals
    LongBreak,
}

/// The current state of the application
#[derive(Debug, Clone, Copy, PartialEq, Eq, Structural)]
pub enum AppState {
    /// Waiting for user to start a session
    Idle,
    /// Entering task description
    EnteringTask,
    /// Timer is running
    Running,
    /// Timer is paused
    Paused,
    /// Work session completed, offer break option
    WorkFinished,
    /// Break completed, ready for new work
    BreakFinished,
}

/// The current view/tab being displayed
#[derive(Debug, Clone, Copy, PartialEq, Eq, Structural)]
pub enum View {
    /// The countdown timer
    Timer,
    /// The table of past sessions
    History,
    /// The statistics dashboard
    Stats,
}

/// The tab position of a view.
pub open spec fn view_index(v: View) -> int {
    match v {
        View::Timer => 0,
        View::History => 1,
        View::Stats => 2,
    }
}

/// The view one tab to the right, wrapping.
pub open spec fn view_next(v: View) -> View {
    match v {
        View::Timer => View::History,
        View::History => View::Stats,
        View::Stats => View::Timer,
    }
}

/// The view one tab to the left, wrapping.
pub open spec fn view_prev(v: View) -> View {
    match v {
        View::Timer => View::Stats,
        View::History => View::Timer,
        View::Stats => View::History,
    }
}

impl View {
    /// Get view index for tab display
    pub fn index(&self) -> (r: usize)
        ensures
            r == view_index(*self),
    {
        match self {
            View::Timer => 0,
            View::History => 1,
            View::Stats => 2,
        }
    }

    /// Get next view (wrapping)
    pub fn next(&self) -> (r: Self)
        ensures
            r == view_next(*self),
    {
        match self {
            View::Timer => View::History,
            View::History => View::Stats,
            View::Stats => View::Timer,
        }
    }

    /// Get previous view (wrapping)
    pub fn prev(&self) -> (r: Self)
        ensures
            r == view_prev(*self),
    {
        match self {
            View::Timer => View::Stats,
            View::History => View::Timer,
            View::Stats => View::History,
        }
    }
}

/// The moment an intent arrives, read once by the caller and injected so
/// that the machine itself never consults a clock: a monotonic second
/// count for interval arithmetic, the UTC timestamp stamped on records,
/// and the local day number used by the history filter.
#[derive(Debug, Clone, Copy, PartialEq, Eq, Structural)]
pub struct Now {
    /// Seconds of a monotonic clock; never decreases between intents
    pub mono_secs: u64,
    /// UTC wall-clock time, whole seconds since the Unix epoch
    pub utc_secs: i64,
    /// The host's local day number (day 1 is January 1 of year 1)
    pub local_day: i32,
}

/// The mathematical state of the clock: every field of [`App`] with
/// machine representation abstracted away.
#[verifier::ext_equal]
pub struct Model {
    /// Discrete phase
    pub state: AppState,
    /// Whether the hosting process was asked to terminate
    pub should_quit: bool,
    /// Intended length of the current interval, seconds
    pub total_duration_secs: int,
    /// Seconds left; zero signals completion
    pub remaining_secs: int,
    /// Task text being entered or worked on
    pub task_description: Seq<char>,
    /// Monotonic moment the running interval effectively began
    pub session_start: Option<int>,
    /// Monotonic moment the pause began, while paused
    pub pause_start: Option<int>,
    /// UTC moment the work interval started, for the record
    pub pomodoro_started_at: Option<int>,
    /// Which tab is shown
    pub current_view: View,
    /// Which time window the history and stats views use
    pub session_filter: SessionFilter,
    /// The cached records, as models
    pub sessions: Seq<SessionModel>,
    /// Local day number of each cached record, paired by index
    pub session_days: Seq<i32>,
    /// Selected row in the history view
    pub history_selected: int,
    /// Kind of the current interval
    pub timer_mode: TimerMode,
    /// Configured work interval length, seconds
    pub work_duration_secs: int,
    /// Configured short break length, seconds
    pub short_break_secs: int,
    /// Configured long break length, seconds
    pub long_break_secs: int,
    /// Work intervals before a long break is offered
    pub sessions_until_long_break: int,
    /// Work intervals completed since the last long break
    pub work_sessions_completed: int,
}

/// A transition's outcome: the state after it, and the record to hand to
/// the persistence adapter, if the transition emits one.
#[verifier::ext_equal]
pub struct Transition {
    /// The state after the step
    pub post: Model,
    /// The record to persist, if any
    pub save: Option<SessionModel>,
}

/// A step that only moves the state and persists nothing.
pub open spec fn moved(m: Model) -> Transition {
    Transition { post: m, save: Option::None }
}

/// The well-formed states. Every reachable state satisfies this: the
/// remaining time never leaves `[0, total]`, the pause mark exists
/// exactly while paused, the start mark exactly while running or paused
/// (and never after the pause mark), pausing happens only in work
/// intervals, a running or paused work interval always knows its UTC
/// start, and the record cache pairs with its day numbers.
pub open spec fn wf(m: Model) -> bool {
    &&& 0 <= m.remaining_secs <= m.total_duration_secs
    &&& m.total_duration_secs <= u32::MAX
    &&& 0 <= m.work_duration_secs <= u32::MAX
    &&& 0 <= m.short_break_secs <= u32::MAX
    &&& 0 <= m.long_break_secs <= u32::MAX
    &&& 0 <= m.work_sessions_completed <= u32::MAX
    &&& 0 <= m.history_selected
    &&& (m.pause_start is Some <==> m.state == AppState::Paused)
    &&& (m.session_start is Some <==> (m.state == AppState::Running || m.state
        == AppState::Paused))
    &&& (m.state == AppState::Paused ==> m.timer_mode == TimerMode::Work)
    &&& (m.state == AppState::Paused ==> m.session_start.unwrap() <= m.pause_start.unwrap())
    &&& (m.session_start matches Some(s) ==> 0 <= s <= u64::MAX)
    &&& (m.pause_start matches Some(p) ==> 0 <= p <= u64::MAX)
    &&& ((m.state == AppState::Running || m.state == AppState::Paused) && m.timer_mode
        == TimerMode::Work ==> m.pomodoro_started_at is Some)
    &&& m.sessions.len() == m.session_days.len()
    &&& m.sessions.len() <= u32::MAX
}

/// Whether a moment is admissible for the next step from state `m`: the
/// monotonic clock has not run backwards past either stored mark, and the
/// completion counter can still be incremented.
pub open spec fn now_ok(m: Model, now: Now) -> bool {
    &&& (m.session_start matches Some(s) ==> s <= now.mono_secs)
    &&& (m.pause_start matches Some(p) ==> p <= now.mono_secs)
    &&& m.work_sessions_completed < u32::MAX
}

/// The record a stop or completion would persist from state `m`: the
/// task text with the elapsed seconds, provided a work interval was
/// started and the task is not blank.
pub open spec fn spec_save(m: Model, completed: bool) -> Option<SessionModel> {
    match m.pomodoro_started_at {
        Option::Some(started) => {
            if !is_blank_spec(m.task_description) {
                Option::Some(SessionModel {
                    task: m.task_description,
                    started_at: started,
                    duration_secs: m.total_duration_secs - m.remaining_secs,
                    completed,
                })
            } else {
                Option::None
            }
        },
        Option::None => Option::None,
    }
}

/// The idle state a stop returns to: work mode at full work duration,
/// with the task text and all timing marks cleared. The record cache and
/// the view settings survive.
pub open spec fn spec_reset(m: Model) -> Model {
    Model {
        state: AppState::Idle,
        timer_mode: TimerMode::Work,
        total_duration_secs: m.work_duration_secs,
        remaining_secs: m.work_duration_secs,
        task_description: Seq::empty(),
        session_start: Option::None,
        pause_start: Option::None,
        pomodoro_started_at: Option::None,
        ..m
    }
}

/// Begin the work interval for the task just entered.
pub open spec fn spec_start_work(m: Model, now: Now) -> Model {
    Model {
        state: AppState::Running,
        timer_mode: TimerMode::Work,
        total_duration_secs: m.work_duration_secs,
        remaining_secs: m.work_duration_secs,
        session_start: Option::Some(now.mono_secs as int),
        pomodoro_started_at: Option::Some(now.utc_secs as int),
        ..m
    }
}

/// Begin a break after a finished work interval: a long one once enough
/// work intervals have completed (which resets the counter to zero), a
/// short one otherwise.
pub open spec fn spec_start_break(m: Model, now: Now) -> Model {
    if m.work_sessions_completed >= m.sessions_until_long_break {
        Model {
            state: AppState::Running,
            timer_mode: TimerMode::LongBreak,
            total_duration_secs: m.long_break_secs,
            remaining_secs: m.long_break_secs,
            session_start: Option::Some(now.mono_secs as int),
            work_sessions_completed: 0,
            ..m
        }
    } else {
        Model {
            state: AppState::Running,
            timer_mode: TimerMode::ShortBreak,
            total_duration_secs: m.short_break_secs,
            remaining_secs: m.short_break_secs,
            session_start: Option::Some(now.mono_secs as int),
            ..m
        }
    }
}

/// Move to the next tab, resetting the history selection.
pub open spec fn spec_next_view(m: Model) -> Model {
    Model { current_view: view_next(m.current_view), history_selected: 0, ..m }
}

/// Move to the previous tab, resetting the history selection.
pub open spec fn spec_prev_view(m: Model) -> Model {
    Model { current_view: view_prev(m.current_view), history_selected: 0, ..m }
}

/// The window after the current one, cycling Today, Week, All.
pub open spec fn filter_next(f: SessionFilter) -> SessionFilter {
    match f {
        SessionFilter::Today => SessionFilter::Week,
        SessionFilter::Week => SessionFilter::All,
        SessionFilter::All => SessionFilter::Today,
    }
}

/// Cycle the history window, resetting the history selection.
pub open spec fn spec_cycle_filter(m: Model) -> Model {
    Model { session_filter: filter_next(m.session_filter), history_selected: 0, ..m }
}

/// How many cached records the current window keeps, on the given day.
pub open spec fn spec_filtered_len(m: Model, today: int) -> int {
    filtered_models(m.sessions, m.session_days, m.session_filter, today).len() as int
}

/// Move the history selection one row up.
pub open spec fn spec_scroll_up(m: Model) -> Model {
    if m.current_view == View::History && m.history_selected > 0 {
        Model { history_selected: m.history_selected - 1, ..m }
    } else {
        m
    }
}

/// Move the history selection one row down, no further than the last
/// filtered row.
pub open spec fn spec_scroll_down(m: Model, today: int) -> Model {
    if m.current_view == View::History {
        let len = spec_filtered_len(m, today);
        let max = if len == 0 { 0int } else { len - 1 };
        if m.history_selected < max {
            Model { history_selected: m.history_selected + 1, ..m }
        } else {
            m
        }
    } else {
        m
    }
}

/// A quit request from any phase: persist the interrupted work interval
/// if one is mid-flight, then ask the process to terminate.
pub open spec fn spec_quit(m: Model) -> Transition {
    let post = Model { should_quit: true, ..m };
    if (m.state == AppState::Running || m.state == AppState::Paused) && m.timer_mode
        == TimerMode::Work {
        Transition { post, save: spec_save(m, false) }
    } else {
        Transition { post, save: Option::None }
    }
}

/// A tick while running: if the elapsed time has reached the intended
/// duration the interval completes (a work interval is persisted as
/// completed and counted; a break is not), otherwise the remaining time
/// is recomputed from the absolute start.
pub open spec fn spec_tick(m: Model, now: Now) -> Transition {
    match m.session_start {
        Option::Some(start) => {
            let elapsed = now.mono_secs - start;
            if elapsed >= m.total_duration_secs {
                if m.timer_mode == TimerMode::Work {
                    let post = Model {
                        state: AppState::WorkFinished,
                        remaining_secs: 0,
                        session_start: Option::None,
                        work_sessions_completed: m.work_sessions_completed + 1,
                        ..m
                    };
                    Transition { post, save: spec_save(post, true) }
                } else {
                    moved(Model {
                        state: AppState::BreakFinished,
                        remaining_secs: 0,
                        session_start: Option::None,
                        ..m
                    })
                }
            } else {
                moved(Model { remaining_secs: m.total_duration_secs - elapsed, ..m })
            }
        },
        Option::None => moved(m),
    }
}

/// A printable character arriving in the given phase.
pub open spec fn spec_input(m: Model, c: char, now: Now) -> Transition {
    match m.state {
        AppState::Idle => {
            if c == 'q' || c == 'Q' {
                moved(Model { should_quit: true, ..m })
            } else if c == 'f' || c == 'F' {
                if m.current_view == View::History || m.current_view == View::Stats {
                    moved(spec_cycle_filter(m))
                } else if m.current_view == View::Timer {
                    moved(Model {
                        state: AppState::EnteringTask,
                        task_description: Seq::empty().push(c),
                        ..m
                    })
                } else {
                    moved(m)
                }
            } else {
                if m.current_view == View::Timer {
                    moved(Model {
                        state: AppState::EnteringTask,
                        task_description: Seq::empty().push(c),
                        ..m
                    })
                } else {
                    moved(m)
                }
            }
        },
        AppState::EnteringTask => {
            moved(Model { task_description: m.task_description.push(c), ..m })
        },
        AppState::Running => {
            if c == ' ' {
                if m.timer_mode == TimerMode::Work {
                    moved(Model {
                        state: AppState::Paused,
                        pause_start: Option::Some(now.mono_secs as int),
                        ..m
                    })
                } else {
                    moved(m)
                }
            } else if c == 's' || c == 'S' {
                if m.timer_mode != TimerMode::Work {
                    moved(Model {
                        state: AppState::BreakFinished,
                        session_start: Option::None,
                        ..m
                    })
                } else {
                    moved(m)
                }
            } else if c == 'r' || c == 'R' {
                if m.timer_mode == TimerMode::Work {
                    Transition { post: spec_reset(m), save: spec_save(m, false) }
                } else {
                    moved(spec_reset(m))
                }
            } else if c == 'q' || c == 'Q' {
                if m.timer_mode == TimerMode::Work {
                    Transition { post: Model { should_quit: true, ..m }, save: spec_save(m, false) }
                } else {
                    moved(Model { should_quit: true, ..m })
                }
            } else if c == 'f' || c == 'F' {
                if m.current_view == View::History || m.current_view == View::Stats {
                    moved(spec_cycle_filter(m))
                } else {
                    moved(m)
                }
            } else {
                moved(m)
            }
        },
        AppState::Paused => {
            if c == ' ' {
                let shifted = match (m.pause_start, m.session_start) {
                    (Option::Some(pause), Option::Some(start)) => Option::Some(
                        start + (now.mono_secs - pause),
                    ),
                    _ => m.session_start,
                };
                moved(Model {
                    state: AppState::Running,
                    session_start: shifted,
                    pause_start: Option::None,
                    ..m
                })
            } else if c == 'r' || c == 'R' {
                Transition { post: spec_reset(m), save: spec_save(m, false) }
            } else if c == 'q' || c == 'Q' {
                Transition { post: Model { should_quit: true, ..m }, save: spec_save(m, false) }
            } else if c == 'f' || c == 'F' {
                if m.current_view == View::History || m.current_view == View::Stats {
                    moved(spec_cycle_filter(m))
                } else {
                    moved(m)
                }
            } else {
                moved(m)
            }
        },
        AppState::WorkFinished => {
            if c == 'b' || c == 'B' {
                moved(spec_start_break(m, now))
            } else if c == 's' || c == 'S' {
                moved(spec_reset(m))
            } else if c == 'q' || c == 'Q' {
                moved(Model { should_quit: true, ..m })
            } else if c == 'f' || c == 'F' {
                if m.current_view == View::History || m.current_view == View::Stats {
                    moved(spec_cycle_filter(m))
                } else {
                    moved(m)
                }
            } else {
                moved(m)
            }
        },
        AppState::BreakFinished => {
            if c == 's' || c == 'S' {
                moved(spec_reset(m))
            } else if c == 'q' || c == 'Q' {
                moved(Model { should_quit: true, ..m })
            } else if c == 'f' || c == 'F' {
                if m.current_view == View::History || m.current_view == View::Stats {
                    moved(spec_cycle_filter(m))
                } else {
                    moved(m)
                }
            } else {
                moved(m)
            }
        },
    }
}

/// The fresh task-entry state a confirm from a finished interval moves
/// to: work mode at full duration, empty task text.
pub open spec fn spec_new_entry(m: Model) -> Model {
    Model {
        state: AppState::EnteringTask,
        timer_mode: TimerMode::Work,
        total_duration_secs: m.work_duration_secs,
        remaining_secs: m.work_duration_secs,
        task_description: Seq::empty(),
        ..m
    }
}

/// The transition relation of the machine: from any state, one intent
/// arriving at one moment yields the next state and at most one record
/// to persist. Intents that make no sense in the current phase are
/// ignored, never errors.
pub open spec fn step(m: Model, a: Action, now: Now) -> Transition {
    match a {
        Action::NextTab => {
            if m.state != AppState::EnteringTask {
                moved(spec_next_view(m))
            } else {
                moved(m)
            }
        },
        Action::PrevTab => {
            if m.state != AppState::EnteringTask {
                moved(spec_prev_view(m))
            } else {
                moved(m)
            }
        },
        Action::ScrollUp => moved(spec_scroll_up(m)),
        Action::ScrollDown => moved(spec_scroll_down(m, now.local_day as int)),
        Action::Quit => spec_quit(m),
        Action::Confirm => {
            match m.state {
                AppState::Idle => {
                    if m.current_view == View::Timer {
                        moved(Model {
                            state: AppState::EnteringTask,
                            task_description: Seq::empty(),
                            ..m
                        })
                    } else {
                        moved(m)
                    }
                },
                AppState::EnteringTask => {
                    if !is_blank_spec(m.task_description) {
                        moved(spec_start_work(m, now))
                    } else {
                        moved(m)
                    }
                },
                AppState::WorkFinished => moved(spec_new_entry(m)),
                AppState::BreakFinished => moved(spec_new_entry(m)),
                _ => moved(m),
            }
        },
        Action::Input(c) => spec_input(m, c, now),
        Action::Backspace => {
            if m.state == AppState::EnteringTask {
                if m.task_description.len() > 0 {
                    moved(Model { task_description: m.task_description.drop_last(), ..m })
                } else {
                    moved(m)
                }
            } else {
                moved(m)
            }
        },
        Action::Cancel => {
            if m.state == AppState::EnteringTask {
                moved(Model { state: AppState::Idle, task_description: Seq::empty(), ..m })
            } else {
                moved(m)
            }
        },
        Action::Tick => {
            if m.state == AppState::Running {
                spec_tick(m, now)
            } else {
                moved(m)
            }
        },
        _ => moved(m),
    }
}

/// Whether the record an executable step returned carries exactly the
/// content the transition relation prescribes (the random identifier is
/// outside the model).
pub open spec fn saved_matches(r: Option<Session>, d: Option<SessionModel>) -> bool {
    match (r, d) {
        (Option::Some(s), Option::Some(dm)) => s@ == dm,
        (Option::None, Option::None) => true,
        _ => false,
    }
}

/// The state of a fresh application: idle in work mode at the configured
/// work duration, week window, timer tab, empty record cache.
pub open spec fn initial_model(
    duration_minutes: int,
    short_break_minutes: int,
    long_break_minutes: int,
    long_break_interval: int,
) -> Model {
    Model {
        state: AppState::Idle,
        should_quit: false,
        total_duration_secs: duration_minutes * 60,
        remaining_secs: duration_minutes * 60,
        task_description: Seq::empty(),
        session_start: Option::None,
        pause_start: Option::None,
        pomodoro_started_at: Option::None,
        current_view: View::Timer,
        session_filter: SessionFilter::Week,
        sessions: Seq::empty(),
        session_days: Seq::empty(),
        history_selected: 0,
        timer_mode: TimerMode::Work,
        work_duration_secs: duration_minutes * 60,
        short_break_secs: short_break_minutes * 60,
        long_break_secs: long_break_minutes * 60,
        sessions_until_long_break: long_break_interval,
        work_sessions_completed: 0,
    }
}

/// The three-letter-or-so label of the current history window.
pub open spec fn filter_label_spec(f: SessionFilter) -> Seq<char> {
    match f {
        SessionFilter::Today => "Today"@,
        SessionFilter::Week => "This Week"@,
        SessionFilter::All => "All Time"@,
    }
}

/// Main application state: the session clock together with the cached
/// record list and the view settings the intents act on.
pub struct App {
    /// Current state of the app
    pub state: AppState,
    /// Whether the app should quit
    pub should_quit: bool,
    /// Total duration of current timer in seconds
    pub total_duration_secs: u32,
    /// Remaining time in seconds
    pub remaining_secs: u32,
    /// Current task description
    pub task_description: Vec<char>,
    /// When the current interval effectively began, on the monotonic clock
    pub session_start: Option<u64>,
    /// When the current pause began, on the monotonic clock
    pub pause_start: Option<u64>,
    /// When the pomodoro was started (for the session record), UTC seconds
    pub pomodoro_started_at: Option<i64>,
    /// Current view/tab
    pub current_view: View,
    /// Current session filter
    pub session_filter: SessionFilter,
    /// Cached sessions for history/stats views
    pub sessions_cache: Vec<Session>,
    /// Local day number of each cached session, paired by index
    pub session_days: Vec<i32>,
    /// Currently selected row in history view
    pub history_selected: usize,
    /// Current timer mode (work, short break, long break)
    pub timer_mode: TimerMode,
    /// Original work duration in seconds
    pub work_duration_secs: u32,
    /// Short break duration in seconds
    pub short_break_secs: u32,
    /// Long break duration in seconds
    pub long_break_secs: u32,
    /// Number of work sessions before a long break
    pub sessions_until_long_break: u32,
    /// Work sessions completed since last long break
    pub work_sessions_completed: u32,
}

impl vstd::view::View for App {
    type V = Model;

    open spec fn view(&self) -> Model {
        Model {
            state: self.state,
            should_quit: self.should_quit,
            total_duration_secs: self.total_duration_secs as int,
            remaining_secs: self.remaining_secs as int,
            task_description: self.task_description@,
            session_start: match self.session_start {
                Option::Some(s) => Option::Some(s as int),
                Option::None => Option::None,
            },
            pause_start: match self.pause_start {
                Option::Some(p) => Option::Some(p as int),
                Option::None => Option::None,
            },
            pomodoro_started_at: match self.pomodoro_started_at {
                Option::Some(t) => Option::Some(t as int),
                Option::None => Option::None,
            },
            current_view: self.current_view,
            session_filter: self.session_filter,
            sessions: models_of(self.sessions_cache@),
            session_days: self.session_days@,
            history_selected: self.history_selected as int,
            timer_mode: self.timer_mode,
            work_duration_secs: self.work_duration_secs as int,
            short_break_secs: self.short_break_secs as int,
            long_break_secs: self.long_break_secs as int,
            sessions_until_long_break: self.sessions_until_long_break as int,
            work_sessions_completed: self.work_sessions_completed as int,
        }
    }
}

impl App {
    /// Create a new application from its configuration, given in minutes.
    /// The record cache starts empty; load it with [`App::set_sessions`].
    pub fn new(
        duration_minutes: u32,
        short_break_minutes: u32,
        long_break_minutes: u32,
        long_break_interval: u32,
    ) -> (r: App)
        requires
            duration_minutes * 60 <= u32::MAX,
            short_break_minutes * 60 <= u32::MAX,
            long_break_minutes * 60 <= u32::MAX,
        ensures
            r@ == initial_model(
                duration_minutes as int,
                short_break_minutes as int,
                long_break_minutes as int,
                long_break_interval as int,
            ),
            wf(r@),
    {
        let duration_secs = duration_minutes * 60;
        let r = App {
            state: AppState::Idle,
            should_quit: false,
            total_duration_secs: duration_secs,
            remaining_secs: duration_secs,
            task_description: Vec::new(),
            session_start: Option::None,
            pause_start: Option::None,
            pomodoro_started_at: Option::None,
            current_view: View::Timer,
            session_filter: SessionFilter::Week,
            sessions_cache: Vec::new(),
            session_days: Vec::new(),
            history_selected: 0,
            timer_mode: TimerMode::Work,
            work_duration_secs: duration_secs,
            short_break_secs: short_break_minutes * 60,
            long_break_secs: long_break_minutes * 60,
            sessions_until_long_break: long_break_interval,
            work_sessions_completed: 0,
        };
        proof {
            assert(r@ =~= initial_model(
                duration_minutes as int,
                short_break_minutes as int,
                long_break_minutes as int,
                long_break_interval as int,
            ));
        }
        r
    }

    /// Replace the cached record list, recomputing the local day number
    /// of each record. Only the pairing of days by index is promised;
    /// the values depend on the host's time zone.
    pub fn set_sessions(&mut self, sessions: Vec<Session>)
        requires
            sessions@.len() <= u32::MAX,
        ensures
            final(self)@.sessions == models_of(sessions@),
            final(self)@.session_days.len() == sessions@.len(),
            final(self)@ == (Model {
                sessions: final(self)@.sessions,
                session_days: final(self)@.session_days,
                ..old(self)@
            }),
    {
        let days = local_days(&sessions);
        self.sessions_cache = sessions;
        self.session_days = days;
        proof {
            assert(self@ =~= (Model {
                sessions: self@.sessions,
                session_days: self@.session_days,
                ..old(self)@
            }));
        }
    }

    /// Whether this moment may drive the next step: the monotonic clock
    /// has not run backwards past a stored mark, and the completion
    /// counter has room.
    pub fn can_apply(&self, now: Now) -> (r: bool)
        ensures
            r == now_ok(self@, now),
    {
        let start_ok = match self.session_start {
            Option::Some(s) => s <= now.mono_secs,
            Option::None => true,
        };
        let pause_ok = match self.pause_start {
            Option::Some(p) => p <= now.mono_secs,
            Option::None => true,
        };
        start_ok && pause_ok && self.work_sessions_completed < u32::MAX
    }

    /// Switch to next view
    pub fn next_view(&mut self)
        ensures
            final(self)@ == spec_next_view(old(self)@),
    {
        self.current_view = self.current_view.next();
        self.history_selected = 0;
        proof {
            assert(self@ =~= spec_next_view(old(self)@));
        }
    }

    /// Switch to previous view
    pub fn prev_view(&mut self)
        ensures
            final(self)@ == spec_prev_view(old(self)@),
    {
        self.current_view = self.current_view.prev();
        self.history_selected = 0;
        proof {
            assert(self@ =~= spec_prev_view(old(self)@));
        }
    }

    /// Cycle through session filters
    pub fn cycle_filter(&mut self)
        ensures
            final(self)@ == spec_cycle_filter(old(self)@),
    {
        self.session_filter = match self.session_filter {
            SessionFilter::Today => SessionFilter::Week,
            SessionFilter::Week => SessionFilter::All,
            SessionFilter::All => SessionFilter::Today,
        };
        self.history_selected = 0;
        proof {
            assert(self@ =~= spec_cycle_filter(old(self)@));
        }
    }

    /// Get elapsed seconds
    pub fn elapsed_secs(&self) -> (r: u32)
        requires
            self@.remaining_secs <= self@.total_duration_secs,
        ensures
            r == self@.total_duration_secs - self@.remaining_secs,
    {
        self.total_duration_secs - self.remaining_secs
    }

    /// Get filter label
    pub fn filter_label(&self) -> (r: &'static str)
        ensures
            r@ == filter_label_spec(self@.session_filter),
    {
        match self.session_filter {
            SessionFilter::Today => "Today",
            SessionFilter::Week => "This Week",
            SessionFilter::All => "All Time",
        }
    }

    /// The table row to highlight in the history view, which lists the
    /// filtered records newest first: the selection counts from the
    /// newest record, the row index from the top of the table.
    pub fn selected_index(&self, filtered_len: usize) -> (r: usize)
        ensures
            r == if filtered_len == 0 {
                0int
            } else if self@.history_selected <= filtered_len - 1 {
                filtered_len - 1 - self@.history_selected
            } else {
                0int
            },
    {
        if filtered_len == 0 {
            0
        } else {
            let newest = filtered_len - 1;
            if self.history_selected <= newest {
                newest - self.history_selected
            } else {
                0
            }
        }
    }

    /// Get filtered sessions based on current filter
    pub fn filtered_sessions(&self, today: i32) -> (r: Vec<&Session>)
        requires
            self@.sessions.len() == self@.session_days.len(),
        ensures
            crate::ledger::ref_models_of(r@) == filtered_models(
                self@.sessions,
                self@.session_days,
                self@.session_filter,
                today as int,
            ),
    {
        filter_sessions(&self.sessions_cache, &self.session_days, self.session_filter, today)
    }

    /// Get daily focus time in seconds for the past 7 days, oldest first.
    pub fn daily_focus_data(&self, today: i32) -> (r: Vec<u64>)
        requires
            self@.sessions.len() == self@.session_days.len(),
            self@.sessions.len() <= u32::MAX,
        ensures
            r@.len() == 7,
            forall|i: int| 0 <= i < 7 ==> r@[i] == crate::ledger::day_total(
                self@.sessions,
                self@.session_days,
                today - 6 + i,
            ),
    {
        crate::ledger::daily_focus_data(&self.sessions_cache, &self.session_days, today)
    }

    /// Get weekly focus data with day labels for the bar chart, oldest
    /// first.
    pub fn weekly_bar_data(&self, today: i32) -> (r: Vec<(&'static str, u64)>)
        requires
            self@.sessions.len() == self@.session_days.len(),
            self@.sessions.len() <= u32::MAX,
        ensures
            r@.len() == 7,
            forall|i: int| 0 <= i < 7 ==> (#[trigger] r@[i]).1 == crate::ledger::day_total(
                self@.sessions,
                self@.session_days,
                today - 6 + i,
            ),
            forall|i: int| 0 <= i < 7 ==> (#[trigger] r@[i]).0@ == crate::ledger::day_label_spec(
                today - 6 + i,
            ),
    {
        crate::ledger::weekly_bar_data(&self.sessions_cache, &self.session_days, today)
    }

    /// Save the current session
    fn save_current_session(&self, completed: bool) -> (r: Option<Session>)
        requires
            self@.remaining_secs <= self@.total_duration_secs,
        ensures
            saved_matches(r, spec_save(self@, completed)),
    {
        match self.pomodoro_started_at {
            Option::Some(started_at) => {
                if !is_blank(&self.task_description) {
                    let duration_secs = self.total_duration_secs - self.remaining_secs;
                    Option::Some(Session::new(
                        string_of_chars(&self.task_description),
                        started_at,
                        duration_secs,
                        completed,
                    ))
                } else {
                    Option::None
                }
            },
            Option::None => Option::None,
        }
    }

    /// Reset the app to idle state
    fn reset(&mut self)
        ensures
            final(self)@ == spec_reset(old(self)@),
    {
        self.state = AppState::Idle;
        self.timer_mode = TimerMode::Work;
        self.total_duration_secs = self.work_duration_secs;
        self.remaining_secs = self.work_duration_secs;
        self.task_description.clear();
        self.session_start = Option::None;
        self.pause_start = Option::None;
        self.pomodoro_started_at = Option::None;
        proof {
            assert(self@ =~= spec_reset(old(self)@));
        }
    }

    /// Start a work timer
    fn start_work_timer(&mut self, now: Now)
        ensures
            final(self)@ == spec_start_work(old(self)@, now),
    {
        self.timer_mode = TimerMode::Work;
        self.total_duration_secs = self.work_duration_secs;
        self.remaining_secs = self.work_duration_secs;
        self.session_start = Option::Some(now.mono_secs);
        self.pomodoro_started_at = Option::Some(now.utc_secs);
        self.state = AppState::Running;
        proof {
            assert(self@ =~= spec_start_work(old(self)@, now));
        }
    }

    /// Start a break timer (short or long based on completed sessions)
    fn start_break(&mut self, now: Now)
        ensures
            final(self)@ == spec_start_break(old(self)@, now),
    {
        if self.work_sessions_completed >= self.sessions_until_long_break {
            self.timer_mode = TimerMode::LongBreak;
            self.total_duration_secs = self.long_break_secs;
            self.work_sessions_completed = 0;
        } else {
            self.timer_mode = TimerMode::ShortBreak;
            self.total_duration_secs = self.short_break_secs;
        }
        self.remaining_secs = self.total_duration_secs;
        self.session_start = Option::Some(now.mono_secs);
        self.state = AppState::Running;
        proof {
            assert(self@ =~= spec_start_break(old(self)@, now));
        }
    }

    /// Update the timer based on elapsed time
    fn update_timer(&mut self, now: Now) -> (saved: Option<Session>)
        requires
            wf(old(self)@),
            now_ok(old(self)@, now),
        ensures
            final(self)@ == spec_tick(old(self)@, now).post,
            saved_matches(saved, spec_tick(old(self)@, now).save),
    {
        match self.session_start {
            Option::Some(start) => {
                let elapsed: u64 = now.mono_secs - start;
                if elapsed >= self.total_duration_secs as u64 {
                    self.remaining_secs = 0;
                    if self.timer_mode == TimerMode::Work {
                        self.state = AppState::WorkFinished;
                        self.session_start = Option::None;
                        self.work_sessions_completed = self.work_sessions_completed + 1;
                        let saved = self.save_current_session(true);
                        proof {
                            assert(self@ =~= spec_tick(old(self)@, now).post);
                        }
                        saved
                    } else {
                        self.state = AppState::BreakFinished;
                        self.session_start = Option::None;
                        proof {
                            assert(self@ =~= spec_tick(old(self)@, now).post);
                        }
                        Option::None
                    }
                } else {
                    self.remaining_secs = self.total_duration_secs - (elapsed as u32);
                    proof {
                        assert(self@ =~= spec_tick(old(self)@, now).post);
                    }
                    Option::None
                }
            },
            Option::None => Option::None,
        }
    }

    /// A printable character arriving in the current phase.
    fn handle_input(&mut self, c: char, now: Now) -> (saved: Option<Session>)
        requires
            wf(old(self)@),
            now_ok(old(self)@, now),
        ensures
            final(self)@ == spec_input(old(self)@, c, now).post,
            saved_matches(saved, spec_input(old(self)@, c, now).save),
    {
        match self.state {
            AppState::Idle => {
                if c == 'q' || c == 'Q' {
                    self.should_quit = true;
                    proof {
                        assert(self@ =~= spec_input(old(self)@, c, now).post);
                    }
                } else if c == 'f' || c == 'F' {
                    if self.current_view == View::History || self.current_view == View::Stats {
                        self.cycle_filter();
                    } else if self.current_view == View::Timer {
                        self.state = AppState::EnteringTask;
                        self.task_description.clear();
                        self.task_description.push(c);
                        proof {
                            assert(self@ =~= spec_input(old(self)@, c, now).post);
                        }
                    }
                } else {
                    if self.current_view == View::Timer {
                        self.state = AppState::EnteringTask;
                        self.task_description.clear();
                        self.task_description.push(c);
                        proof {
                            assert(self@ =~= spec_input(old(self)@, c, now).post);
                        }
                    }
                }
                Option::None
            },
            AppState::EnteringTask => {
                self.task_description.push(c);
                proof {
                    assert(self@ =~= spec_input(old(self)@, c, now).post);
                }
                Option::None
            },
            AppState::Running => {
                if c == ' ' {
                    if self.timer_mode == TimerMode::Work {
                        self.pause_start = Option::Some(now.mono_secs);
                        self.state = AppState::Paused;
                        proof {
                            assert(self@ =~= spec_input(old(self)@, c, now).post);
                        }
                    }
                    Option::None
                } else if c == 's' || c == 'S' {
                    if self.timer_mode != TimerMode::Work {
                        self.state = AppState::BreakFinished;
                        self.session_start = Option::None;
                        proof {
                            assert(self@ =~= spec_input(old(self)@, c, now).post);
                        }
                    }
                    Option::None
                } else if c == 'r' || c == 'R' {
                    let saved = if self.timer_mode == TimerMode::Work {
                        self.save_current_session(false)
                    } else {
                        Option::None
                    };
                    self.reset();
                    saved
                } else if c == 'q' || c == 'Q' {
                    let saved = if self.timer_mode == TimerMode::Work {
                        self.save_current_session(false)
                    } else {
                        Option::None
                    };
                    self.should_quit = true;
                    proof {
                        assert(self@ =~= spec_input(old(self)@, c, now).post);
                    }
                    saved
                } else if c == 'f' || c == 'F' {
                    if self.current_view == View::History || self.current_view == View::Stats {
                        self.cycle_filter();
                    }
                    Option::None
                } else {
                    Option::None
                }
            },
            AppState::Paused => {
                if c == ' ' {
                    match (self.pause_start, self.session_start) {
                        (Option::Some(pause), Option::Some(start)) => {
                            self.session_start = Option::Some(start + (now.mono_secs - pause));
                        },
                        _ => {},
                    }
                    self.pause_start = Option::None;
                    self.state = AppState::Running;
                    proof {
                        assert(self@ =~= spec_input(old(self)@, c, now).post);
                    }
                    Option::None
                } else if c == 'r' || c == 'R' {
                    let saved = self.save_current_session(false);
                    self.reset();
                    saved
                } else if c == 'q' || c == 'Q' {
                    let saved = self.save_current_session(false);
                    self.should_quit = true;
                    proof {
                        assert(self@ =~= spec_input(old(self)@, c, now).post);
                    }
                    saved
                } else if c == 'f' || c == 'F' {
                    if self.current_view == View::History || self.current_view == View::Stats {
                        self.cycle_filter();
                    }
                    Option::None
                } else {
                    Option::None
                }
            },
            AppState::WorkFinished => {
                if c == 'b' || c == 'B' {
                    self.start_break(now);
                } else if c == 's' || c == 'S' {
                    self.reset();
                } else if c == 'q' || c == 'Q' {
                    self.should_quit = true;
                    proof {
                        assert(self@ =~= spec_input(old(self)@, c, now).post);
                    }
                } else if c == 'f' || c == 'F' {
                    if self.current_view == View::History || self.current_view == View::Stats {
                        self.cycle_filter();
                    }
                }
                Option::None
            },
            AppState::BreakFinished => {
                if c == 's' || c == 'S' {
                    self.reset();
                } else if c == 'q' || c == 'Q' {
                    self.should_quit = true;
                    proof {
                        assert(self@ =~= spec_input(old(self)@, c, now).post);
                    }
                } else if c == 'f' || c == 'F' {
                    if self.current_view == View::History || self.current_view == View::Stats {
                        self.cycle_filter();
                    }
                }
                Option::None
            },
        }
    }

    /// A confirm intent arriving in the current phase.
    fn handle_confirm(&mut self, now: Now) -> (saved: Option<Session>)
        requires
            wf(old(self)@),
        ensures
            final(self)@ == step(old(self)@, Action::Confirm, now).post,
            saved_matches(saved, step(old(self)@, Action::Confirm, now).save),
    {
        match self.state {
            AppState::Idle => {
                if self.current_view == View::Timer {
                    self.state = AppState::EnteringTask;
                    self.task_description.clear();
                    proof {
                        assert(self@ =~= step(old(self)@, Action::Confirm, now).post);
                    }
                }
            },
            AppState::EnteringTask => {
                if !is_blank(&self.task_description) {
                    self.start_work_timer(now);
                }
            },
            AppState::WorkFinished | AppState::BreakFinished => {
                self.timer_mode = TimerMode::Work;
                self.total_duration_secs = self.work_duration_secs;
                self.remaining_secs = self.work_duration_secs;
                self.state = AppState::EnteringTask;
                self.task_description.clear();
                proof {
                    assert(self@ =~= step(old(self)@, Action::Confirm, now).post);
                }
            },
            _ => {},
        }
        Option::None
    }

    /// Handle an action and update state. Returns the record to hand to
    /// the persistence adapter, if this step emitted one; the caller
    /// stores it and the machine moves on whether or not that succeeds.
    pub fn handle_action(&mut self, action: Action, now: Now) -> (saved: Option<Session>)
        requires
            wf(old(self)@),
            now_ok(old(self)@, now),
        ensures
            final(self)@ == step(old(self)@, action, now).post,
            saved_matches(saved, step(old(self)@, action, now).save),
            wf(final(self)@),
    {
        let saved: Option<Session> = match action {
            Action::NextTab => {
                if !(self.state == AppState::EnteringTask) {
                    self.next_view();
                }
                Option::None
            },
            Action::PrevTab => {
                if !(self.state == AppState::EnteringTask) {
                    self.prev_view();
                }
                Option::None
            },
            Action::ScrollUp => {
                if self.current_view == View::History && self.history_selected > 0 {
                    self.history_selected = self.history_selected - 1;
                    proof {
                        assert(self@ =~= spec_scroll_up(old(self)@));
                    }
                }
                Option::None
            },
            Action::ScrollDown => {
                if self.current_view == View::History {
                    let filtered = filter_sessions(
                        &self.sessions_cache,
                        &self.session_days,
                        self.session_filter,
                        now.local_day,
                    );
                    let flen = filtered.len();
                    let max: usize = if flen == 0 {
                        0
                    } else {
                        flen - 1
                    };
                    if self.history_selected < max {
                        self.history_selected = self.history_selected + 1;
                        proof {
                            assert(self@ =~= spec_scroll_down(
                                old(self)@, now.local_day as int));
                        }
                    }
                }
                Option::None
            },
            Action::Quit => {
                let saved = if (self.state == AppState::Running || self.state == AppState::Paused)
                    && self.timer_mode == TimerMode::Work {
                    self.save_current_session(false)
                } else {
                    Option::None
                };
                self.should_quit = true;
                proof {
                    assert(self@ =~= spec_quit(old(self)@).post);
                }
                saved
            },
            Action::Confirm => self.handle_confirm(now),
            Action::Input(c) => self.handle_input(c, now),
            Action::Backspace => {
                if self.state == AppState::EnteringTask {
                    if self.task_description.len() > 0 {
                        self.task_description.pop();
                        proof {
                            assert(self@ =~= step(old(self)@, action, now).post);
                        }
                    }
                }
                Option::None
            },
            Action::Cancel => {
                if self.state == AppState::EnteringTask {
                    self.task_description.clear();
                    self.state = AppState::Idle;
                    proof {
                        assert(self@ =~= step(old(self)@, action, now).post);
                    }
                }
                Option::None
            },
            Action::Tick => {
                if self.state == AppState::Running {
                    self.update_timer(now)
                } else {
                    Option::None
                }
            },
            _ => Option::None,
        };
        proof {
            crate::laws::lemma_step_preserves_wf(old(self)@, action, now);
        }
        saved
    }
}

} // verus!
