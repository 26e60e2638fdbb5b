//! A single-user productivity timer core: a session state machine with
//! pause/resume time accounting, and read-only aggregation of persisted
//! session records into filtered lists and time-bucketed statistics.
//!
//! The machine is specified once, as the transition relation
//! [`step`] over the mathematical state [`Model`]; the executable
//! [`App::handle_action`] is proved to follow it exactly, and the
//! general laws of the machine are proved in [`laws`] over that
//! relation. The aggregation functions carry exact contracts over the
//! records and their local day numbers; only the calendar conversion
//! from UTC timestamps to local days, the random record identifiers,
//! and single-character string appends are taken on trust from outside
//! libraries.

mod action;
mod clock;
pub mod laws;
mod ledger;
mod render;
mod session;
mod text;

pub use action::Action;
pub use clock::App;
pub use clock::AppState;
pub use clock::Model;
pub use clock::Now;
pub use clock::View;
pub use clock::TimerMode;
pub use clock::Transition;
pub use clock::filter_label_spec;
pub use clock::filter_next;
pub use clock::initial_model;
pub use clock::moved;
pub use clock::now_ok;
pub use clock::saved_matches;
pub use clock::spec_cycle_filter;
pub use clock::spec_filtered_len;
pub use clock::spec_input;
pub use clock::spec_new_entry;
pub use clock::spec_next_view;
pub use clock::spec_prev_view;
pub use clock::spec_quit;
pub use clock::spec_reset;
pub use clock::spec_save;
pub use clock::spec_scroll_down;
pub use clock::spec_scroll_up;
pub use clock::spec_start_break;
pub use clock::spec_start_work;
pub use clock::spec_tick;
pub use clock::step;
pub use clock::view_index;
pub use clock::view_next;
pub use clock::view_prev;
pub use clock::wf;
pub use ledger::SessionFilter;
pub use ledger::SessionStats;
pub use ledger::completed_count;
pub use ledger::daily_focus_data;
pub use ledger::day_label;
pub use ledger::day_label_spec;
pub use ledger::day_total;
pub use ledger::filter_sessions;
pub use ledger::filtered_models;
pub use ledger::focus_time_for_date;
pub use ledger::in_window;
pub use ledger::local_days;
pub use ledger::models_of;
pub use ledger::ref_models_of;
pub use ledger::total_secs;
pub use ledger::weekday_index;
pub use ledger::weekly_bar_data;
pub use render::big_row;
pub use render::big_time_spec;
pub use render::create_big_time;
pub use render::dec_chars;
pub use render::dec_chars_pad2;
pub use render::digit_char;
pub use render::duration_clock_spec;
pub use render::duration_long_spec;
pub use render::duration_short_spec;
pub use render::format_duration;
pub use render::format_duration_long;
pub use render::format_duration_short;
pub use render::glyph_row;
pub use render::time_chars_spec;
pub use session::Session;
pub use session::SessionModel;
pub use text::is_blank;
pub use text::is_blank_spec;
pub use text::is_space;
pub use text::string_of_chars;
