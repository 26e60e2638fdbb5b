//! Read-only aggregation over persisted session records: time-window
//! filtering, per-day focus totals, and summary statistics.
//!
//! Calendar days are plain day numbers: the count of days since December 31
//! of the year before the common era, so that day 1 is January 1 of year 1
//! (a Monday in the proleptic Gregorian calendar). Turning a UTC timestamp
//! into the host's local day number is the one step only a calendar library
//! can do; it happens in [`local_day_of`], and every aggregation function
//! here takes the resulting day numbers as arguments, so its contract is
//! exact whatever the host's time zone.

use vstd::prelude::*;

use crate::session::Session;
use crate::session::SessionModel;

verus! {

/// A time-range filter applied to historical records.
#[derive(Debug, Clone, Copy, PartialEq, Eq, Structural)]
pub enum SessionFilter {
    /// Only records whose local date is the reference date
    Today,
    /// Records from the seven days before the reference date onward
    Week,
    /// Every record
    All,
}

/// Whether a record with local day number `day` falls inside `filter`,
/// taken relative to the reference day `today`. The week window keeps
/// every day from `today - 7` on: an eight-day window ending today.
pub open spec fn in_window(day: int, filter: SessionFilter, today: int) -> bool {
    match filter {
        SessionFilter::Today => day == today,
        SessionFilter::Week => day >= today - 7,
        SessionFilter::All => true,
    }
}

/// The models of a sequence of sessions.
pub open spec fn models_of(sessions: Seq<Session>) -> Seq<SessionModel> {
    sessions.map_values(|s: Session| s@)
}

/// The models of a sequence of borrowed sessions.
pub open spec fn ref_models_of(sessions: Seq<&Session>) -> Seq<SessionModel> {
    sessions.map_values(|s: &Session| s@)
}

/// The subsequence of `sessions` whose paired day number falls inside the
/// window, in the original order. `days` pairs with `sessions` by index.
pub open spec fn filtered_models(
    sessions: Seq<SessionModel>,
    days: Seq<i32>,
    filter: SessionFilter,
    today: int,
) -> Seq<SessionModel>
    decreases sessions.len(),
{
    if sessions.len() == 0 {
        Seq::empty()
    } else {
        let rest = filtered_models(sessions.drop_last(), days.drop_last(), filter, today);
        if in_window(days.last() as int, filter, today) {
            rest.push(sessions.last())
        } else {
            rest
        }
    }
}

/// Select the records whose local day number lies in the window, keeping
/// their order. `days[i]` must be the local day number of `sessions[i]`.
pub fn filter_sessions<'a>(
    sessions: &'a Vec<Session>,
    days: &Vec<i32>,
    filter: SessionFilter,
    today: i32,
) -> (r: Vec<&'a Session>)
    requires
        days@.len() == sessions@.len(),
    ensures
        ref_models_of(r@) == filtered_models(models_of(sessions@), days@, filter, today as int),
{
    let ghost all = models_of(sessions@);
    let mut r: Vec<&Session> = Vec::new();
    let mut i: usize = 0;
    while i < sessions.len()
        invariant
            days@.len() == sessions@.len(),
            i <= sessions@.len(),
            all == models_of(sessions@),
            ref_models_of(r@) == filtered_models(all.take(i as int), days@.take(i as int), filter, today as int),
        decreases sessions@.len() - i,
    {
        let day = days[i];
        let keep = match filter {
            SessionFilter::Today => day == today,
            SessionFilter::Week => day as i64 >= today as i64 - 7,
            SessionFilter::All => true,
        };
        proof {
            assert(all.take(i + 1).drop_last() =~= all.take(i as int));
            assert(days@.take(i + 1).drop_last() =~= days@.take(i as int));
            assert(all.take(i + 1).last() == sessions@[i as int]@);
            assert(days@.take(i + 1).last() == days@[i as int]);
        }
        if keep {
            r.push(&sessions[i]);
            proof {
                assert(ref_models_of(r@) =~= filtered_models(
                    all.take(i + 1), days@.take(i + 1), filter, today as int));
            }
        } else {
            proof {
                assert(ref_models_of(r@) =~= filtered_models(
                    all.take(i + 1), days@.take(i + 1), filter, today as int));
            }
        }
        i = i + 1;
    }
    proof {
        assert(all.take(sessions@.len() as int) =~= all);
        assert(days@.take(sessions@.len() as int) =~= days@);
    }
    r
}

/// Total seconds worked over a sequence of records.
pub open spec fn total_secs(s: Seq<SessionModel>) -> int
    decreases s.len(),
{
    if s.len() == 0 {
        0
    } else {
        total_secs(s.drop_last()) + s.last().duration_secs
    }
}

/// How many of the records are marked completed.
pub open spec fn completed_count(s: Seq<SessionModel>) -> int
    decreases s.len(),
{
    if s.len() == 0 {
        0
    } else {
        completed_count(s.drop_last()) + if s.last().completed { 1int } else { 0int }
    }
}

/// Seconds worked on the given local day: the sum of `duration_secs` over
/// the records whose paired day number equals `day`.
pub open spec fn day_total(sessions: Seq<SessionModel>, days: Seq<i32>, day: int) -> int
    decreases sessions.len(),
{
    if sessions.len() == 0 {
        0
    } else {
        day_total(sessions.drop_last(), days.drop_last(), day) + if days.last() == day {
            sessions.last().duration_secs
        } else {
            0int
        }
    }
}

/// A prefix never sums to more than the whole, once no record has a
/// negative duration.
proof fn lemma_total_secs_take_le(s: Seq<SessionModel>, i: int)
    requires
        0 <= i <= s.len(),
        forall|j: int| 0 <= j < s.len() ==> (#[trigger] s[j]).duration_secs >= 0,
    ensures
        total_secs(s.take(i)) <= total_secs(s),
    decreases s.len() - i,
{
    if i == s.len() {
        assert(s.take(i) =~= s);
    } else {
        lemma_total_secs_take_le(s, i + 1);
        assert(s.take(i + 1).drop_last() =~= s.take(i));
        assert(s.take(i + 1).last() == s[i]);
    }
}

/// Calculate and display statistics
#[derive(Debug, Clone, Copy, PartialEq, Eq, Structural)]
pub struct SessionStats {
    /// How many records there are
    pub total_sessions: usize,
    /// How many ran their full duration
    pub completed_sessions: usize,
    /// How many were interrupted: always `total_sessions - completed_sessions`
    pub interrupted_sessions: usize,
    /// Total seconds worked over all records
    pub total_focus_time_secs: u32,
    /// Mean seconds per record, rounded down; zero when there are none
    pub average_duration_secs: u32,
}

impl SessionStats {
    /// Summarise a list of records: counts, total focus time, and the mean
    /// duration rounded down (zero for an empty list).
    pub fn from_sessions(sessions: &[Session]) -> (r: SessionStats)
        requires
            total_secs(models_of(sessions@)) <= u32::MAX,
        ensures
            r.total_sessions == sessions@.len(),
            r.completed_sessions == completed_count(models_of(sessions@)),
            r.interrupted_sessions == sessions@.len() - completed_count(models_of(sessions@)),
            r.total_focus_time_secs == total_secs(models_of(sessions@)),
            r.average_duration_secs == if sessions@.len() > 0 {
                total_secs(models_of(sessions@)) / sessions@.len() as int
            } else {
                0int
            },
    {
        let ghost all = models_of(sessions@);
        let total_sessions = sessions.len();
        let mut completed: usize = 0;
        let mut total: u32 = 0;
        let mut i: usize = 0;
        while i < total_sessions
            invariant
                total_sessions == sessions@.len(),
                i <= total_sessions,
                all == models_of(sessions@),
                total_secs(all) <= u32::MAX,
                forall|j: int| 0 <= j < all.len() ==> (#[trigger] all[j]).duration_secs >= 0,
                completed == completed_count(all.take(i as int)),
                completed <= i,
                total == total_secs(all.take(i as int)),
            decreases total_sessions - i,
        {
            proof {
                assert(all.take(i + 1).drop_last() =~= all.take(i as int));
                assert(all.take(i + 1).last() == sessions@[i as int]@);
                lemma_total_secs_take_le(all, i + 1);
            }
            if sessions[i].completed {
                completed = completed + 1;
            }
            total = total + sessions[i].duration_secs;
            i = i + 1;
        }
        proof {
            assert(all.take(total_sessions as int) =~= all);
        }
        let average: u32 = if total_sessions > 0 {
            (total as u64 / total_sessions as u64) as u32
        } else {
            0
        };
        SessionStats {
            total_sessions,
            completed_sessions: completed,
            interrupted_sessions: total_sessions - completed,
            total_focus_time_secs: total,
            average_duration_secs: average,
        }
    }
}

/// Relies on `chrono::DateTime::from_timestamp` to read a UTC timestamp
/// (`None` exactly when chrono cannot represent it), then on
/// `DateTime::with_timezone` with `chrono::Local`, `DateTime::date_naive`
/// and `chrono::Datelike::num_days_from_ce` for the day number of that
/// moment in the host's local calendar. The result depends on the host's
/// time zone, so nothing is assumed of the value.
#[verifier::external_body]
fn local_day_of(utc_secs: i64) -> Option<i32> {
    match chrono::DateTime::from_timestamp(utc_secs, 0) {
        Option::Some(t) => Option::Some(chrono::Datelike::num_days_from_ce(
            &t.with_timezone(&chrono::Local).date_naive(),
        )),
        Option::None => Option::None,
    }
}

/// The local day number of each record's start time, in record order.
/// A timestamp the calendar cannot represent maps to `i32::MIN`. The
/// values depend on the host's time zone; only the pairing by index is
/// promised.
pub fn local_days(sessions: &Vec<Session>) -> (r: Vec<i32>)
    ensures
        r@.len() == sessions@.len(),
{
    let mut r: Vec<i32> = Vec::new();
    let mut i: usize = 0;
    while i < sessions.len()
        invariant
            i <= sessions@.len(),
            r@.len() == i,
        decreases sessions@.len() - i,
    {
        let day = match local_day_of(sessions[i].started_at) {
            Option::Some(d) => d,
            Option::None => i32::MIN,
        };
        r.push(day);
        i = i + 1;
    }
    r
}

/// Seconds worked on one local day, over records paired with their day
/// numbers by index.
pub fn focus_time_for_date(sessions: &Vec<Session>, days: &Vec<i32>, day: i64) -> (r: u64)
    requires
        days@.len() == sessions@.len(),
        sessions@.len() <= u32::MAX,
    ensures
        r == day_total(models_of(sessions@), days@, day as int),
{
    let ghost all = models_of(sessions@);
    let mut r: u64 = 0;
    let mut i: usize = 0;
    while i < sessions.len()
        invariant
            days@.len() == sessions@.len(),
            sessions@.len() <= u32::MAX,
            i <= sessions@.len(),
            all == models_of(sessions@),
            r == day_total(all.take(i as int), days@.take(i as int), day as int),
            r <= i as int * 0xffff_ffff,
        decreases sessions@.len() - i,
    {
        proof {
            assert(all.take(i + 1).drop_last() =~= all.take(i as int));
            assert(days@.take(i + 1).drop_last() =~= days@.take(i as int));
            assert(all.take(i + 1).last() == sessions@[i as int]@);
            assert(days@.take(i + 1).last() == days@[i as int]);
        }
        if days[i] as i64 == day {
            r = r + sessions[i].duration_secs as u64;
        }
        i = i + 1;
    }
    proof {
        assert(all.take(sessions@.len() as int) =~= all);
        assert(days@.take(sessions@.len() as int) =~= days@);
    }
    r
}

/// Focus seconds for each of the seven days ending at `today`, oldest
/// first: entry `i` covers local day `today - 6 + i`, and days with no
/// records contribute zero.
pub fn daily_focus_data(sessions: &Vec<Session>, days: &Vec<i32>, today: i32) -> (r: Vec<u64>)
    requires
        days@.len() == sessions@.len(),
        sessions@.len() <= u32::MAX,
    ensures
        r@.len() == 7,
        forall|i: int| 0 <= i < 7 ==> r@[i] == day_total(models_of(sessions@), days@, today - 6 + i),
{
    let mut r: Vec<u64> = Vec::new();
    let mut i: usize = 0;
    while i < 7
        invariant
            days@.len() == sessions@.len(),
            sessions@.len() <= u32::MAX,
            i <= 7,
            r@.len() == i,
            forall|j: int| 0 <= j < i ==> r@[j] == day_total(models_of(sessions@), days@, today - 6 + j),
        decreases 7 - i,
    {
        let target: i64 = today as i64 - 6 + i as i64;
        let v = focus_time_for_date(sessions, days, target);
        r.push(v);
        i = i + 1;
    }
    r
}

/// Which day of the week a local day number falls on: 0 for Monday through
/// 6 for Sunday. Day 1 is January 1 of year 1, a Monday in the proleptic
/// Gregorian calendar that the day numbers count through.
pub open spec fn weekday_index(day: int) -> int {
    (day - 1) % 7
}

/// The three-letter label of the weekday of a local day number.
pub open spec fn day_label_spec(day: int) -> Seq<char> {
    let w = weekday_index(day);
    if w == 0 {
        "Mon"@
    } else if w == 1 {
        "Tue"@
    } else if w == 2 {
        "Wed"@
    } else if w == 3 {
        "Thu"@
    } else if w == 4 {
        "Fri"@
    } else if w == 5 {
        "Sat"@
    } else {
        "Sun"@
    }
}

/// The label of the weekday that `day` falls on.
pub fn day_label(day: i64) -> (r: &'static str)
    requires
        -4_000_000_000 <= day <= 4_000_000_000,
    ensures
        r@ == day_label_spec(day as int),
{
    // A multiple of seven large enough to make the shifted value positive,
    // so the remainder below is the Euclidean one.
    let shifted: u64 = (day + 7_000_000_000) as u64;
    let w: u64 = (shifted - 1) % 7;
    proof {
        vstd::arithmetic::div_mod::lemma_mod_multiples_vanish(
            1_000_000_000, day - 1, 7);
        assert(7 * 1_000_000_000 + (day - 1) == shifted - 1);
    }
    match w {
        0 => "Mon",
        1 => "Tue",
        2 => "Wed",
        3 => "Thu",
        4 => "Fri",
        5 => "Sat",
        _ => "Sun",
    }
}

/// Focus seconds for the seven days ending at `today`, oldest first, each
/// paired with the label of its weekday, ready for a bar chart.
pub fn weekly_bar_data(sessions: &Vec<Session>, days: &Vec<i32>, today: i32) -> (r: Vec<
    (&'static str, u64),
>)
    requires
        days@.len() == sessions@.len(),
        sessions@.len() <= u32::MAX,
    ensures
        r@.len() == 7,
        forall|i: int| 0 <= i < 7 ==> (#[trigger] r@[i]).1 == day_total(
            models_of(sessions@), days@, today - 6 + i),
        forall|i: int| 0 <= i < 7 ==> (#[trigger] r@[i]).0@ == day_label_spec(today - 6 + i),
{
    let mut r: Vec<(&'static str, u64)> = Vec::new();
    let mut i: usize = 0;
    while i < 7
        invariant
            days@.len() == sessions@.len(),
            sessions@.len() <= u32::MAX,
            i <= 7,
            r@.len() == i,
            forall|j: int| 0 <= j < i ==> (#[trigger] r@[j]).1 == day_total(
                models_of(sessions@), days@, today - 6 + j),
            forall|j: int| 0 <= j < i ==> (#[trigger] r@[j]).0@ == day_label_spec(today - 6 + j),
        decreases 7 - i,
    {
        let target: i64 = today as i64 - 6 + i as i64;
        let label = day_label(target);
        let v = focus_time_for_date(sessions, days, target);
        r.push((label, v));
        i = i + 1;
    }
    r
}

} // verus!
