//! The immutable record of one completed or interrupted work interval.

use vstd::prelude::*;

verus! {

/// The mathematical content of a [`Session`]: everything the aggregation
/// logic reads. The random identifier is deliberately absent, so that two
/// records with the same content are equal at the specification level.
pub struct SessionModel {
    /// Task text, as a sequence of characters
    pub task: Seq<char>,
    /// UTC start time, in whole seconds since the Unix epoch
    pub started_at: int,
    /// Seconds actually worked
    pub duration_secs: int,
    /// Whether the interval ran its full intended duration
    pub completed: bool,
}

/// Represents a completed or interrupted work session.
///
/// Created once when a work interval ends (by full completion, or by an
/// explicit stop or quit while the task text is non-blank), handed to the
/// persistence adapter, and never mutated thereafter. Break intervals are
/// never recorded.
#[derive(Debug, Clone)]
pub struct Session {
    /// Unique identifier for the session
    pub id: u128,
    /// Description of the task worked on
    pub task: String,
    /// When the session started: UTC, whole seconds since the Unix epoch
    pub started_at: i64,
    /// Duration in seconds that was actually worked
    pub duration_secs: u32,
    /// Whether the session ran its full intended duration
    pub completed: bool,
}

impl View for Session {
    type V = SessionModel;

    open spec fn view(&self) -> SessionModel {
        SessionModel {
            task: self.task@,
            started_at: self.started_at as int,
            duration_secs: self.duration_secs as int,
            completed: self.completed,
        }
    }
}

/// Relies on `uuid::Uuid::new_v4` for a freshly generated random identifier,
/// read out through `uuid::Uuid::as_u128`. The value is random, so nothing
/// is assumed of it.
#[verifier::external_body]
fn fresh_id() -> u128 {
    uuid::Uuid::new_v4().as_u128()
}

impl Session {
    /// Create a new session record with a fresh random identifier.
    pub fn new(task: String, started_at: i64, duration_secs: u32, completed: bool) -> (r: Session)
        ensures
            r@ == (SessionModel {
                task: task@,
                started_at: started_at as int,
                duration_secs: duration_secs as int,
                completed: completed,
            }),
    {
        Session { id: fresh_id(), task, started_at, duration_secs, completed }
    }
}

} // verus!
