//! The discrete intents that drive the session state machine.

use vstd::prelude::*;

verus! {

/// An input intent delivered to the state machine: a user keystroke
/// already translated to its meaning, or the synthetic `Tick` that the
/// control loop sends while a timer runs.
#[derive(Debug, Clone, PartialEq, Eq, Structural)]
pub enum Action {
    /// Start a new work session
    Start,
    /// Pause the current timer
    Pause,
    /// Resume a paused timer
    Resume,
    /// Stop/cancel the current session
    Stop,
    /// Quit the application
    Quit,
    /// Timer tick (internal action)
    Tick,
    /// Character input for task description
    Input(char),
    /// Delete last character
    Backspace,
    /// Confirm input
    Confirm,
    /// Cancel input
    Cancel,
    /// Switch to next tab
    NextTab,
    /// Switch to previous tab
    PrevTab,
    /// Cycle through session filters
    CycleFilter,
    /// Scroll up in list views
    ScrollUp,
    /// Scroll down in list views
    ScrollDown,
    /// No action
    NoOp,
}

} // verus!
