use vstd::prelude::*;

verus! {

/// A decoded input command, one per keyboard event.
///
/// Decoding a raw key event into a `Command` happens at the input boundary;
/// only key-press events are decoded, so navigation commands do not repeat on
/// key auto-repeat or release.
#[derive(Clone, Copy, PartialEq, Eq, Structural, Debug)]
pub enum Command {
    /// Request to leave the application ('q').
    Quit,
    /// Begin the simulation from the initial waiting state (Enter).
    Start,
    /// Toggle between Running and Paused ('p').
    PauseToggle,
    /// Raise the tunable event probability by one (Up).
    IncreaseProbability,
    /// Lower the tunable event probability by one (Down).
    DecreaseProbability,
    /// Move the table selection one row up ('w').
    CursorUp,
    /// Move the table selection one row down ('s').
    CursorDown,
    /// Show or hide the log overlay ('l').
    ToggleOverlay,
}

/// What the surrounding loop must perform after a command was dispatched,
/// when anything is to perform at all.
///
/// The session itself never talks to the simulation engine; it reports the
/// engine call that the transition demands and the caller performs it.
#[derive(Clone, Copy, PartialEq, Eq, Structural, Debug)]
pub enum Action {
    /// Begin background simulation activity; a failure is fatal to the run.
    StartSimulation,
    /// Inform the engine of the new event probability.
    SyncProbability(u32),
}

} // verus!
