//! States of the server application.

use vstd::prelude::*;

verus! {

/// Application states.
#[derive(Debug, Copy, Clone, PartialEq, Eq, Structural)]
pub enum AppState {
    /// No game currently running.
    Idle,
    /// Waiting for the game to start.
    GameLoading,
    /// GameManager running.
    GameRunning,
}

} // verus!
