//! The loading state machine shared by both panels.
//!
//! States: `Idle` (initial), `Loading`, `Loaded(completed_at)`,
//! `Error(message)`. Every fetch attempt moves to `Loading` before the
//! call, then to `Loaded` on success or `Error` on failure. The state
//! is purely observational (it drives a status line); it never gates
//! whether a fetch may start.

use vstd::prelude::*;

verus! {

/// What a fetch attempt reports to the loading state machine.
///
/// `Succeeded` carries the completion timestamp (Unix seconds) that the
/// resulting `Loaded` state records; `Failed` carries the message that
/// the resulting `Error` state displays.
#[derive(Debug, Clone, PartialEq)]
pub enum FetchEvent {
    StartedFetch,
    Succeeded(i64),
    Failed(String),
}

/// Observational state of a panel's most recent fetch.
///
/// `Loaded` records the completion time as Unix seconds; `Error`
/// records the failure message.
#[derive(Debug, Clone, PartialEq)]
pub enum LoadingState {
    Idle,
    Loading,
    Loaded(i64),
    Error(String),
}

impl LoadingState {
    /// `StartedFetch` always yields `Loading`, whatever the prior state:
    /// overlap prevention is not this layer's job.
    pub fn transition(&self, event: FetchEvent) -> (next: Self)
        ensures
            event is StartedFetch ==> next is Loading,
            (event matches FetchEvent::Succeeded(t) ==> next == LoadingState::Loaded(t)),
            (event matches FetchEvent::Failed(m) ==> next == LoadingState::Error(m)),
    {
        match event {
            FetchEvent::StartedFetch => LoadingState::Loading,
            FetchEvent::Succeeded(t) => LoadingState::Loaded(t),
            FetchEvent::Failed(m) => LoadingState::Error(m),
        }
    }
}

} // verus!
