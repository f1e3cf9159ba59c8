//! Input events and the top-level event-loop state.
//!
//! The surrounding program reads raw terminal events and reduces each
//! key press to a `Key`; the run-list panel answers with an `Action`
//! when something outside the view-state must happen. The top-level
//! loop itself is a two-state machine: it runs until the quit key
//! arrives, then stops rendering and dispatching for good.

use vstd::prelude::*;

verus! {

/// A key press forwarded to the dashboard.
#[derive(Clone, Copy, Debug, PartialEq, Eq, Structural)]
pub enum Key {
    Enter,
    Esc,
    Down,
    Up,
    Char(char),
    Other,
}

/// What the caller must perform after the run-list panel handled a
/// key: open a URL in the system browser, fetch immediately outside
/// the timer cadence, or start the polling task of a freshly shown
/// detail panel.
#[derive(Debug, Clone, PartialEq)]
pub enum Action {
    OpenUrl(String),
    Refresh,
    StartDetailsPoll,
}

/// Top-level event-loop state: running until the quit key arrives.
#[derive(Debug, Clone, PartialEq)]
pub struct App {
    pub should_quit: bool,
}

impl App {
    pub fn new() -> (a: Self)
        ensures
            !a.should_quit,
    {
        App { should_quit: false }
    }

    /// The quit key `q` ends the loop after the current iteration and
    /// is not forwarded; every other key is forwarded to the run-list
    /// panel's input channel.
    pub fn handle_key(&mut self, key: Key) -> (forward: bool)
        ensures
            key == Key::Char('q') ==> final(self).should_quit && !forward,
            key != Key::Char('q') ==> *final(self) == *old(self) && forward,
    {
        if let Key::Char(c) = key {
            if c == 'q' {
                self.should_quit = true;
                return false;
            }
        }
        true
    }
}

} // verus!
