//! Core engine of a terminal dashboard that polls a CI provider for
//! workflow runs and jobs across a set of repositories.
//!
//! The library holds the verified logic: the domain model with its
//! provider-string normalization, the loading state machine, the merge
//! and sort of fan-out fetch results, the view-state of the two panels
//! (run list and job detail) with selection and visibility rules, and
//! the pure formatting of rows for rendering. Network calls, terminal
//! drawing and the async runtime live outside the library and hand it
//! plain values.

pub mod error;
pub mod events;
pub mod models;
pub mod panels;
pub mod render;
pub mod service;
pub mod state;
pub mod timefmt;
