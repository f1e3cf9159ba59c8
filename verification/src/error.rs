//! Error types of the dashboard core.
//!
//! Each error carries a plain message. Per-repository fetch failures
//! (`FetchError`) are recovered locally when merging fan-out results;
//! a `ServiceError` is what a whole `listRuns`/`listJobs` call surfaces
//! to a panel, which turns it into an error loading state.

use vstd::prelude::*;

verus! {

/// Error raised when no usable authentication token can be resolved.
#[derive(Debug, Clone)]
pub struct AuthError {
    pub message: String,
}

impl AuthError {
    pub fn new(message: String) -> (e: Self)
        ensures
            e.message@ == message@,
    {
        AuthError { message }
    }
}

/// Error raised while loading or deserializing the configuration.
#[derive(Debug, Clone)]
pub struct ConfigError {
    pub message: String,
}

impl ConfigError {
    pub fn new(message: String) -> (e: Self)
        ensures
            e.message@ == message@,
    {
        ConfigError { message }
    }
}

/// Top-level application error.
#[derive(Debug, Clone)]
pub struct AppError {
    pub message: String,
}

impl AppError {
    pub fn new(message: String) -> (e: Self)
        ensures
            e.message@ == message@,
    {
        AppError { message }
    }
}

/// Failure of one whole service call (`listRuns` or `listJobs`); the
/// owning panel converts it into an error loading state.
#[derive(Debug, Clone)]
pub struct ServiceError {
    pub message: String,
}

impl ServiceError {
    pub fn new(message: String) -> (e: Self)
        ensures
            e.message@ == message@,
    {
        ServiceError { message }
    }
}

/// Failure of a single per-repository provider call; recovered locally
/// during the fan-out merge and never surfaced to the caller.
#[derive(Debug, Clone)]
pub struct FetchError {
    pub message: String,
}

impl FetchError {
    pub fn new(message: String) -> (e: Self)
        ensures
            e.message@ == message@,
    {
        FetchError { message }
    }
}

/// The application-level error used when the app as a whole fails to run.
pub fn make_error() -> (e: AppError)
    ensures
        e.message@ == "failed to run app"@,
{
    AppError { message: "failed to run app".to_owned() }
}

} // verus!
