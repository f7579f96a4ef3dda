//! Orchestration core for a restic-based backup manager: command
//! construction, subprocess outcome classification, snapshot recency
//! reporting, result aggregation and the notification state machine.
use vstd::prelude::*;

pub mod aggregate;
pub mod command;
pub mod config;
pub mod notify;
pub mod numfmt;
pub mod outcome;
pub mod snapshots;
pub mod strutil;
pub mod tasks;

verus! {

/// Closed taxonomy of run errors.
#[derive(Clone, Copy, Debug, PartialEq, Eq, Structural)]
pub enum ErrorKind {
    Configuration,
    Execution,
    Parse,
    Notification,
}

/// An error with a kind and a human-readable message.
#[derive(Debug)]
pub struct MyError {
    pub kind: ErrorKind,
    pub details: String,
}

impl MyError {
    /// Build an error from a kind and a message.
    pub fn new(kind: ErrorKind, details: String) -> (r: MyError)
        ensures
            r.kind == kind,
            r.details@ == details@,
    {
        MyError { kind, details }
    }
}

} // verus!
