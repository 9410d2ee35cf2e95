//! Task-join outcomes, reduced to plain values: a joined task either was
//! cancelled, panicked with a message, or failed some other way.

use vstd::prelude::*;

verus! {

/// Why joining a spawned task failed.
#[derive(Debug)]
pub enum JoinError {
    Cancelled,
    Panic(String),
    Other(String),
}

impl JoinError {
    /// Whether the task was cancelled.
    pub fn is_cancelled(&self) -> (r: bool)
        ensures
            r == (self is Cancelled),
    {
        matches!(self, JoinError::Cancelled)
    }

    /// Whether the task panicked.
    pub fn is_panic(&self) -> (r: bool)
        ensures
            r == (self is Panic),
    {
        matches!(self, JoinError::Panic(_))
    }
}

} // verus!
