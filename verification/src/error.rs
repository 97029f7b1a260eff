//! The daemon-level error type.

use vstd::prelude::*;

verus! {

/// Errors of the daemon itself, as opposed to errors of one adapter's stream.
/// The payload carries the description of the underlying I/O failure.
#[derive(Debug)]
pub enum DictypeError {
    Io(String),
}

impl DictypeError {
    /// The human-readable description, for surfacing over the RPC layer.
    pub fn message(&self) -> (r: &String)
        ensures
            self matches DictypeError::Io(m) && r == m,
    {
        match self {
            DictypeError::Io(m) => m,
        }
    }
}

impl Clone for DictypeError {
    fn clone(&self) -> (r: Self)
        ensures
            r == *self,
    {
        match self {
            DictypeError::Io(m) => DictypeError::Io(m.clone()),
        }
    }
}

} // verus!
