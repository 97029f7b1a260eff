//! Options of the desktop audio-server capture backend. The capture backend
//! itself is an external collaborator; only its configuration is carried
//! here.

use vstd::prelude::*;

verus! {

/// Which capture source to prefer; the default source is used when unset or
/// unavailable.
pub struct PulseAudioConfig {
    pub preferred_source_name: Option<String>,
}

impl Clone for PulseAudioConfig {
    fn clone(&self) -> (r: Self)
        ensures
            match self.preferred_source_name {
                Some(n) => r.preferred_source_name matches Some(m) && m == n,
                None => r.preferred_source_name is None,
            },
    {
        PulseAudioConfig {
            preferred_source_name: match &self.preferred_source_name {
                Some(n) => Some(n.clone()),
                None => None,
            },
        }
    }
}

impl Default for PulseAudioConfig {
    /// No preference: capture from the default source.
    fn default() -> (r: Self)
        ensures
            r.preferred_source_name is None,
    {
        PulseAudioConfig { preferred_source_name: None }
    }
}

} // verus!
