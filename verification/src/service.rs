//! The session orchestrator's decisions: whether a start request is
//! admitted, which profile it resolves to, and how a stop request or a
//! finished relay task frees the slot.
//!
//! The daemon shell wraps a `SessionCoordinator` in its mutual-exclusion
//! region, creates the cancellation token, and runs the relay task; every
//! decision about the single-session invariant is taken here.

use vstd::prelude::*;

use tokio_util::sync::CancellationToken;

use crate::client_store::ClientStore;
use crate::config_store::lookup_pairs;
use crate::session::session_installed;
use crate::session::ServiceState;

verus! {

/// Why a start request was refused. The daemon shell maps these onto its
/// RPC status codes: `AlreadyActive` to "already exists", `ProfileNotFound`
/// to "invalid argument", `Internal` to an internal error.
#[derive(Debug)]
pub enum StartError {
    /// A session is in flight (its token is installed, cancelled or not).
    AlreadyActive,
    /// No profile of this name is registered; carries the name asked for.
    ProfileNotFound(String),
    /// State corruption observed outside the library (a poisoned lock, a
    /// failed capture start); fatal for this call only.
    Internal(String),
}

/// The orchestrator's decision state: the single-session slot and the
/// profile registry.
pub struct SessionCoordinator {
    pub state: ServiceState,
    pub client_store: ClientStore,
}

/// When a start request is admitted: no session token is installed —
/// cancelled or not — and the profile name resolves in the registry.
pub open spec fn start_admitted(c: &SessionCoordinator, profile_name: Seq<char>) -> bool {
    !session_installed(&c.state) && lookup_pairs(c.client_store.clients@, profile_name) is Some
}

impl SessionCoordinator {
    /// A coordinator with no session in flight.
    pub fn new(client_store: ClientStore) -> (r: Self)
        ensures
            !session_installed(&r.state),
            r.client_store == client_store,
    {
        SessionCoordinator { state: ServiceState::new(), client_store }
    }

    /// Admits or refuses a start request, and installs `token` as the new
    /// session's cancellation token when admitted.
    ///
    /// At most one session is ever in flight: a start is admitted exactly
    /// when no token is installed — a cancelled-but-not-unwound session
    /// still refuses the request — and the profile name resolves. A refused
    /// start leaves the coordinator untouched, so the active session's token
    /// is never disturbed, and an unknown profile installs nothing.
    pub fn begin_session(&mut self, profile_name: &str, token: CancellationToken) -> (r: Result<
        (),
        StartError,
    >)
        ensures
            r is Ok <==> start_admitted(old(self), profile_name@),
            session_installed(&old(self).state) ==> (r matches Err(StartError::AlreadyActive)
                && *final(self) == *old(self)),
            !session_installed(&old(self).state) && lookup_pairs(
                old(self).client_store.clients@,
                profile_name@,
            ) is None ==> (r matches Err(StartError::ProfileNotFound(n)) && n@ == profile_name@)
                && *final(self) == *old(self),
            r is Ok ==> final(self).state.token == Some(token) && final(self).client_store == old(
                self,
            ).client_store,
    {
        if self.state.is_some() {
            return Err(StartError::AlreadyActive);
        }
        let known = match self.client_store.get_client_for_profile(profile_name) {
            Some(_) => true,
            None => false,
        };
        if !known {
            return Err(StartError::ProfileNotFound(profile_name.to_owned()));
        }
        match self.state.replace(token) {
            Ok(()) => Ok(()),
            Err(()) => Err(StartError::Internal(String::new())),
        }
    }

    /// Cancels and frees the session in flight, if any; reports whether a
    /// session was actually stopped. With no session in flight this is
    /// side-effect-free and reports `false`. The relay task calls this on
    /// every exit path too, so the slot is always available again after a
    /// session ends, however it ended.
    pub fn stop(&mut self) -> (stopped: bool)
        ensures
            stopped == session_installed(&old(self).state),
            !session_installed(&final(self).state),
            final(self).client_store == old(self).client_store,
            !session_installed(&old(self).state) ==> *final(self) == *old(self),
    {
        self.state.reset()
    }
}

/// Cancelling a session always makes the slot available again: after any
/// stop — an explicit request, a caller disconnect, or the relay task's own
/// exit, all of which run `stop` — a start for any profile that resolves is
/// admitted. Whether the relay task *reaches* its exit is the runtime's
/// liveness, outside what the library states; every path it can take ends
/// in `stop`.
pub proof fn lemma_slot_available_after_stop(c: SessionCoordinator, profile_name: Seq<char>)
    requires
        !session_installed(&c.state),
        lookup_pairs(c.client_store.clients@, profile_name) is Some,
    ensures
        start_admitted(&c, profile_name),
{
}

} // verus!
