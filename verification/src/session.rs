//! The single-session slot: a guarded optional cancellation token.
//!
//! At most one token is ever installed, which is the structural heart of the
//! single-flight guarantee: a session is "active" exactly while its token is
//! installed, and a competing start is rejected while anything is installed,
//! cancelled or not.

use vstd::prelude::*;

use tokio_util::sync::CancellationToken;

verus! {

/// Declares tokio_util's CancellationToken for use in fields and
/// signatures. The token is opaque: its shared cancellation state is only
/// reached through the wrappers below.
#[verifier::external_type_specification]
#[verifier::external_body]
pub struct ExCancellationToken(CancellationToken);

/// Relies on tokio_util's CancellationToken::cancel: requests cooperative
/// cancellation, observed asynchronously by every clone of the token.
/// Cancelling is idempotent, so nothing needs to be promised of it.
#[verifier::external_body]
pub(crate) fn cancel_token(token: &CancellationToken) {
    token.cancel()
}

/// Relies on tokio_util's CancellationToken::is_cancelled. Any clone of the
/// token can be cancelled concurrently at any moment, so nothing can be
/// promised of the result.
#[verifier::external_body]
pub(crate) fn token_is_cancelled(token: &CancellationToken) -> bool {
    token.is_cancelled()
}

/// The slot holding the cancellation token of the session in flight, if any.
pub struct ServiceState {
    pub token: Option<CancellationToken>,
}

/// Whether a session token is installed in the slot.
pub open spec fn session_installed(s: &ServiceState) -> bool {
    s.token is Some
}

impl ServiceState {
    pub fn new() -> (r: Self)
        ensures
            !session_installed(&r),
    {
        ServiceState { token: None }
    }

    /// Whether a session is in flight. A cancelled-but-not-yet-unwound
    /// session still counts, so that a competing start stays rejected until
    /// the relay task has actually exited.
    pub fn is_some(&self) -> (r: bool)
        ensures
            r == session_installed(self),
    {
        self.token.is_some()
    }

    /// Cancels and removes the installed token, if any; reports whether a
    /// session was actually stopped. With no session installed this is
    /// side-effect-free.
    pub fn reset(&mut self) -> (stopped: bool)
        ensures
            !session_installed(final(self)),
            stopped == session_installed(old(self)),
            !session_installed(old(self)) ==> *final(self) == *old(self),
    {
        let taken = self.token.take();
        match taken {
            Some(existing) => {
                cancel_token(&existing);
                true
            },
            None => false,
        }
    }

    /// Installs a fresh token, but only if no live session occupies the slot:
    /// the slot must be empty, or hold a token that is already cancelled
    /// (defence against a crashed relay task leaving stale state). On
    /// refusal the installed token is left untouched.
    pub fn replace(&mut self, token: CancellationToken) -> (r: Result<(), ()>)
        ensures
            !session_installed(old(self)) ==> r is Ok,
            r is Ok ==> final(self).token == Some(token),
            r is Err ==> session_installed(old(self)) && *final(self) == *old(self),
    {
        let live = match &self.token {
            None => false,
            Some(existing) => !token_is_cancelled(existing),
        };
        if live {
            Err(())
        } else {
            self.token = Some(token);
            Ok(())
        }
    }
}

} // verus!
