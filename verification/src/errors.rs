use vstd::prelude::*;

verus! {

/// Every failure an authentication operation can report.
///
/// `InvalidCredentials` deliberately covers both an unknown username and a
/// wrong password, so that a caller cannot tell the two apart (enumeration
/// resistance). Session failures are reported distinctly, since a caller may
/// want to send the user back to login only when a session has lapsed.
#[derive(Clone, Copy, Debug, PartialEq, Eq, Structural)]
pub enum AuthError {
    /// Signup: the requested username is already registered.
    UsernameTaken,
    /// Signup: the password does not meet the minimum-strength policy.
    WeakPassword,
    /// Login: unknown username or wrong password, indistinguishably.
    InvalidCredentials,
    /// Login: the caller-supplied session token is already in use; the
    /// caller must draw a fresh token and retry.
    SessionIdTaken,
    /// The session identifier was never issued by this service.
    SessionNotFound,
    /// The session exists but its expiry time has passed.
    SessionExpired,
    /// The session has been refreshed as many times as the policy allows.
    RefreshLimitReached,
}

/// Failure reported by the credential store itself.
#[derive(Clone, Copy, Debug, PartialEq, Eq, Structural)]
pub enum StoreError {
    /// A record with the same username is already present.
    DuplicateUsername,
}

} // verus!
