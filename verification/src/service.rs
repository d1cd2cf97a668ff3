use vstd::prelude::*;
use vstd::string::StringSliceAdditionalSpecFns;
use vstd::string::StrSliceExecFns;

use crate::errors::AuthError;
use crate::hasher::argon2_of;
use crate::hasher::hash_matches;
use crate::hasher::password_ok;
use crate::hasher::PasswordHasher;
use crate::hasher::ALG_ARGON2ID;
use crate::hasher::MAX_PASSWORD_BYTES;
use crate::hasher::MIN_PASSWORD_BYTES;
use crate::session::issue_post;
use crate::session::refresh_post;
use crate::session::Session;
use crate::session::SessionManager;
use crate::session::DEFAULT_TTL_SECS;
use crate::store::find_user;
use crate::store::CredentialStore;
use crate::store::UserRecord;

verus! {

/// The authentication core: a credential store, a password hasher and a
/// session manager, orchestrated behind three operations.
///
/// The core itself performs no input or output: each operation takes the
/// current time from the caller, and `login` takes the fresh session token,
/// drawn from OS entropy at the boundary. Sessions are granted
/// [`DEFAULT_TTL_SECS`] seconds unless another lifetime is chosen at
/// construction.
pub struct AuthService {
    /// The registered users.
    pub store: CredentialStore,
    /// The sessions issued so far.
    pub sessions: SessionManager,
}

/// The fields a record created by `signup` holds, over a store that had
/// `user_count` records: the next identifier, the requested name, a hash of
/// the password under a salt fresh to this store, and the signup time.
pub open spec fn fresh_record(
    u: UserRecord,
    user_count: nat,
    name: Seq<u8>,
    pw: Seq<u8>,
    now: u64,
) -> bool {
    &&& u.user_id == user_count
    &&& u.username@ == name
    &&& u.password_hash.alg == ALG_ARGON2ID
    &&& u.password_hash.salt == user_count
    &&& u.password_hash.digest@ == argon2_of(u.password_hash.salt, pw)
    &&& u.created_at == now
}

/// Relation between a service before and after `signup` of `name` with
/// password `pw` at time `now`, returning `r`: a taken username, then a weak
/// password, fail without any change; otherwise one record with the new
/// credentials is appended and a copy of it returned. Signup never touches
/// the sessions: it registers, it does not log in.
pub open spec fn signup_post(
    pre: AuthService,
    post: AuthService,
    name: Seq<u8>,
    pw: Seq<u8>,
    now: u64,
    r: Result<UserRecord, AuthError>,
) -> bool {
    &&& post.sessions == pre.sessions
    &&& if find_user(pre.store.users@, name) is Some {
        &&& r == Err::<UserRecord, AuthError>(AuthError::UsernameTaken)
        &&& post.store == pre.store
    } else if !password_ok(pw) {
        &&& r == Err::<UserRecord, AuthError>(AuthError::WeakPassword)
        &&& post.store == pre.store
    } else {
        &&& r is Ok
        &&& fresh_record(r.unwrap(), pre.store.users@.len(), name, pw, now)
        &&& post.store.users@.len() == pre.store.users@.len() + 1
        &&& post.store.users@ == pre.store.users@.push(post.store.users@.last())
        &&& fresh_record(post.store.users@.last(), pre.store.users@.len(), name, pw, now)
    }
}

/// Relation between a service before and after `login` of `name` with
/// password `pw` under the caller-supplied session token at time `now`,
/// returning `r`: an unknown username and a password whose digest does not
/// match the stored record fail with one and the same error, changing
/// nothing; matching credentials hand the token to the session manager,
/// which issues the session or refuses a token already in use. Login never
/// changes the store.
pub open spec fn login_post(
    pre: AuthService,
    post: AuthService,
    name: Seq<u8>,
    pw: Seq<u8>,
    token: u128,
    now: u64,
    r: Result<Session, AuthError>,
) -> bool {
    &&& post.store == pre.store
    &&& match find_user(pre.store.users@, name) {
        None => {
            &&& r == Err::<Session, AuthError>(AuthError::InvalidCredentials)
            &&& post.sessions == pre.sessions
        },
        Some(u) => {
            if !hash_matches(u.password_hash, pw) {
                &&& r == Err::<Session, AuthError>(AuthError::InvalidCredentials)
                &&& post.sessions == pre.sessions
            } else {
                issue_post(pre.sessions, post.sessions, u.user_id, token, now, r)
            }
        },
    }
}

impl AuthService {
    /// Both components are well formed.
    pub open spec fn wf(self) -> bool {
        &&& self.store.wf()
        &&& self.sessions.wf()
    }

    /// An empty service whose sessions live `ttl_seconds` per issue or
    /// refresh.
    pub fn new(ttl_seconds: u64) -> (s: Self)
        requires
            1 <= ttl_seconds,
        ensures
            s.wf(),
            s.store.users@.len() == 0,
            s.sessions.sessions@.len() == 0,
            s.sessions.ttl == ttl_seconds,
            s.sessions.clock == 0,
    {
        AuthService { store: CredentialStore::new(), sessions: SessionManager::new(ttl_seconds) }
    }

    /// An empty service with the default session lifetime.
    pub fn with_default_ttl() -> (s: Self)
        ensures
            s.wf(),
            s.store.users@.len() == 0,
            s.sessions.sessions@.len() == 0,
            s.sessions.ttl == DEFAULT_TTL_SECS,
            s.sessions.clock == 0,
    {
        Self::new(DEFAULT_TTL_SECS)
    }

    /// Register `username` with `password` at time `now`.
    ///
    /// Fails with `UsernameTaken` on a name already registered, and with
    /// `WeakPassword` on a password outside the strength policy; on success
    /// the new record is stored and returned. The caller is not logged in.
    pub fn signup(&mut self, username: &str, password: &str, now: u64) -> (r: Result<
        UserRecord,
        AuthError,
    >)
        requires
            old(self).wf(),
        ensures
            final(self).wf(),
            signup_post(
                *old(self),
                *final(self),
                username.spec_bytes(),
                password.spec_bytes(),
                now,
                r,
            ),
    {
        if self.store.find_by_username(username).is_some() {
            return Err(AuthError::UsernameTaken);
        }
        let pw_len = password.as_bytes().len();
        if pw_len < MIN_PASSWORD_BYTES || pw_len > MAX_PASSWORD_BYTES {
            return Err(AuthError::WeakPassword);
        }
        let user_id = self.store.users.len() as u64;
        let returned = UserRecord {
            user_id,
            username: username.as_bytes_vec(),
            password_hash: PasswordHasher::hash(password, user_id),
            created_at: now,
        };
        let stored = UserRecord {
            user_id,
            username: username.as_bytes_vec(),
            password_hash: PasswordHasher::hash(password, user_id),
            created_at: now,
        };
        match self.store.insert(stored) {
            Ok(()) => Ok(returned),
            // Unreachable: the name was just found to be free.
            Err(_) => Err(AuthError::UsernameTaken),
        }
    }

    /// Authenticate `username` with `password` at time `now` and, on
    /// success, issue a session for the recorded user under the
    /// caller-supplied `session_token`.
    ///
    /// An unknown username and a wrong password both fail with
    /// `InvalidCredentials`, so the response does not reveal whether the
    /// username exists. A token already in use is refused with
    /// `SessionIdTaken` after the credentials passed; the caller draws a
    /// fresh token and retries.
    pub fn login(&mut self, username: &str, password: &str, session_token: u128, now: u64) -> (r:
        Result<Session, AuthError>)
        requires
            old(self).wf(),
            now + old(self).sessions.ttl <= u64::MAX,
        ensures
            final(self).wf(),
            login_post(
                *old(self),
                *final(self),
                username.spec_bytes(),
                password.spec_bytes(),
                session_token,
                now,
                r,
            ),
    {
        let (user_id, password_good) = match self.store.find_by_username(username) {
            None => {
                return Err(AuthError::InvalidCredentials);
            },
            Some(u) => (u.user_id, PasswordHasher::verify(password, &u.password_hash)),
        };
        if !password_good {
            return Err(AuthError::InvalidCredentials);
        }
        self.sessions.issue(user_id, session_token, now)
    }

    /// Refresh the session named by `session_token` at time `now`, extending
    /// its expiry by one lifetime; delegates to the session manager and
    /// passes its verdict through unchanged. The store is never touched.
    pub fn refresh_session(&mut self, session_token: u128, now: u64) -> (r: Result<
        Session,
        AuthError,
    >)
        requires
            old(self).wf(),
            now + old(self).sessions.ttl <= u64::MAX,
        ensures
            final(self).wf(),
            final(self).store == old(self).store,
            refresh_post(old(self).sessions, final(self).sessions, session_token, now, r),
    {
        self.sessions.refresh(session_token, now)
    }

    /// Look the session up at time `now` without changing any state.
    pub fn validate(&self, session_token: u128, now: u64) -> (r: Result<Session, AuthError>)
        requires
            self.wf(),
        ensures
            r == self.sessions.spec_validate(session_token, now),
    {
        self.sessions.validate(session_token, now)
    }
}

} // verus!
