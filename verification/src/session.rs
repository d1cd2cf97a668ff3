use vstd::prelude::*;
use vstd::pervasive::VecAdditionalExecFns;

use crate::errors::AuthError;

verus! {

/// Default session lifetime: 24 hours, in seconds.
pub const DEFAULT_TTL_SECS: u64 = 86400;

/// How many times one session may be refreshed before it must be replaced
/// by a fresh login.
pub const MAX_REFRESH_COUNT: u64 = 4096;

/// One issued session: proof of a prior successful login, bound to a user
/// and to an expiry time. A session is valid at time `t` iff `t` is before
/// `expires_at`.
#[derive(Clone, Copy, Debug, PartialEq, Eq, Structural)]
pub struct Session {
    /// The opaque token the caller presents on validate and refresh. It is
    /// supplied by the caller at issue time — drawn from OS entropy at the
    /// boundary — held unique within the issuing manager, and never rotated
    /// by refresh.
    pub session_id: u128,
    /// The user this session authenticates.
    pub user_id: u64,
    /// When the session was issued. Never changed afterwards.
    pub issued_at: u64,
    /// The session is valid strictly before this time; refresh extends it.
    pub expires_at: u64,
    /// How many times this session has been refreshed.
    pub refresh_count: u64,
}

/// Whether a session is still valid at time `t`.
pub open spec fn session_live(s: Session, t: u64) -> bool {
    t < s.expires_at
}

/// `s` after one successful refresh at time `t` under lifetime `ttl`: the
/// expiry slides to `t + ttl`, the refresh count goes up by one, and
/// everything else — the token in particular — is kept.
pub open spec fn refreshed_session(s: Session, t: u64, ttl: u64) -> Session {
    Session {
        expires_at: (t + ttl) as u64,
        refresh_count: (s.refresh_count + 1) as u64,
        ..s
    }
}

/// Index of the first session carrying `token`, or -1 if none does. Under
/// [`SessionManager::wf`] at most one session can carry it.
pub open spec fn token_index(sessions: Seq<Session>, token: u128) -> int
    decreases sessions.len(),
{
    if sessions.len() == 0 {
        -1
    } else if sessions[0].session_id == token {
        0
    } else {
        let rest = token_index(sessions.subrange(1, sessions.len() as int), token);
        if rest < 0 {
            -1
        } else {
            rest + 1
        }
    }
}

/// What each outcome of `token_index` says of the whole sequence: a
/// non-negative result is the first index carrying the token; -1 means no
/// session carries it.
pub proof fn lemma_token_index_characterised(sessions: Seq<Session>, token: u128)
    ensures
        token_index(sessions, token) >= 0 ==> {
            let i = token_index(sessions, token);
            &&& i < sessions.len()
            &&& sessions[i].session_id == token
            &&& forall|j: int| 0 <= j < i ==> sessions[j].session_id != token
        },
        token_index(sessions, token) < 0 ==> forall|j: int|
            0 <= j < sessions.len() ==> sessions[j].session_id != token,
    decreases sessions.len(),
{
    if sessions.len() > 0 && sessions[0].session_id != token {
        let tail = sessions.subrange(1, sessions.len() as int);
        lemma_token_index_characterised(tail, token);
        assert forall|j: int| 1 <= j < sessions.len() implies sessions[j] == tail[j - 1] by {}
    }
}

/// `token_index` finds the first index that carries the token.
pub proof fn lemma_token_index_at(sessions: Seq<Session>, token: u128, i: int)
    requires
        0 <= i < sessions.len(),
        sessions[i].session_id == token,
        forall|j: int| 0 <= j < i ==> sessions[j].session_id != token,
    ensures
        token_index(sessions, token) == i,
    decreases i,
{
    if i > 0 {
        let tail = sessions.subrange(1, sessions.len() as int);
        lemma_token_index_at(tail, token, i - 1);
        assert(tail[i - 1] == sessions[i]);
    }
}

/// Appending a session whose token is not yet present makes it the one
/// `token_index` finds for that token.
pub proof fn lemma_token_index_push(sessions: Seq<Session>, token: u128, s: Session)
    requires
        token_index(sessions, token) < 0,
        s.session_id == token,
    ensures
        token_index(sessions.push(s), token) == sessions.len(),
{
    lemma_token_index_characterised(sessions, token);
    let pushed = sessions.push(s);
    assert(pushed[sessions.len() as int] == s);
    assert forall|j: int| 0 <= j < sessions.len() implies pushed[j].session_id != token by {
        assert(pushed[j] == sessions[j]);
    }
    lemma_token_index_at(pushed, token, sessions.len() as int);
}

/// Replacing the session at index `i` by one carrying the same token leaves
/// `token_index` unchanged for every token.
pub proof fn lemma_token_index_update_same_id(
    sessions: Seq<Session>,
    i: int,
    ns: Session,
    token: u128,
)
    requires
        0 <= i < sessions.len(),
        ns.session_id == sessions[i].session_id,
    ensures
        token_index(sessions.update(i, ns), token) == token_index(sessions, token),
    decreases sessions.len(),
{
    let updated = sessions.update(i, ns);
    if i == 0 {
        if sessions[0].session_id != token {
            assert(updated.subrange(1, updated.len() as int) =~= sessions.subrange(
                1,
                sessions.len() as int,
            ));
        }
    } else {
        let tail = sessions.subrange(1, sessions.len() as int);
        lemma_token_index_update_same_id(tail, i - 1, ns, token);
        assert(updated.subrange(1, updated.len() as int) =~= tail.update(i - 1, ns));
    }
}

/// Issues, validates and refreshes sessions, with sliding expiry.
///
/// The manager never observes time going backwards: each mutating operation
/// works at the later of the caller's time and the latest time already seen
/// (`clock`). Expired sessions are kept in the table, so that presenting a
/// lapsed token is reported as expiry, never as an unknown session.
pub struct SessionManager {
    /// Every session ever issued, expired ones included, in order of issue.
    pub sessions: Vec<Session>,
    /// Lifetime granted at issue and at each refresh, in seconds.
    pub ttl: u64,
    /// Latest time this manager has been given; never decreases.
    pub clock: u64,
}

impl SessionManager {
    /// Internal invariant: a positive lifetime that cannot overflow the
    /// clock, pairwise-distinct tokens, and sessions issued no later than
    /// the clock that expire strictly after they were issued, no further
    /// out than one lifetime past the clock, and within the refresh
    /// allowance.
    pub open spec fn wf(self) -> bool {
        &&& 1 <= self.ttl
        &&& self.clock + self.ttl <= u64::MAX
        &&& forall|i: int, j: int|
            0 <= i < j < self.sessions@.len() ==> self.sessions@[i].session_id
                != self.sessions@[j].session_id
        &&& forall|i: int|
            0 <= i < self.sessions@.len() ==> {
                let s = #[trigger] self.sessions@[i];
                &&& s.issued_at <= self.clock
                &&& s.issued_at < s.expires_at
                &&& s.expires_at <= self.clock + self.ttl
                &&& s.refresh_count <= MAX_REFRESH_COUNT
            }
    }

    /// The time an operation handed `now` works at: the later of `now` and
    /// the latest time already seen.
    pub open spec fn spec_now(self, now: u64) -> u64 {
        if now > self.clock {
            now
        } else {
            self.clock
        }
    }

    /// Whether some session carries `token`.
    pub open spec fn has_session(self, token: u128) -> bool {
        token_index(self.sessions@, token) >= 0
    }

    /// The session carrying `token`.
    pub open spec fn spec_session(self, token: u128) -> Session {
        self.sessions@[token_index(self.sessions@, token)]
    }

    /// What `validate` returns at time `now`: the session if it is present
    /// and still valid, `SessionExpired` if present but past its expiry, and
    /// `SessionNotFound` if never issued.
    pub open spec fn spec_validate(self, token: u128, now: u64) -> Result<Session, AuthError> {
        if !self.has_session(token) {
            Err(AuthError::SessionNotFound)
        } else if self.spec_now(now) >= self.spec_session(token).expires_at {
            Err(AuthError::SessionExpired)
        } else {
            Ok(self.spec_session(token))
        }
    }

    /// An empty manager granting `ttl` seconds per issue or refresh.
    pub fn new(ttl: u64) -> (m: Self)
        requires
            1 <= ttl,
        ensures
            m.wf(),
            m.sessions@.len() == 0,
            m.ttl == ttl,
            m.clock == 0,
    {
        SessionManager { sessions: Vec::new(), ttl, clock: 0 }
    }

    /// Index of the session carrying `token`, if any.
    fn find_token(&self, token: u128) -> (r: Option<usize>)
        ensures
            match r {
                Some(i) => i == token_index(self.sessions@, token) && i < self.sessions@.len(),
                None => token_index(self.sessions@, token) < 0,
            },
    {
        let n = self.sessions.len();
        let mut i: usize = 0;
        while i < n
            invariant
                n == self.sessions@.len(),
                i <= n,
                forall|j: int| 0 <= j < i ==> self.sessions@[j].session_id != token,
            decreases n - i,
        {
            if self.sessions[i].session_id == token {
                proof {
                    lemma_token_index_at(self.sessions@, token, i as int);
                }
                return Some(i);
            }
            i = i + 1;
        }
        proof {
            lemma_token_index_characterised(self.sessions@, token);
            if token_index(self.sessions@, token) >= 0 {
                assert(false);
            }
        }
        None
    }

    /// Issue a session for `user_id` under the caller-supplied `token` at
    /// time `now`; a token already in the table is refused and nothing
    /// changes, so the caller must draw a fresh one and retry.
    pub fn issue(&mut self, user_id: u64, token: u128, now: u64) -> (r: Result<
        Session,
        AuthError,
    >)
        requires
            old(self).wf(),
            now + old(self).ttl <= u64::MAX,
        ensures
            final(self).wf(),
            issue_post(*old(self), *final(self), user_id, token, now, r),
            r is Ok ==> final(self).has_session(token) && final(self).spec_session(token)
                == r.unwrap() && session_live(r.unwrap(), old(self).spec_now(now)),
    {
        if self.find_token(token).is_some() {
            return Err(AuthError::SessionIdTaken);
        }
        if now > self.clock {
            self.clock = now;
        }
        let t = self.clock;
        let s = Session {
            session_id: token,
            user_id,
            issued_at: t,
            expires_at: t + self.ttl,
            refresh_count: 0,
        };
        let ghost old_sessions = self.sessions@;
        self.sessions.push(s);
        proof {
            lemma_token_index_characterised(old_sessions, token);
            lemma_token_index_push(old_sessions, token, s);
            assert forall|i: int, j: int|
                0 <= i < j < self.sessions@.len() implies self.sessions@[i].session_id
                != self.sessions@[j].session_id by {
                if j < old_sessions.len() {
                    assert(self.sessions@[i] == old_sessions[i]);
                    assert(self.sessions@[j] == old_sessions[j]);
                } else {
                    assert(self.sessions@[i] == old_sessions[i]);
                }
            }
        }
        Ok(s)
    }

    /// Look the session up without changing any state.
    pub fn validate(&self, token: u128, now: u64) -> (r: Result<Session, AuthError>)
        requires
            self.wf(),
        ensures
            r == self.spec_validate(token, now),
    {
        let idx = match self.find_token(token) {
            None => {
                return Err(AuthError::SessionNotFound);
            },
            Some(i) => i,
        };
        let t = if now > self.clock {
            now
        } else {
            self.clock
        };
        let s = self.sessions[idx];
        if t >= s.expires_at {
            Err(AuthError::SessionExpired)
        } else {
            Ok(s)
        }
    }

    /// Refresh the session: only a session that `validate` would accept at
    /// `now` and that is within the refresh allowance gets its expiry slid
    /// out to one lifetime from `now`; on any failure the manager is left
    /// exactly as it was.
    pub fn refresh(&mut self, token: u128, now: u64) -> (r: Result<Session, AuthError>)
        requires
            old(self).wf(),
            now + old(self).ttl <= u64::MAX,
        ensures
            final(self).wf(),
            refresh_post(*old(self), *final(self), token, now, r),
            r is Ok ==> final(self).has_session(token) && final(self).spec_session(token)
                == r.unwrap(),
    {
        let idx = match self.find_token(token) {
            None => {
                return Err(AuthError::SessionNotFound);
            },
            Some(i) => i,
        };
        let t = if now > self.clock {
            now
        } else {
            self.clock
        };
        let s = self.sessions[idx];
        if t >= s.expires_at {
            return Err(AuthError::SessionExpired);
        }
        if s.refresh_count >= MAX_REFRESH_COUNT {
            return Err(AuthError::RefreshLimitReached);
        }
        let ns = Session {
            expires_at: t + self.ttl,
            refresh_count: s.refresh_count + 1,
            ..s
        };
        let ghost old_sessions = self.sessions@;
        self.sessions.set(idx, ns);
        self.clock = t;
        proof {
            lemma_token_index_update_same_id(old_sessions, idx as int, ns, token);
            assert forall|i: int, j: int|
                0 <= i < j < self.sessions@.len() implies self.sessions@[i].session_id
                != self.sessions@[j].session_id by {
                assert(old_sessions[i].session_id != old_sessions[j].session_id);
            }
        }
        Ok(ns)
    }
}

/// Relation between a manager before and after `issue`: a token already in
/// the table is refused and nothing changes; otherwise the new session is
/// appended under that token, starts at the operation's time, runs one
/// lifetime, has never been refreshed, and nothing else changes.
pub open spec fn issue_post(
    pre: SessionManager,
    post: SessionManager,
    user_id: u64,
    token: u128,
    now: u64,
    r: Result<Session, AuthError>,
) -> bool {
    let t = pre.spec_now(now);
    if pre.has_session(token) {
        r == Err::<Session, AuthError>(AuthError::SessionIdTaken) && post == pre
    } else {
        let s = Session {
            session_id: token,
            user_id,
            issued_at: t,
            expires_at: (t + pre.ttl) as u64,
            refresh_count: 0,
        };
        &&& r == Ok::<Session, AuthError>(s)
        &&& post.sessions@ == pre.sessions@.push(s)
        &&& post.ttl == pre.ttl
        &&& post.clock == t
    }
}

/// Relation between a manager before and after `refresh`: an unknown token,
/// a lapsed session or an exhausted refresh allowance fails with the
/// matching error and leaves the manager untouched; otherwise exactly that
/// session is replaced by its refreshed successor, which is also returned.
pub open spec fn refresh_post(
    pre: SessionManager,
    post: SessionManager,
    token: u128,
    now: u64,
    r: Result<Session, AuthError>,
) -> bool {
    let t = pre.spec_now(now);
    if !pre.has_session(token) {
        r == Err::<Session, AuthError>(AuthError::SessionNotFound) && post == pre
    } else if t >= pre.spec_session(token).expires_at {
        r == Err::<Session, AuthError>(AuthError::SessionExpired) && post == pre
    } else if pre.spec_session(token).refresh_count >= MAX_REFRESH_COUNT {
        r == Err::<Session, AuthError>(AuthError::RefreshLimitReached) && post == pre
    } else {
        let ns = refreshed_session(pre.spec_session(token), t, pre.ttl);
        &&& r == Ok::<Session, AuthError>(ns)
        &&& post.sessions@ == pre.sessions@.update(token_index(pre.sessions@, token), ns)
        &&& post.ttl == pre.ttl
        &&& post.clock == t
    }
}

} // verus!
