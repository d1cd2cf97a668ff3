use vstd::prelude::*;

use crate::errors::AuthError;
use crate::hasher::hash_matches;
use crate::hasher::password_ok;
use crate::service::login_post;
use crate::service::signup_post;
use crate::service::AuthService;
use crate::session::lemma_token_index_characterised;
use crate::session::lemma_token_index_push;
use crate::session::lemma_token_index_update_same_id;
use crate::session::refresh_post;
use crate::session::refreshed_session;
use crate::session::token_index;
use crate::session::Session;
use crate::session::SessionManager;
use crate::store::find_user;
use crate::store::lemma_find_user_push;
use crate::store::UserRecord;

verus! {

/// Signing a fresh username up with a password the policy accepts, then
/// logging in with the same credentials under a token not yet in use,
/// succeeds, and the session so issued is immediately accepted by
/// `validate` at the login time.
pub proof fn lemma_signup_then_login_succeeds(
    s0: AuthService,
    s1: AuthService,
    s2: AuthService,
    name: Seq<u8>,
    pw: Seq<u8>,
    token: u128,
    now1: u64,
    now2: u64,
    r1: Result<UserRecord, AuthError>,
    r2: Result<Session, AuthError>,
)
    requires
        s0.wf(),
        find_user(s0.store.users@, name) is None,
        password_ok(pw),
        !s0.sessions.has_session(token),
        now2 + s0.sessions.ttl <= u64::MAX,
        signup_post(s0, s1, name, pw, now1, r1),
        login_post(s1, s2, name, pw, token, now2, r2),
    ensures
        r1 is Ok,
        r2 is Ok,
        s2.sessions.spec_validate(token, now2) == Ok::<Session, AuthError>(r2.unwrap()),
{
    let stored = s1.store.users@.last();
    lemma_find_user_push(s0.store.users@, name, stored);
    assert(find_user(s1.store.users@, name) == Some(stored));
    assert(hash_matches(stored.password_hash, pw));
    let s = r2.unwrap();
    lemma_token_index_push(s1.sessions.sessions@, token, s);
    assert(s2.sessions.spec_session(token) == s);
}

/// Login with an unknown username and login with a wrong password for an
/// existing username return one and the same error, so the response does not
/// reveal whether the username exists.
pub proof fn lemma_login_enumeration_resistant(
    pre_a: AuthService,
    post_a: AuthService,
    name_a: Seq<u8>,
    pw_a: Seq<u8>,
    token_a: u128,
    now_a: u64,
    r_a: Result<Session, AuthError>,
    pre_b: AuthService,
    post_b: AuthService,
    name_b: Seq<u8>,
    pw_b: Seq<u8>,
    token_b: u128,
    now_b: u64,
    r_b: Result<Session, AuthError>,
)
    requires
        login_post(pre_a, post_a, name_a, pw_a, token_a, now_a, r_a),
        find_user(pre_a.store.users@, name_a) is None,
        login_post(pre_b, post_b, name_b, pw_b, token_b, now_b, r_b),
        match find_user(pre_b.store.users@, name_b) {
            Some(u) => !hash_matches(u.password_hash, pw_b),
            None => false,
        },
    ensures
        r_a == r_b,
        r_a == Err::<Session, AuthError>(AuthError::InvalidCredentials),
{
}

/// Validating a session that was issued but whose expiry has passed reports
/// `SessionExpired` — never `SessionNotFound`.
pub proof fn lemma_validate_expired_never_not_found(m: SessionManager, token: u128, now: u64)
    requires
        m.has_session(token),
        now >= m.spec_session(token).expires_at,
    ensures
        m.spec_validate(token, now) == Err::<Session, AuthError>(AuthError::SessionExpired),
        m.spec_validate(token, now) != Err::<Session, AuthError>(AuthError::SessionNotFound),
{
}

/// Refreshing a session that is unknown, or whose expiry has passed, fails
/// and leaves the manager exactly as it was: in particular it creates no new
/// session.
pub proof fn lemma_refresh_rejects_dead_session(
    pre: SessionManager,
    post: SessionManager,
    token: u128,
    now: u64,
    r: Result<Session, AuthError>,
)
    requires
        refresh_post(pre, post, token, now, r),
        !pre.has_session(token) || pre.spec_now(now) >= pre.spec_session(token).expires_at,
    ensures
        r is Err,
        post == pre,
        post.sessions@.len() == pre.sessions@.len(),
{
}

/// One refresh call changes the refresh count of the named session by
/// exactly one when it succeeds and not at all when it fails, creates no
/// session and removes none, and leaves every other session untouched.
pub proof fn lemma_refresh_count_exact(
    pre: SessionManager,
    post: SessionManager,
    token: u128,
    now: u64,
    r: Result<Session, AuthError>,
)
    requires
        refresh_post(pre, post, token, now, r),
        pre.has_session(token),
    ensures
        post.sessions@.len() == pre.sessions@.len(),
        post.has_session(token),
        r is Ok ==> post.spec_session(token).refresh_count == pre.spec_session(
            token,
        ).refresh_count + 1,
        r is Err ==> post.spec_session(token).refresh_count == pre.spec_session(
            token,
        ).refresh_count,
        r is Ok ==> post.sessions@ == pre.sessions@.update(
            token_index(pre.sessions@, token),
            refreshed_session(pre.spec_session(token), pre.spec_now(now), pre.ttl),
        ),
        forall|o: u128|
            pre.has_session(o) && o != token ==> post.spec_session(o) == pre.spec_session(o)
                && post.has_session(o),
{
    lemma_token_index_characterised(pre.sessions@, token);
    let idx = token_index(pre.sessions@, token);
    if r is Ok {
        let ns = refreshed_session(pre.spec_session(token), pre.spec_now(now), pre.ttl);
        lemma_token_index_update_same_id(pre.sessions@, idx, ns, token);
        assert forall|o: u128| pre.has_session(o) && o != token implies post.spec_session(o)
            == pre.spec_session(o) && post.has_session(o) by {
            lemma_token_index_update_same_id(pre.sessions@, idx, ns, o);
            lemma_token_index_characterised(pre.sessions@, o);
        }
    }
}

/// Two refresh calls applied one after the other — the order the exclusive
/// borrow of the manager forces on concurrent callers — leave the session's
/// refresh count raised by exactly the number of calls that succeeded: no
/// update is lost.
pub proof fn lemma_serial_refreshes_lose_no_update(
    m0: SessionManager,
    m1: SessionManager,
    m2: SessionManager,
    token: u128,
    now1: u64,
    now2: u64,
    r1: Result<Session, AuthError>,
    r2: Result<Session, AuthError>,
)
    requires
        refresh_post(m0, m1, token, now1, r1),
        refresh_post(m1, m2, token, now2, r2),
        m0.has_session(token),
    ensures
        m2.spec_session(token).refresh_count as int == m0.spec_session(token).refresh_count as int
            + (if r1 is Ok { 1int } else { 0int }) + (if r2 is Ok { 1int } else { 0int }),
{
    lemma_refresh_count_exact(m0, m1, token, now1, r1);
    lemma_refresh_count_exact(m1, m2, token, now2, r2);
}

/// A successful login issues a session that starts fresh: it carries the
/// caller's token, has never been refreshed, is issued at the operation's
/// time, expires exactly one lifetime later — strictly after issue — and
/// stands in the table, where validating it at once succeeds.
pub proof fn lemma_login_session_starts_fresh(
    pre: AuthService,
    post: AuthService,
    name: Seq<u8>,
    pw: Seq<u8>,
    token: u128,
    now: u64,
    r: Result<Session, AuthError>,
)
    requires
        pre.wf(),
        now + pre.sessions.ttl <= u64::MAX,
        login_post(pre, post, name, pw, token, now, r),
        r is Ok,
    ensures
        r.unwrap().session_id == token,
        r.unwrap().refresh_count == 0,
        r.unwrap().issued_at == pre.sessions.spec_now(now),
        r.unwrap().expires_at == r.unwrap().issued_at + pre.sessions.ttl,
        r.unwrap().expires_at > r.unwrap().issued_at,
        post.sessions.has_session(token),
        post.sessions.spec_session(token) == r.unwrap(),
        post.sessions.spec_validate(token, now) == Ok::<Session, AuthError>(r.unwrap()),
{
    let s = r.unwrap();
    lemma_token_index_push(pre.sessions.sessions@, token, s);
    assert(post.sessions.spec_session(token) == s);
}

/// A successful refresh keeps the token, raises the refresh count by
/// exactly one, never brings the expiry forward, and moves it strictly
/// later whenever the caller's time has advanced past every time the
/// manager has seen.
pub proof fn lemma_refresh_extends_a_live_session(
    pre: SessionManager,
    post: SessionManager,
    token: u128,
    now: u64,
    r: Result<Session, AuthError>,
)
    requires
        pre.wf(),
        now + pre.ttl <= u64::MAX,
        refresh_post(pre, post, token, now, r),
        r is Ok,
    ensures
        r.unwrap().session_id == token,
        r.unwrap().user_id == pre.spec_session(token).user_id,
        r.unwrap().issued_at == pre.spec_session(token).issued_at,
        r.unwrap().refresh_count == pre.spec_session(token).refresh_count + 1,
        r.unwrap().expires_at >= pre.spec_session(token).expires_at,
        now > pre.clock ==> r.unwrap().expires_at > pre.spec_session(token).expires_at,
        post.has_session(token),
        post.spec_session(token) == r.unwrap(),
{
    lemma_token_index_characterised(pre.sessions@, token);
    let idx = token_index(pre.sessions@, token);
    let ns = refreshed_session(pre.spec_session(token), pre.spec_now(now), pre.ttl);
    lemma_token_index_update_same_id(pre.sessions@, idx, ns, token);
}

} // verus!
