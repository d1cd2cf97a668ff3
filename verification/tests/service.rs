use authcore::errors::AuthError;
use authcore::errors::StoreError;
use authcore::hasher::PasswordHasher;
use authcore::service::AuthService;
use authcore::store::bytes_eq;
use authcore::store::CredentialStore;
use authcore::store::UserRecord;

const TOKEN_1: u128 = 0x0123_4567_89ab_cdef_0123_4567_89ab_cdef;
const TOKEN_2: u128 = 0xfeed_face_feed_face_feed_face_feed_face;

#[test]
fn signup_login_refresh_scenario() {
    let mut svc = AuthService::new(3600);
    let rec = svc.signup("alice", "Str0ngPass!", 100).unwrap();
    assert!(bytes_eq(rec.username.as_slice(), b"alice"));
    assert_eq!(rec.user_id, 0);
    assert_eq!(rec.created_at, 100);
    assert_eq!(
        svc.signup("alice", "Other1!", 101).unwrap_err(),
        AuthError::UsernameTaken
    );
    let s1 = svc.login("alice", "Str0ngPass!", TOKEN_1, 200).unwrap();
    let s2 = svc.refresh_session(s1.session_id, 300).unwrap();
    assert!(s2.expires_at > s1.expires_at);
    assert_eq!(s2.refresh_count, 1);
    assert_eq!(s2.session_id, s1.session_id);
}

#[test]
fn signup_then_login_validates_immediately() {
    let mut svc = AuthService::with_default_ttl();
    svc.signup("bob", "longenough", 10).unwrap();
    let s = svc.login("bob", "longenough", TOKEN_1, 20).unwrap();
    assert_eq!(s.session_id, TOKEN_1);
    assert_eq!(svc.validate(s.session_id, 20), Ok(s));
}

#[test]
fn signup_does_not_log_the_user_in() {
    let mut svc = AuthService::new(3600);
    svc.signup("carol", "longenough", 10).unwrap();
    // No session exists until login.
    assert_eq!(svc.validate(TOKEN_1, 10), Err(AuthError::SessionNotFound));
}

#[test]
fn signup_rejects_a_weak_password() {
    let mut svc = AuthService::new(3600);
    assert_eq!(
        svc.signup("dave", "short1!", 10).unwrap_err(),
        AuthError::WeakPassword
    );
    assert_eq!(svc.signup("dave", "", 10).unwrap_err(), AuthError::WeakPassword);
    let long = "x".repeat(1025);
    assert_eq!(
        svc.signup("dave", long.as_str(), 10).unwrap_err(),
        AuthError::WeakPassword
    );
    // The boundaries themselves are accepted.
    let max = "x".repeat(1024);
    svc.signup("dave", max.as_str(), 10).unwrap();
    svc.signup("erin", "eightly!", 10).unwrap();
}

#[test]
fn a_taken_username_is_reported_before_password_strength() {
    let mut svc = AuthService::new(3600);
    svc.signup("alice", "Str0ngPass!", 10).unwrap();
    assert_eq!(
        svc.signup("alice", "weak", 11).unwrap_err(),
        AuthError::UsernameTaken
    );
}

#[test]
fn login_errors_do_not_reveal_whether_the_username_exists() {
    let mut svc = AuthService::new(3600);
    svc.signup("alice", "Str0ngPass!", 10).unwrap();
    let wrong_password = svc.login("alice", "WrongPass!!", TOKEN_1, 20).unwrap_err();
    let unknown_user = svc.login("mallory", "Str0ngPass!", TOKEN_2, 20).unwrap_err();
    assert_eq!(wrong_password, unknown_user);
    assert_eq!(wrong_password, AuthError::InvalidCredentials);
}

#[test]
fn login_failure_issues_no_session() {
    let mut svc = AuthService::new(3600);
    svc.signup("alice", "Str0ngPass!", 10).unwrap();
    let _ = svc.login("alice", "WrongPass!!", TOKEN_1, 20);
    assert_eq!(svc.validate(TOKEN_1, 20), Err(AuthError::SessionNotFound));
}

#[test]
fn login_refuses_a_session_token_already_in_use() {
    let mut svc = AuthService::new(3600);
    svc.signup("alice", "Str0ngPass!", 10).unwrap();
    let s1 = svc.login("alice", "Str0ngPass!", TOKEN_1, 20).unwrap();
    assert_eq!(
        svc.login("alice", "Str0ngPass!", TOKEN_1, 30).unwrap_err(),
        AuthError::SessionIdTaken
    );
    // The first session is untouched by the refused login.
    assert_eq!(svc.validate(TOKEN_1, 30), Ok(s1));
}

#[test]
fn each_login_issues_a_fresh_session() {
    let mut svc = AuthService::new(3600);
    svc.signup("alice", "Str0ngPass!", 10).unwrap();
    let s1 = svc.login("alice", "Str0ngPass!", TOKEN_1, 20).unwrap();
    let s2 = svc.login("alice", "Str0ngPass!", TOKEN_2, 30).unwrap();
    assert_ne!(s1.session_id, s2.session_id);
    assert_eq!(s1.user_id, s2.user_id);
}

#[test]
fn refresh_session_propagates_the_manager_verdict() {
    let mut svc = AuthService::new(60);
    svc.signup("alice", "Str0ngPass!", 0).unwrap();
    let s = svc.login("alice", "Str0ngPass!", TOKEN_1, 100).unwrap();
    assert_eq!(
        svc.refresh_session(TOKEN_2, 100).unwrap_err(),
        AuthError::SessionNotFound
    );
    assert_eq!(
        svc.refresh_session(s.session_id, 160).unwrap_err(),
        AuthError::SessionExpired
    );
}

#[test]
fn the_stored_hash_verifies_the_password() {
    let mut svc = AuthService::new(3600);
    let rec = svc.signup("alice", "Str0ngPass!", 10).unwrap();
    assert!(PasswordHasher::verify("Str0ngPass!", &rec.password_hash));
    assert!(!PasswordHasher::verify("Str0ngPass?", &rec.password_hash));
}

#[test]
fn store_finds_what_was_inserted() {
    let mut store = CredentialStore::new();
    let mut svc = AuthService::new(3600);
    let rec = svc.signup("alice", "Str0ngPass!", 10).unwrap();
    assert!(store.find_by_username("alice").is_none());
    store.insert(rec).unwrap();
    let found = store.find_by_username("alice").unwrap();
    assert_eq!(found.user_id, 0);
    assert!(store.find_by_username("alicia").is_none());
}

#[test]
fn store_rejects_a_duplicate_username() {
    let mut store = CredentialStore::new();
    let mut svc = AuthService::new(3600);
    let rec = svc.signup("alice", "Str0ngPass!", 10).unwrap();
    let rec2 = UserRecord {
        user_id: 99,
        username: rec.username.clone(),
        password_hash: PasswordHasher::hash("Another1!", 99),
        created_at: 11,
    };
    store.insert(rec).unwrap();
    assert_eq!(store.insert(rec2), Err(StoreError::DuplicateUsername));
}

#[test]
fn byte_slices_compare_by_contents() {
    assert!(bytes_eq(b"alice", b"alice"));
    assert!(!bytes_eq(b"alice", b"alicia"));
    assert!(!bytes_eq(b"alice", b"alicf"));
    assert!(bytes_eq(b"", b""));
}
