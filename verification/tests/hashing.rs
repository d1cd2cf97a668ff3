use authcore::hasher::HashResult;
use authcore::hasher::PasswordHasher;
use authcore::hasher::ALG_ARGON2ID;
use authcore::hasher::DIGEST_LEN;

#[test]
fn hash_is_self_describing() {
    let r = PasswordHasher::hash("password!", 7);
    assert_eq!(r.alg, ALG_ARGON2ID);
    assert_eq!(r.salt, 7);
    assert_eq!(r.digest.len(), DIGEST_LEN);
}

#[test]
fn hash_is_deterministic_in_password_and_salt() {
    let a = PasswordHasher::hash("password!", 7);
    let b = PasswordHasher::hash("password!", 7);
    assert_eq!(a.digest, b.digest);
}

#[test]
fn the_digest_is_not_the_password() {
    let r = PasswordHasher::hash("password!", 7);
    assert_eq!(r.digest.len(), DIGEST_LEN);
    assert_ne!(r.digest.as_slice(), "password!".as_bytes());
}

#[test]
fn verify_accepts_the_hashed_password() {
    let r = PasswordHasher::hash("correct horse", 3);
    assert!(PasswordHasher::verify("correct horse", &r));
}

#[test]
fn verify_rejects_a_wrong_password() {
    let r = PasswordHasher::hash("correct horse", 3);
    assert!(!PasswordHasher::verify("correct horsf", &r));
    assert!(!PasswordHasher::verify("", &r));
}

#[test]
fn verify_rejects_a_password_outside_the_hashing_domain() {
    let r = PasswordHasher::hash("correct horse", 3);
    let long = "x".repeat(1025);
    assert!(!PasswordHasher::verify(long.as_str(), &r));
}

#[test]
fn verify_rejects_a_malformed_record() {
    let r = PasswordHasher::hash("correct horse", 3);
    let malformed = HashResult { alg: r.alg + 1, salt: r.salt, digest: r.digest.clone() };
    assert!(!PasswordHasher::verify("correct horse", &malformed));
}

#[test]
fn salt_changes_the_digest_of_equal_passwords() {
    let a = PasswordHasher::hash("correct horse", 0);
    let b = PasswordHasher::hash("correct horse", 1);
    assert_ne!(a.digest, b.digest);
    assert!(!PasswordHasher::verify(
        "correct horse",
        &HashResult { alg: a.alg, salt: a.salt, digest: b.digest.clone() }
    ));
}
