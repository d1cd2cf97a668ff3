use vstd::prelude::*;
use vstd::string::StringSliceAdditionalSpecFns;

verus! {

/// Identifier of the one digest scheme this crate produces: Argon2id under
/// the argon2 crate's default parameters. A stored record carries it so that
/// verification never depends on global configuration, and so that a record
/// written under an unknown scheme is recognisably malformed.
pub const ALG_ARGON2ID: u64 = 1;

/// Length in bytes of every digest this crate produces.
pub const DIGEST_LEN: usize = 32;

/// Shortest password (in bytes) the signup strength policy accepts.
pub const MIN_PASSWORD_BYTES: usize = 8;

/// Longest password (in bytes) ever hashed, bounding the cost of hashing.
pub const MAX_PASSWORD_BYTES: usize = 1024;

/// A self-describing password hash record: the algorithm that produced it,
/// the salt it was produced under, and the digest itself.
#[derive(Debug, PartialEq, Eq)]
pub struct HashResult {
    /// Which digest scheme produced this record.
    pub alg: u64,
    /// Salt mixed into the digest, stored alongside it.
    pub salt: u64,
    /// The salted digest of the password bytes.
    pub digest: Vec<u8>,
}

/// The domain of the hash function itself: not empty and at most
/// [`MAX_PASSWORD_BYTES`] bytes.
pub open spec fn hashable(pw: Seq<u8>) -> bool {
    1 <= pw.len() <= MAX_PASSWORD_BYTES
}

/// The signup strength policy: at least [`MIN_PASSWORD_BYTES`] and at most
/// [`MAX_PASSWORD_BYTES`] bytes. Stricter than [`hashable`].
pub open spec fn password_ok(pw: Seq<u8>) -> bool {
    MIN_PASSWORD_BYTES <= pw.len() <= MAX_PASSWORD_BYTES
}

/// The Argon2id digest of the password bytes under the given salt, with the
/// argon2 crate's default parameters and a 32-byte output. A function of the
/// salt and the password alone.
pub uninterp spec fn argon2_of(salt: u64, pw: Seq<u8>) -> Seq<u8>;

/// Whether `stored` is a well-formed record whose digest matches the
/// password bytes `pw`. A record under an unknown algorithm matches nothing,
/// and neither does a password outside the hash function's domain.
pub open spec fn hash_matches(stored: HashResult, pw: Seq<u8>) -> bool {
    &&& stored.alg == ALG_ARGON2ID
    &&& hashable(pw)
    &&& stored.digest@ == argon2_of(stored.salt, pw)
}

/// Salted one-way hashing and verification of passwords.
pub struct PasswordHasher {}

impl PasswordHasher {
    /// Hash `password` under `salt`, producing a self-describing record.
    ///
    /// The caller supplies the salt; the service derives a fresh one per
    /// record, so equal passwords of different users get distinct digests.
    pub fn hash(password: &str, salt: u64) -> (r: HashResult)
        requires
            hashable(password.spec_bytes()),
        ensures
            r.alg == ALG_ARGON2ID,
            r.salt == salt,
            r.digest@ == argon2_of(salt, password.spec_bytes()),
            hash_matches(r, password.spec_bytes()),
    {
        HashResult { alg: ALG_ARGON2ID, salt, digest: argon2_digest(password, salt) }
    }

    /// Recompute the digest of `password` under the salt of `stored` and
    /// compare. Returns false, and never fails, on a record whose algorithm
    /// identifier is unknown and on a password outside the hash function's
    /// domain.
    pub fn verify(password: &str, stored: &HashResult) -> (r: bool)
        ensures
            r == hash_matches(*stored, password.spec_bytes()),
    {
        if stored.alg != ALG_ARGON2ID {
            return false;
        }
        let len = password.as_bytes().len();
        if len < 1 || len > MAX_PASSWORD_BYTES {
            return false;
        }
        let recomputed = argon2_digest(password, stored.salt);
        digests_eq(recomputed.as_slice(), stored.digest.as_slice())
    }
}

/// Relies on `argon2::Argon2::hash_password_into` with the crate's default
/// context (Argon2id, version 0x13, default cost parameters): it fills the
/// whole 32-byte output buffer with a digest determined by the password
/// bytes and the salt alone, and with an 8-byte salt, a password of at most
/// [`MAX_PASSWORD_BYTES`] bytes and a 32-byte output it cannot fail.
#[verifier::external_body]
fn argon2_digest(password: &str, salt: u64) -> (r: Vec<u8>)
    requires
        hashable(password.spec_bytes()),
    ensures
        r@ == argon2_of(salt, password.spec_bytes()),
        r@.len() == DIGEST_LEN,
{
    let salt_bytes = salt.to_le_bytes();
    let mut out = [0u8; 32];
    argon2::Argon2::default().hash_password_into(password.as_bytes(), &salt_bytes, &mut out).unwrap();
    out.to_vec()
}

/// Compare two digests without branching on their contents: fold the XOR of
/// every byte pair into one accumulator and test it against zero at the end.
fn digests_eq(a: &[u8], b: &[u8]) -> (r: bool)
    ensures
        r == (a@ == b@),
{
    let n = a.len();
    if n != b.len() {
        return false;
    }
    let mut acc: u8 = 0;
    let mut i: usize = 0;
    while i < n
        invariant
            n == a@.len(),
            n == b@.len(),
            i <= n,
            (acc == 0) <==> (forall|j: int| 0 <= j < i ==> a@[j] == b@[j]),
        decreases n - i,
    {
        let x = a[i];
        let y = b[i];
        proof {
            assert((acc | (x ^ y)) == 0 <==> (acc == 0 && x == y)) by (bit_vector);
        }
        acc = acc | (x ^ y);
        i = i + 1;
    }
    if acc == 0 {
        proof {
            assert(a@ =~= b@);
        }
        true
    } else {
        proof {
            let j = choose|j: int| 0 <= j < n && a@[j] != b@[j];
            assert(a@[j] != b@[j]);
        }
        false
    }
}

} // verus!
