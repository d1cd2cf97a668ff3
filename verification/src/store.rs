use vstd::prelude::*;
use vstd::string::StringSliceAdditionalSpecFns;

use crate::errors::StoreError;
use crate::hasher::HashResult;

verus! {

/// One registered user: an identifier, the unique username (as UTF-8 bytes),
/// the self-describing password hash, and the moment of creation.
#[derive(Debug)]
pub struct UserRecord {
    /// Identifier assigned at signup, unique within the store.
    pub user_id: u64,
    /// The username, stored as its UTF-8 bytes.
    pub username: Vec<u8>,
    /// The salted hash record of the password; the password itself is never
    /// kept.
    pub password_hash: HashResult,
    /// When the record was created.
    pub created_at: u64,
}

/// The record holding `name`, if any: the first match, scanning from the
/// front. Under [`CredentialStore::wf`] at most one record can match.
pub open spec fn find_user(users: Seq<UserRecord>, name: Seq<u8>) -> Option<UserRecord>
    decreases users.len(),
{
    if users.len() == 0 {
        None
    } else if users[0].username@ == name {
        Some(users[0])
    } else {
        find_user(users.subrange(1, users.len() as int), name)
    }
}

/// `find_user` returns the record at the first index whose username is
/// `name`.
pub proof fn lemma_find_user_at(users: Seq<UserRecord>, name: Seq<u8>, i: int)
    requires
        0 <= i < users.len(),
        users[i].username@ == name,
        forall|j: int| 0 <= j < i ==> users[j].username@ != name,
    ensures
        find_user(users, name) == Some(users[i]),
    decreases i,
{
    if i > 0 {
        let tail = users.subrange(1, users.len() as int);
        lemma_find_user_at(tail, name, i - 1);
        assert(tail[i - 1] == users[i]);
    }
}

/// What each outcome of `find_user` says of the whole sequence: a hit is a
/// record of that name present in it, a miss means no record has the name.
pub proof fn lemma_find_user_characterised(users: Seq<UserRecord>, name: Seq<u8>)
    ensures
        match find_user(users, name) {
            Some(u) => u.username@ == name && exists|i: int|
                0 <= i < users.len() && users[i] == u,
            None => forall|j: int| 0 <= j < users.len() ==> users[j].username@ != name,
        },
    decreases users.len(),
{
    if users.len() > 0 {
        let tail = users.subrange(1, users.len() as int);
        lemma_find_user_characterised(tail, name);
        if users[0].username@ != name {
            match find_user(tail, name) {
                Some(u) => {
                    let i = choose|i: int| 0 <= i < tail.len() && tail[i] == u;
                    assert(users[i + 1] == u);
                },
                None => {
                    assert forall|j: int| 0 <= j < users.len() implies users[j].username@
                        != name by {
                        if j > 0 {
                            assert(tail[j - 1] == users[j]);
                        }
                    }
                },
            }
        }
    }
}

/// Appending a record of a name not yet present makes it the one `find_user`
/// returns for that name.
pub proof fn lemma_find_user_push(users: Seq<UserRecord>, name: Seq<u8>, u: UserRecord)
    requires
        find_user(users, name) is None,
        u.username@ == name,
    ensures
        find_user(users.push(u), name) == Some(u),
{
    lemma_find_user_characterised(users, name);
    let pushed = users.push(u);
    assert(pushed[users.len() as int] == u);
    assert forall|j: int| 0 <= j < users.len() implies pushed[j].username@ != name by {
        assert(pushed[j] == users[j]);
    }
    lemma_find_user_at(pushed, name, users.len() as int);
}

/// In-memory credential store: the records of every signed-up user, with
/// usernames kept unique.
pub struct CredentialStore {
    /// The records, in order of creation.
    pub users: Vec<UserRecord>,
}

impl CredentialStore {
    /// Usernames are pairwise distinct.
    pub open spec fn wf(self) -> bool {
        forall|i: int, j: int|
            0 <= i < j < self.users@.len() ==> self.users@[i].username@
                != self.users@[j].username@
    }

    /// An empty store.
    pub fn new() -> (s: Self)
        ensures
            s.wf(),
            s.users@.len() == 0,
    {
        CredentialStore { users: Vec::new() }
    }

    /// Index of the record holding `name`, scanning from the front.
    fn find_idx(&self, name: &[u8]) -> (r: Option<usize>)
        ensures
            match r {
                Some(i) => i < self.users@.len() && find_user(self.users@, name@) == Some(
                    self.users@[i as int],
                ),
                None => find_user(self.users@, name@) is None,
            },
    {
        let n = self.users.len();
        let mut i: usize = 0;
        while i < n
            invariant
                n == self.users@.len(),
                i <= n,
                forall|j: int| 0 <= j < i ==> self.users@[j].username@ != name@,
            decreases n - i,
        {
            if bytes_eq(self.users[i].username.as_slice(), name) {
                proof {
                    lemma_find_user_at(self.users@, name@, i as int);
                }
                return Some(i);
            }
            i = i + 1;
        }
        proof {
            lemma_find_user_characterised(self.users@, name@);
            if find_user(self.users@, name@) is Some {
                assert(false);
            }
        }
        None
    }

    /// The record registered under `username`, if any.
    pub fn find_by_username<'a>(&'a self, username: &str) -> (r: Option<&'a UserRecord>)
        ensures
            match r {
                Some(u) => find_user(self.users@, username.spec_bytes()) == Some(*u),
                None => find_user(self.users@, username.spec_bytes()) is None,
            },
    {
        match self.find_idx(username.as_bytes()) {
            Some(i) => Some(&self.users[i]),
            None => None,
        }
    }

    /// Append `rec` unless its username is already registered; the store is
    /// unchanged on failure.
    pub fn insert(&mut self, rec: UserRecord) -> (r: Result<(), StoreError>)
        requires
            old(self).wf(),
        ensures
            final(self).wf(),
            r is Ok <==> find_user(old(self).users@, rec.username@) is None,
            r is Ok ==> final(self).users@ == old(self).users@.push(rec),
            r is Err ==> final(self).users@ == old(self).users@ && r == Err::<
                (),
                StoreError,
            >(StoreError::DuplicateUsername),
    {
        match self.find_idx(rec.username.as_slice()) {
            Some(_) => Err(StoreError::DuplicateUsername),
            None => {
                proof {
                    lemma_find_user_characterised(self.users@, rec.username@);
                }
                let ghost old_users = self.users@;
                self.users.push(rec);
                proof {
                    assert forall|i: int, j: int|
                        0 <= i < j < self.users@.len() implies self.users@[i].username@
                        != self.users@[j].username@ by {
                        if j < old_users.len() {
                            assert(self.users@[i] == old_users[i]);
                            assert(self.users@[j] == old_users[j]);
                        } else {
                            assert(self.users@[i] == old_users[i]);
                        }
                    }
                }
                Ok(())
            },
        }
    }
}

/// Whether two byte slices hold the same bytes.
pub fn bytes_eq(a: &[u8], b: &[u8]) -> (r: bool)
    ensures
        r == (a@ == b@),
{
    let n = a.len();
    if n != b.len() {
        return false;
    }
    let mut i: usize = 0;
    while i < n
        invariant
            n == a@.len(),
            n == b@.len(),
            i <= n,
            forall|j: int| 0 <= j < i ==> a@[j] == b@[j],
        decreases n - i,
    {
        if a[i] != b[i] {
            return false;
        }
        i = i + 1;
    }
    proof {
        assert(a@ =~= b@);
    }
    true
}

} // verus!
