//! User records as the session core consumes them: identity, password
//! hash, and the `admin` / `blocked` flags the guards read. Password
//! checking and hashing go through the bcrypt crate behind trusted
//! wrappers; the in-memory directory realizes the lookup-by-id/username
//! capability the guards and the login flow rely on.

use vstd::prelude::*;
use crate::fault::Fault;

verus! {

/// A user record. The session core reads `admin` and `blocked` and never
/// mutates them; `password` holds the bcrypt hash, never the clear text.
#[derive(Clone, Debug)]
pub struct User {
    pub user_id: u128,
    pub username: String,
    pub password: String,
    pub admin: Option<bool>,
    pub blocked: Option<bool>,
}

/// The mathematical shadow of a `User`: the same record over sequences.
pub struct UserV {
    pub user_id: u128,
    pub username: Seq<char>,
    pub password: Seq<char>,
    pub admin: Option<bool>,
    pub blocked: Option<bool>,
}

impl View for User {
    type V = UserV;

    open spec fn view(&self) -> UserV {
        UserV {
            user_id: self.user_id,
            username: self.username@,
            password: self.password@,
            admin: self.admin,
            blocked: self.blocked,
        }
    }
}

/// A user record with the password hash stripped: what handlers may echo
/// back to clients.
#[derive(Clone, Debug)]
pub struct UserInfo {
    pub user_id: u128,
    pub username: String,
    pub admin: Option<bool>,
    pub blocked: Option<bool>,
}

impl vstd::std_specs::convert::FromSpecImpl<User> for UserInfo {
    open spec fn obeys_from_spec() -> bool {
        true
    }

    open spec fn from_spec(user: User) -> UserInfo {
        UserInfo {
            user_id: user.user_id,
            username: user.username,
            admin: user.admin,
            blocked: user.blocked,
        }
    }
}

impl From<User> for UserInfo {
    /// Strips the password hash, keeping every other field.
    fn from(user: User) -> (r: UserInfo) {
        UserInfo {
            user_id: user.user_id,
            username: user.username,
            admin: user.admin,
            blocked: user.blocked,
        }
    }
}

#[verifier::external_type_specification]
#[verifier::external_body]
pub struct ExBcryptError(bcrypt::BcryptError);

/// What bcrypt::verify returns for a password and a hash string: a
/// function of the two alone (`Ok(b)` stands as `Some(b)`, a failure to
/// read the hash as `None`).
pub uninterp spec fn bcrypt_verify_of(password: Seq<char>, hash: Seq<char>) -> Option<bool>;

/// Relies on bcrypt::verify: deterministically checks a password against
/// a bcrypt hash string, erring only on a malformed hash.
#[verifier::external_body]
fn bcrypt_verify(password: &str, hash: &str) -> (r: Result<bool, bcrypt::BcryptError>)
    ensures
        (match r {
            Ok(b) => Some(b),
            Err(_) => None::<bool>,
        }) == bcrypt_verify_of(password@, hash@),
{
    bcrypt::verify(password, hash)
}

/// Relies on bcrypt::hash: salts randomly and, on success, produces a
/// hash string that bcrypt::verify accepts for the same password.
#[verifier::external_body]
fn bcrypt_hash(password: &str, cost: u32) -> (r: Result<String, bcrypt::BcryptError>)
    ensures
        r matches Ok(h) ==> bcrypt_verify_of(password@, h@) == Some(true),
{
    bcrypt::hash(password, cost)
}

/// Hashes a password for storage; the hash verifies against the password.
/// The salt is drawn from the system's random source, so failure there is
/// surfaced as the fixed error message.
pub fn hash_password(password: &str) -> (r: Result<String, String>)
    ensures
        r matches Ok(h) ==> bcrypt_verify_of(password@, h@) == Some(true),
        r matches Err(m) ==> m@ == "Could not generate hash from password"@,
{
    match bcrypt_hash(password, 10) {
        Ok(h) => Ok(h),
        Err(_) => Err("Could not generate hash from password".to_owned()),
    }
}

impl User {
    /// Accepts exactly the passwords the stored hash verifies; everything
    /// else — a mismatch or an unreadable hash — is `Unallowed`.
    pub fn verify_password(&self, password: &str) -> (r: Result<(), Fault>)
        ensures
            bcrypt_verify_of(password@, self@.password) == Some(true) ==> r == Ok::<(), Fault>(()),
            bcrypt_verify_of(password@, self@.password) != Some(true) ==> r == Err::<(), Fault>(
                Fault::Unallowed,
            ),
    {
        match bcrypt_verify(password, self.password.as_str()) {
            Ok(true) => Ok(()),
            Ok(false) => Err(Fault::Unallowed),
            Err(_) => Err(Fault::Unallowed),
        }
    }

    /// Replaces the stored hash with one for the new password; every other
    /// field is untouched. A failure to hash leaves the record as it was.
    pub fn set_password(&mut self, password: &str) -> (r: Result<(), Fault>)
        ensures
            final(self).user_id == old(self).user_id,
            final(self).username@ == old(self).username@,
            final(self).admin == old(self).admin,
            final(self).blocked == old(self).blocked,
            r matches Ok(v) ==> bcrypt_verify_of(password@, final(self)@.password) == Some(true),
            r matches Err(f) ==> f == Fault::Unexpected && final(self).password@ == old(
                self,
            ).password@,
    {
        match hash_password(password) {
            Ok(h) => {
                self.password = h;
                Ok(())
            },
            Err(_) => Err(Fault::Unexpected),
        }
    }
}

/// The first record in `s` carrying `user_id`, if any.
pub open spec fn find_by_id_spec(s: Seq<UserV>, user_id: u128) -> Option<UserV>
    decreases s.len(),
{
    if s.len() == 0 {
        None
    } else if s[0].user_id == user_id {
        Some(s[0])
    } else {
        find_by_id_spec(s.skip(1), user_id)
    }
}

/// The first record in `s` carrying `username`, if any.
pub open spec fn find_by_name_spec(s: Seq<UserV>, username: Seq<char>) -> Option<UserV>
    decreases s.len(),
{
    if s.len() == 0 {
        None
    } else if s[0].username == username {
        Some(s[0])
    } else {
        find_by_name_spec(s.skip(1), username)
    }
}

proof fn lemma_find_by_id_hit(s: Seq<UserV>, user_id: u128, i: int)
    requires
        0 <= i < s.len(),
        s[i].user_id == user_id,
        forall|j: int| 0 <= j < i ==> s[j].user_id != user_id,
    ensures
        find_by_id_spec(s, user_id) == Some(s[i]),
    decreases i,
{
    if i > 0 {
        lemma_find_by_id_hit(s.skip(1), user_id, i - 1);
    }
}

proof fn lemma_find_by_id_miss(s: Seq<UserV>, user_id: u128)
    requires
        forall|j: int| 0 <= j < s.len() ==> s[j].user_id != user_id,
    ensures
        find_by_id_spec(s, user_id) == None::<UserV>,
    decreases s.len(),
{
    if s.len() > 0 {
        lemma_find_by_id_miss(s.skip(1), user_id);
    }
}

proof fn lemma_find_by_name_hit(s: Seq<UserV>, username: Seq<char>, i: int)
    requires
        0 <= i < s.len(),
        s[i].username == username,
        forall|j: int| 0 <= j < i ==> s[j].username != username,
    ensures
        find_by_name_spec(s, username) == Some(s[i]),
    decreases i,
{
    if i > 0 {
        lemma_find_by_name_hit(s.skip(1), username, i - 1);
    }
}

proof fn lemma_find_by_name_miss(s: Seq<UserV>, username: Seq<char>)
    requires
        forall|j: int| 0 <= j < s.len() ==> s[j].username != username,
    ensures
        find_by_name_spec(s, username) == None::<UserV>,
    decreases s.len(),
{
    if s.len() > 0 {
        lemma_find_by_name_miss(s.skip(1), username);
    }
}

/// The user-lookup capability the session core consumes: an in-memory
/// directory of user records, searched by id or by username.
pub struct UserDirectory {
    users: Vec<User>,
}

impl UserDirectory {
    /// The directory's records, in insertion order.
    pub closed spec fn records(self) -> Seq<UserV> {
        self.users@.map_values(|u: User| u@)
    }

    /// An empty directory.
    pub fn new() -> (dir: UserDirectory)
        ensures
            dir.records() == Seq::<UserV>::empty(),
    {
        let dir = UserDirectory { users: Vec::new() };
        proof {
            assert(dir.records() =~= Seq::<UserV>::empty());
        }
        dir
    }

    /// Appends a record.
    pub fn add_user(&mut self, user: User)
        ensures
            final(self).records() == old(self).records().push(user@),
    {
        let ghost v = user@;
        self.users.push(user);
        proof {
            assert(final(self).records() =~= old(self).records().push(v));
        }
    }

    /// The first record with this id, exactly as the lookup specification
    /// names it; `None` when no record carries the id.
    pub fn q_get_user_by_id(&self, user_id: u128) -> (r: Option<&User>)
        ensures
            match r {
                Some(u) => find_by_id_spec(self.records(), user_id) == Some(u@),
                None => find_by_id_spec(self.records(), user_id) == None::<UserV>,
            },
    {
        let n = self.users.len();
        let mut i: usize = 0;
        while i < n
            invariant
                n == self.users.len(),
                0 <= i <= n,
                forall|j: int| 0 <= j < i ==> self.records()[j].user_id != user_id,
            decreases n - i,
        {
            if self.users[i].user_id == user_id {
                proof {
                    lemma_find_by_id_hit(self.records(), user_id, i as int);
                }
                return Some(&self.users[i]);
            }
            i = i + 1;
        }
        proof {
            lemma_find_by_id_miss(self.records(), user_id);
        }
        None
    }

    /// The first record with this username, exactly as the lookup
    /// specification names it; `None` when no record carries the name.
    pub fn q_get_user_by_name(&self, username: &String) -> (r: Option<&User>)
        ensures
            match r {
                Some(u) => find_by_name_spec(self.records(), username@) == Some(u@),
                None => find_by_name_spec(self.records(), username@) == None::<UserV>,
            },
    {
        let n = self.users.len();
        let mut i: usize = 0;
        while i < n
            invariant
                n == self.users.len(),
                0 <= i <= n,
                forall|j: int| 0 <= j < i ==> self.records()[j].username != username@,
            decreases n - i,
        {
            if self.users[i].username.eq(username) {
                proof {
                    lemma_find_by_name_hit(self.records(), username@, i as int);
                }
                return Some(&self.users[i]);
            }
            i = i + 1;
        }
        proof {
            lemma_find_by_name_miss(self.records(), username@);
        }
        None
    }
}

} // verus!
