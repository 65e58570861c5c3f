//! The credential store: the known users, keyed by username, each with the
//! bcrypt hash of its password.

use vstd::prelude::*;

use crate::config::{require, ConfigError, Setting};
use crate::text::same_text;

verus! {

/// The id that every provisioned account carries. Accounts are told apart by
/// username, which is the key of the store.
pub const ACCOUNT_ID: u32 = 1;

/// The error type of the bcrypt crate.
#[verifier::external_type_specification]
#[verifier::external_body]
pub struct ExBcryptError(bcrypt::BcryptError);

/// What `bcrypt::verify` returns for a password and a stored hash:
/// `Some(accepted)` where it returns `Ok(accepted)`, `None` where it fails
/// (the hash is not a bcrypt hash string).
pub uninterp spec fn password_verdict(password: Seq<char>, hash: Seq<char>) -> Option<bool>;

/// Calls `bcrypt::hash` with the crate's default cost. The salt is drawn at
/// random, so two calls on one password differ. Whatever hash comes back,
/// `bcrypt::verify` accepts the same password against it: it reads cost and
/// salt back from the hash string and repeats the computation.
#[verifier::external_body]
fn hash_password(password: &str) -> (r: Result<String, bcrypt::BcryptError>)
    ensures
        r matches Ok(hash) ==> password_verdict(password@, hash@) == Some(true),
{
    bcrypt::hash(password, bcrypt::DEFAULT_COST)
}

/// Calls `bcrypt::verify`, whose result depends on its two arguments alone.
#[verifier::external_body]
fn verify_password(password: &str, hash: &str) -> (r: Result<bool, bcrypt::BcryptError>)
    ensures
        match r {
            Ok(accepted) => password_verdict(password@, hash@) == Some(accepted),
            Err(_) => password_verdict(password@, hash@) is None,
        },
{
    bcrypt::verify(password, hash)
}

/// A known user.
#[derive(Debug, PartialEq, Eq)]
pub struct User {
    pub id: u32,
    pub username: String,
    pub password_hash: String,
}

/// A user as contracts see it.
pub struct UserView {
    pub id: u32,
    pub username: Seq<char>,
    pub password_hash: Seq<char>,
}

impl View for User {
    type V = UserView;

    open spec fn view(&self) -> UserView {
        UserView { id: self.id, username: self.username@, password_hash: self.password_hash@ }
    }
}

impl Clone for User {
    fn clone(&self) -> (r: Self)
        ensures
            r@ == self@,
    {
        User {
            id: self.id,
            username: self.username.clone(),
            password_hash: self.password_hash.clone(),
        }
    }
}

impl User {
    /// Whether `password` is the password of this user: bcrypt's verdict on
    /// it against the stored hash.
    pub fn check_password(&self, password: &str) -> (r: Option<bool>)
        ensures
            r == password_verdict(password@, self.password_hash@),
    {
        match verify_password(password, self.password_hash.as_str()) {
            Ok(accepted) => Some(accepted),
            Err(_) => None,
        }
    }
}

/// The account that registration stores for a username and a password hash.
pub open spec fn account(username: Seq<char>, password_hash: Seq<char>) -> UserView {
    UserView { id: ACCOUNT_ID, username, password_hash }
}

/// What a registration of `username` with `password` guarantees: on
/// success the store holds the account with a hash that the password
/// verifies against, in place of any account of that name; on failure, which
/// is a failure to hash, the store is as it was.
pub open spec fn registration(
    before: Map<Seq<char>, UserView>,
    after: Map<Seq<char>, UserView>,
    r: Result<(), ConfigError>,
    username: Seq<char>,
    password: Seq<char>,
) -> bool {
    match r {
        Ok(_) => exists|hash: Seq<char>|
            #[trigger] password_verdict(password, hash) == Some(true) && after == before.insert(
                username,
                account(username, hash),
            ),
        Err(e) => e == ConfigError::HashingFailed && after == before,
    }
}

/// Position of the user called `name`, if one is stored.
pub open spec fn holds_at(users: Seq<User>, name: Seq<char>, i: int) -> bool {
    0 <= i < users.len() && users[i].username@ == name
}

/// No username occurs twice.
pub open spec fn distinct_names(users: Seq<User>) -> bool {
    forall|i: int, j: int|
        0 <= i < j < users.len() ==> users[i].username@ != users[j].username@
}

/// The map from username to user that a list of users with distinct names
/// stands for.
pub open spec fn as_map(users: Seq<User>) -> Map<Seq<char>, UserView> {
    Map::new(
        |name: Seq<char>| exists|i: int| holds_at(users, name, i),
        |name: Seq<char>| users[choose|i: int| holds_at(users, name, i)]@,
    )
}

/// Putting a user in the place of the one of the same name keeps the names
/// distinct and changes that one entry of the map.
pub proof fn lemma_replaced(users: Seq<User>, i: int, user: User)
    requires
        distinct_names(users),
        holds_at(users, user.username@, i),
    ensures
        distinct_names(users.update(i, user)),
        as_map(users.update(i, user)) == as_map(users).insert(user.username@, user@),
{
    let after = users.update(i, user);
    assert forall|name: Seq<char>, j: int| holds_at(after, name, j) <==> holds_at(users, name, j) by {
        if 0 <= j < users.len() && j != i {
            assert(after[j] == users[j]);
        }
    }
    assert forall|name: Seq<char>| #[trigger]
        as_map(after).dom().contains(name) implies as_map(after)[name] == as_map(users).insert(
        user.username@,
        user@,
    )[name] by {
        let j = choose|j: int| holds_at(after, name, j);
        assert(holds_at(users, name, j));
        assert(j == choose|j: int| holds_at(users, name, j));
        if name == user.username@ {
            assert(j == i);
        }
    }
    assert(as_map(after) =~= as_map(users).insert(user.username@, user@));
}

/// Adding a user of a new name at the end keeps the names distinct and adds
/// one entry to the map.
pub proof fn lemma_appended(users: Seq<User>, user: User)
    requires
        distinct_names(users),
        forall|i: int| !holds_at(users, user.username@, i),
    ensures
        distinct_names(users.push(user)),
        as_map(users.push(user)) == as_map(users).insert(user.username@, user@),
        !as_map(users).contains_key(user.username@),
{
    let after = users.push(user);
    let n = users.len() as int;
    assert forall|a: int, b: int| 0 <= a < b < after.len() implies after[a].username@
        != after[b].username@ by {
        if b == n {
            assert(!holds_at(users, user.username@, a));
        }
    }
    assert forall|name: Seq<char>|
        as_map(after).dom().contains(name) <==> as_map(users).insert(
            user.username@,
            user@,
        ).dom().contains(name) by {
        if as_map(after).dom().contains(name) {
            let j = choose|j: int| holds_at(after, name, j);
            if j < n {
                assert(holds_at(users, name, j));
            }
        }
        if as_map(users).dom().contains(name) {
            let j = choose|j: int| holds_at(users, name, j);
            assert(holds_at(after, name, j));
        }
        if name == user.username@ {
            assert(holds_at(after, name, n));
        }
    }
    assert forall|name: Seq<char>| #[trigger]
        as_map(after).dom().contains(name) implies as_map(after)[name] == as_map(users).insert(
        user.username@,
        user@,
    )[name] by {
        let j = choose|j: int| holds_at(after, name, j);
        if name == user.username@ {
            assert(holds_at(after, name, n));
            assert(j == n);
        } else {
            assert(holds_at(users, name, j));
            assert(j == choose|j: int| holds_at(users, name, j));
        }
    }
    assert(as_map(after) =~= as_map(users).insert(user.username@, user@));
}

/// A list of users with distinct names stands for a map with one entry for
/// each of them.
pub proof fn lemma_one_entry_each(users: Seq<User>)
    requires
        distinct_names(users),
    ensures
        as_map(users).dom().finite(),
        as_map(users).dom().len() == users.len(),
    decreases users.len(),
{
    if users.len() == 0 {
        assert(as_map(users).dom() =~= Set::<Seq<char>>::empty());
    } else {
        let front = users.drop_last();
        let last = users.last();
        lemma_one_entry_each(front);
        assert forall|i: int| !holds_at(front, last.username@, i) by {
            if holds_at(front, last.username@, i) {
                assert(users[i].username@ == users[front.len() as int].username@);
            }
        }
        lemma_appended(front, last);
        assert(front.push(last) =~= users);
    }
}

/// The set of known users.
pub struct CredentialStore {
    users: Vec<User>,
}

impl CredentialStore {
    /// The invariant of the store: no username occurs twice.
    pub closed spec fn wf(&self) -> bool {
        distinct_names(self.users@)
    }

    /// The store as a map from username to user.
    pub closed spec fn view(&self) -> Map<Seq<char>, UserView> {
        as_map(self.users@)
    }

    /// A store without users.
    pub fn new() -> (r: Self)
        ensures
            r.wf(),
            r@ == Map::<Seq<char>, UserView>::empty(),
    {
        let r = CredentialStore { users: Vec::new() };
        assert(r@ =~= Map::<Seq<char>, UserView>::empty());
        r
    }

    /// The number of known users.
    pub fn len(&self) -> (r: usize)
        requires
            self.wf(),
        ensures
            self@.dom().finite(),
            r == self@.dom().len(),
    {
        proof {
            lemma_one_entry_each(self.users@);
        }
        self.users.len()
    }

    /// Index of the user called `username`.
    fn position(&self, username: &str) -> (r: Option<usize>)
        ensures
            match r {
                Some(i) => holds_at(self.users@, username@, i as int),
                None => forall|i: int| !holds_at(self.users@, username@, i),
            },
    {
        let mut i: usize = 0;
        while i < self.users.len()
            invariant
                i <= self.users.len(),
                forall|k: int| 0 <= k < i ==> !holds_at(self.users@, username@, k),
            decreases self.users.len() - i,
        {
            if same_text(self.users[i].username.as_str(), username) {
                return Some(i);
            }
            i += 1;
        }
        None
    }

    /// Every user is stored under its own username.
    pub proof fn lemma_keyed_by_username(&self)
        requires
            self.wf(),
        ensures
            forall|name: Seq<char>| #[trigger]
                self@.contains_key(name) ==> self@[name].username == name,
    {
        assert forall|name: Seq<char>| #[trigger] self@.contains_key(name) implies self@[name].username
            == name by {
            let j = choose|j: int| holds_at(self.users@, name, j);
            assert(holds_at(self.users@, name, j));
        }
    }

    /// The user called `username`, if the store knows one.
    pub fn lookup(&self, username: &str) -> (r: Option<User>)
        requires
            self.wf(),
        ensures
            match r {
                Some(user) => self@.contains_key(username@) && user@ == self@[username@]
                    && user.username@ == username@,
                None => !self@.contains_key(username@),
            },
    {
        match self.position(username) {
            Some(i) => {
                let user = self.users[i].clone();
                proof {
                    let j = choose|j: int| holds_at(self.users@, username@, j);
                    assert(j == i);
                }
                Some(user)
            },
            None => None,
        }
    }

    /// Hashes `plaintext_password` with a fresh salt and stores the account
    /// under `username`, in place of any account of that name. The stored
    /// hash is one that the password verifies against. Fails, and changes
    /// nothing, where the hash cannot be computed.
    pub fn add_account(&mut self, username: &str, plaintext_password: &str) -> (r: Result<(), ConfigError>)
        requires
            old(self).wf(),
        ensures
            final(self).wf(),
            registration(old(self)@, final(self)@, r, username@, plaintext_password@),
    {
        let hashed = hash_password(plaintext_password);
        self.enroll(username, hashed)
    }

    /// Registers the account that the configuration names. Where the
    /// username is absent, or else the password, fails with that setting
    /// and changes nothing; otherwise hashes the password and stores the
    /// account.
    pub fn register(&mut self, username: Option<String>, plaintext_password: Option<String>) -> (r: Result<(), ConfigError>)
        requires
            old(self).wf(),
        ensures
            final(self).wf(),
            match (username, plaintext_password) {
                (None, _) => r == Err::<(), ConfigError>(ConfigError::MissingEnv(Setting::Username))
                    && final(self)@ == old(self)@,
                (Some(_), None) => r == Err::<(), ConfigError>(
                    ConfigError::MissingEnv(Setting::Password),
                ) && final(self)@ == old(self)@,
                (Some(name), Some(plaintext)) => registration(
                    old(self)@,
                    final(self)@,
                    r,
                    name@,
                    plaintext@,
                ),
            },
    {
        let name = require(username, Setting::Username)?;
        let plaintext = require(plaintext_password, Setting::Password)?;
        self.add_account(name.as_str(), plaintext.as_str())
    }

    /// Stores the account `username` with the hash that hashing gave, or
    /// fails with `HashingFailed`, and changes nothing, where it gave none.
    pub fn enroll(&mut self, username: &str, hashed: Result<String, bcrypt::BcryptError>) -> (r: Result<(), ConfigError>)
        requires
            old(self).wf(),
        ensures
            final(self).wf(),
            match hashed {
                Ok(hash) => r is Ok && final(self)@ == old(self)@.insert(
                    username@,
                    account(username@, hash@),
                ),
                Err(_) => r == Err::<(), ConfigError>(ConfigError::HashingFailed) && final(self)@ == old(
                    self,
                )@,
            },
    {
        match hashed {
            Ok(password_hash) => {
                self.insert(User { id: ACCOUNT_ID, username: username.to_owned(), password_hash });
                Ok(())
            },
            Err(_) => Err(ConfigError::HashingFailed),
        }
    }

    /// Stores `user` under its username, in place of any user of that name.
    pub fn insert(&mut self, user: User)
        requires
            old(self).wf(),
        ensures
            final(self).wf(),
            final(self)@ == old(self)@.insert(user.username@, user@),
    {
        match self.position(user.username.as_str()) {
            Some(i) => {
                proof {
                    lemma_replaced(self.users@, i as int, user);
                }
                self.users.set(i, user);
            },
            None => {
                proof {
                    lemma_appended(self.users@, user);
                }
                self.users.push(user);
            },
        }
    }
}

} // verus!
