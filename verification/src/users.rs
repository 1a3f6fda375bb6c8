//! The user directory: accounts by email, as the session flows see them.
//!
//! [`UserRepository`] is the contract of a directory; a datastore-backed
//! directory implements it outside this library. [`InMemoryUserRepository`]
//! is the directory held in memory.

use crate::error::StorageError;
use vstd::prelude::*;

verus! {

/// What a client sends to register or to log in.
#[derive(Debug, Clone)]
pub struct UserPayload {
    pub email: String,
    pub username: String,
    pub password: String,
}

/// A registered account. `password` is the hash, never the plain text.
#[derive(Debug, Clone)]
pub struct User {
    pub id: i32,
    pub email: String,
    pub username: String,
    pub password: String,
}

/// An account as plain values.
pub struct UserView {
    pub id: int,
    pub email: Seq<char>,
    pub username: Seq<char>,
    pub password: Seq<char>,
}

impl View for User {
    type V = UserView;

    open spec fn view(&self) -> UserView {
        UserView {
            id: self.id as int,
            email: self.email@,
            username: self.username@,
            password: self.password@,
        }
    }
}

impl User {
    /// An account of the given values.
    pub fn new(id: i32, email: String, username: String, password: String) -> (r: Self)
        ensures
            r.id == id,
            r.email == email,
            r.username == username,
            r.password == password,
    {
        Self { id, email, username, password }
    }
}

/// The accounts of a directory, in the order in which they were added.
pub type UserList = Seq<UserView>;

/// Some account has this email.
pub open spec fn has_email(users: Seq<UserView>, email: Seq<char>) -> bool {
    exists|i: int| 0 <= i < users.len() && (#[trigger] users[i]).email == email
}

/// Some account has this email or this username.
pub open spec fn taken(users: Seq<UserView>, email: Seq<char>, username: Seq<char>) -> bool {
    exists|i: int|
        0 <= i < users.len() && ((#[trigger] users[i]).email == email || users[i].username
            == username)
}

/// The account with this email, if there is one.
pub open spec fn account(users: Seq<UserView>, email: Seq<char>) -> Option<UserView> {
    if has_email(users, email) {
        Some(users[choose|i: int| 0 <= i < users.len() && (#[trigger] users[i]).email == email])
    } else {
        None
    }
}

/// No two accounts share an email or a username.
pub open spec fn unique_accounts(users: Seq<UserView>) -> bool {
    forall|i: int, j: int|
        0 <= i < j < users.len() ==> (#[trigger] users[i]).email != (#[trigger] users[j]).email
            && users[i].username != users[j].username
}

/// `after` is `before` with one more account, which has the given email,
/// username and password hash.
pub open spec fn registered(
    before: Seq<UserView>,
    after: Seq<UserView>,
    email: Seq<char>,
    username: Seq<char>,
    password: Seq<char>,
) -> bool {
    &&& after.len() == before.len() + 1
    &&& after.drop_last() == before
    &&& after.last().email == email
    &&& after.last().username == username
    &&& after.last().password == password
}

/// A directory of accounts.
///
/// A directory that is `reliable` fails only where its contract says so; one
/// that is not may fail at any call, and then holds what it held before.
pub trait UserRepository {
    /// The accounts held.
    spec fn users(&self) -> UserList;

    /// The directory's own invariant.
    spec fn valid(&self) -> bool;

    /// The directory fails only on a taken email or username.
    spec fn reliable(&self) -> bool;

    /// Whether both the email and the username are free.
    fn check_user_email_username(&self, email: &str, username: &str) -> (r: Result<
        bool,
        StorageError,
    >)
        requires
            self.valid(),
        ensures
            r matches Ok(free) ==> free == !taken(self.users(), email@, username@),
            self.reliable() ==> r is Ok,
    ;

    /// Adds an account. A taken email or username is refused.
    fn add_user(&mut self, user: &UserPayload) -> (r: Result<(), StorageError>)
        requires
            old(self).valid(),
        ensures
            final(self).valid(),
            final(self).reliable() == old(self).reliable(),
            r is Ok ==> !taken(old(self).users(), user.email@, user.username@) && registered(
                old(self).users(),
                final(self).users(),
                user.email@,
                user.username@,
                user.password@,
            ),
            r is Err ==> final(self).users() == old(self).users(),
            old(self).reliable() && !taken(old(self).users(), user.email@, user.username@) && old(self).users().len() < i32::MAX ==> r is Ok,
    ;

    /// The account with this email; `RowNotFound` where there is none.
    fn get_user_by_email(&self, email: &str) -> (r: Result<User, StorageError>)
        requires
            self.valid(),
        ensures
            r matches Ok(u) ==> account(self.users(), email@) == Some(u@),
            r matches Err(StorageError::RowNotFound) ==> account(self.users(), email@) is None,
            self.reliable() ==> !(r matches Err(StorageError::Database(_))),
    ;
}

/// The accounts that a list of records stands for.
pub open spec fn views_of(s: Seq<User>) -> Seq<UserView> {
    Seq::new(s.len(), |i: int| s[i]@)
}

/// A user directory held in memory. Identifiers count up from one.
pub struct InMemoryUserRepository {
    records: Vec<User>,
}

impl InMemoryUserRepository {
    /// An empty directory.
    pub fn new() -> (r: Self)
        ensures
            r.valid(),
            r.reliable(),
            r.users().len() == 0,
    {
        Self { records: Vec::new() }
    }

    /// The number of accounts.
    pub fn len(&self) -> (r: usize)
        ensures
            r == self.users().len(),
    {
        self.records.len()
    }

    /// The place of the first record with this email or, where `username` is
    /// given, this username.
    fn position(&self, email: &String, username: Option<&String>) -> (r: Option<usize>)
        ensures
            r matches Some(i) ==> i < self.records@.len() && (self.records@[i as int].email@
                == email@ || (username matches Some(name) && self.records@[i as int].username@
                == name@)),
            r is None ==> forall|j: int|
                0 <= j < self.records@.len() ==> (#[trigger] self.records@[j]).email@ != email@
                    && (username matches Some(name) ==> self.records@[j].username@ != name@),
    {
        let mut i: usize = 0;
        while i < self.records.len()
            invariant
                i <= self.records@.len(),
                forall|j: int|
                    0 <= j < i ==> (#[trigger] self.records@[j]).email@ != email@ && (
                    username matches Some(name) ==> self.records@[j].username@ != name@),
            decreases self.records@.len() - i,
        {
            let same_email = self.records[i].email == *email;
            let same_name = match username {
                Some(name) => self.records[i].username == *name,
                None => false,
            };
            if same_email || same_name {
                return Some(i);
            }
            i += 1;
        }
        None
    }
}

impl UserRepository for InMemoryUserRepository {
    closed spec fn users(&self) -> UserList {
        views_of(self.records@)
    }

    closed spec fn valid(&self) -> bool {
        unique_accounts(views_of(self.records@))
    }

    open spec fn reliable(&self) -> bool {
        true
    }

    fn check_user_email_username(&self, email: &str, username: &str) -> (r: Result<
        bool,
        StorageError,
    >) {
        let email = email.to_owned();
        let username = username.to_owned();
        let found = self.position(&email, Some(&username));
        proof {
            let users = views_of(self.records@);
            if let Some(i) = found {
                assert(users[i as int].email == email@ || users[i as int].username == username@);
            } else {
                assert forall|j: int| 0 <= j < users.len() implies !((#[trigger] users[j]).email
                    == email@ || users[j].username == username@) by {
                    assert(users[j] == self.records@[j]@);
                }
            }
        }
        Ok(found.is_none())
    }

    fn add_user(&mut self, user: &UserPayload) -> (r: Result<(), StorageError>)
        ensures
            r is Ok ==> final(self).users().last().id == old(self).users().len() + 1,
    {
        let found = self.position(&user.email, Some(&user.username));
        let ghost before = views_of(self.records@);
        proof {
            if let Some(i) = found {
                assert(before[i as int].email == user.email@ || before[i as int].username
                    == user.username@);
            } else {
                assert forall|j: int| 0 <= j < before.len() implies !((#[trigger] before[j]).email
                    == user.email@ || before[j].username == user.username@) by {
                    assert(before[j] == self.records@[j]@);
                }
            }
        }
        if found.is_some() {
            return Err(StorageError::Database("email or username already in use".to_owned()));
        }
        if self.records.len() >= i32::MAX as usize {
            return Err(StorageError::Database("the directory is full".to_owned()));
        }
        let id = (self.records.len() + 1) as i32;
        let record = User::new(
            id,
            user.email.clone(),
            user.username.clone(),
            user.password.clone(),
        );
        self.records.push(record);
        proof {
            let after = views_of(self.records@);
            assert(after.drop_last() =~= before);
            assert forall|i: int, j: int| 0 <= i < j < after.len() implies (#[trigger] after[i]).email
                != (#[trigger] after[j]).email && after[i].username != after[j].username by {
                assert(after[i] == before[i]);
                if j < before.len() {
                    assert(after[j] == before[j]);
                }
            }
        }
        Ok(())
    }

    fn get_user_by_email(&self, email: &str) -> (r: Result<User, StorageError>) {
        let email = email.to_owned();
        let found = self.position(&email, None);
        let ghost users = views_of(self.records@);
        match found {
            Some(i) => {
                let record = &self.records[i];
                let user = User::new(
                    record.id,
                    record.email.clone(),
                    record.username.clone(),
                    record.password.clone(),
                );
                proof {
                    assert(users[i as int] == user@);
                    assert(has_email(users, email@));
                    let j = choose|j: int|
                        0 <= j < users.len() && (#[trigger] users[j]).email == email@;
                    if j < i {
                        assert(users[j].email != users[i as int].email);
                    } else if i < j {
                        assert(users[i as int].email != users[j].email);
                    }
                }
                Ok(user)
            },
            None => {
                proof {
                    if has_email(users, email@) {
                        let j = choose|j: int|
                            0 <= j < users.len() && (#[trigger] users[j]).email == email@;
                        assert(users[j] == self.records@[j]@);
                    }
                }
                Err(StorageError::RowNotFound)
            },
        }
    }
}

} // verus!
