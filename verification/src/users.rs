//! The user workload: accounts with random names.

use crate::clock::now;
use crate::entropy::{alphanumeric_string, is_alphanumeric, is_random_key, random_key};
use crate::payload::{ReadPayload, WritePayload};
use vstd::prelude::*;

verus! {

pub const DDL_USERS: &'static str = r#"
    CREATE KEYSPACE IF NOT EXISTS skylar WITH replication =
    {'class': 'NetworkTopologyStrategy', 'replication_factor': <RF>};

    USE skylar;
    CREATE TABLE IF NOT EXISTS skylar.users
    (
        user_id    uuid PRIMARY KEY,
        username   text,
        email      text,
        created_at timestamp
    )
"#;

pub const INSERT_USER: &'static str = "
    INSERT INTO skylar.users
    (
        user_id,
        username,
        email,
        created_at
    )
    VALUES (?, ?, ?, ?)
";

pub const SELECT_USER: &'static str = "
    SELECT
        user_id,
        username,
        email,
        created_at
    FROM skylar.users
    WHERE user_id = ?
";

/// Number of characters in a user's name and before the `@` of the address.
pub const NAME_LENGTH: usize = 8;

/// A name: `NAME_LENGTH` ASCII letters and digits.
pub open spec fn is_name(name: Seq<char>) -> bool {
    &&& name.len() == NAME_LENGTH
    &&& forall|i: int| 0 <= i < name.len() ==> is_alphanumeric(#[trigger] name[i])
}

/// Whether an address is a name at the domain `example.com`.
pub open spec fn is_address(email: Seq<char>) -> bool {
    exists|local: Seq<char>| is_name(local) && email == #[trigger] (local + "@example.com"@)
}

/// An account.
#[derive(Debug, Clone)]
pub struct User {
    pub user_id: u128,
    pub username: String,
    pub email: String,
    /// Milliseconds since the start of 1970.
    pub created_at: i64,
}

/// The identifier that an account is read by.
#[derive(Debug, Clone)]
pub struct UserValues {
    pub user_id: u128,
}

impl User {
    /// Generates an account that was created at `created_at`.
    pub fn at(created_at: i64) -> (user: User)
        ensures
            <User as WritePayload>::generated(&(), &user),
            user.created_at == created_at,
    {
        let username: String = alphanumeric_string(NAME_LENGTH);
        let mut email: String = alphanumeric_string(NAME_LENGTH);
        let ghost local = email@;
        email.append("@example.com");
        assert(is_name(local) && email@ == local + "@example.com"@);
        User { user_id: random_key(), username, email, created_at }
    }
}

impl WritePayload for User {
    type Keys = ();

    open spec fn insert_text() -> Seq<char> {
        INSERT_USER@
    }

    /// The identifier is random, the name is a name and the address is a
    /// name at `example.com`.
    open spec fn generated(keys: &(), user: &User) -> bool {
        &&& is_random_key(user.user_id)
        &&& is_name(user.username@)
        &&& is_address(user.email@)
    }

    fn insert_query() -> (query: &'static str) {
        INSERT_USER
    }

    fn insert_values(keys: &()) -> (user: User) {
        User::at(now().millis)
    }
}

impl ReadPayload for UserValues {
    type Keys = ();

    open spec fn select_text() -> Seq<char> {
        SELECT_USER@
    }

    /// A read asks for a random account.
    open spec fn generated(keys: &(), values: &UserValues) -> bool {
        is_random_key(values.user_id)
    }

    fn select_query() -> (query: &'static str) {
        SELECT_USER
    }

    fn select_values(keys: &()) -> (values: UserValues) {
        UserValues { user_id: random_key() }
    }
}

} // verus!
