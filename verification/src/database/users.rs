//! Users of the service.
use vstd::prelude::*;

verus! {

/// Why a user could not be created.
pub enum UsersErrors {
    DuplicateUsername,
    Generic(sqlx::Error),
}

/// A stored user.
pub struct Users {
    pub username: String,
    pub password_hash: String,
    pub last_token: Option<String>,
}

/// What the service answers about a created user.
pub struct UsersDtoResult {
    pub username: String,
}

/// Why a user could not be read by name.
pub enum UsersGetByUsernameErrors {
    NotFound,
    Generic(sqlx::Error),
}

/// The MySQL error number of a duplicate key.
pub const DUPLICATE_ENTRY: u16 = 1062;

/// The outcome of inserting `user`. `mysql_code` is the MySQL error number
/// of a failed insert, where the failure came from the database server:
/// a duplicate key means the name is taken.
pub fn create_result(user: Users, inserted: Result<(), sqlx::Error>, mysql_code: Option<u16>) -> (r: Result<UsersDtoResult, UsersErrors>)
    ensures
        match inserted {
            Ok(_) => r matches Ok(u) && u.username == user.username,
            Err(e) => if mysql_code == Some(DUPLICATE_ENTRY) {
                r matches Err(UsersErrors::DuplicateUsername)
            } else {
                r == Err::<UsersDtoResult, UsersErrors>(UsersErrors::Generic(e))
            },
        },
{
    match inserted {
        Ok(()) => Ok(UsersDtoResult { username: user.username }),
        Err(e) => {
            if mysql_code == Some(DUPLICATE_ENTRY) {
                Err(UsersErrors::DuplicateUsername)
            } else {
                Err(UsersErrors::Generic(e))
            }
        },
    }
}

/// The user a row of the users table describes: name, password hash and
/// last session token, in the table's column order.
pub open spec fn user_of_row(row: (String, String, Option<String>)) -> Users {
    Users { username: row.0, password_hash: row.1, last_token: row.2 }
}

/// A user looked up by name: `Err(None)` stands for no such row.
pub fn get_by_username_result(row: Result<(String, String, Option<String>), Option<sqlx::Error>>) -> (r: Result<Users, UsersGetByUsernameErrors>)
    ensures
        match row {
            Ok(t) => r == Ok::<Users, UsersGetByUsernameErrors>(user_of_row(t)),
            Err(None) => r matches Err(UsersGetByUsernameErrors::NotFound),
            Err(Some(e)) => r == Err::<Users, UsersGetByUsernameErrors>(UsersGetByUsernameErrors::Generic(e)),
        },
{
    match row {
        Ok((username, password_hash, last_token)) => Ok(Users { username, password_hash, last_token }),
        Err(None) => Err(UsersGetByUsernameErrors::NotFound),
        Err(Some(e)) => Err(UsersGetByUsernameErrors::Generic(e)),
    }
}

/// The user whose last session token was looked up.
pub fn get_by_token_result(row: Result<(String, String, Option<String>), sqlx::Error>) -> (r: Result<Users, sqlx::Error>)
    ensures
        match row {
            Ok(t) => r == Ok::<Users, sqlx::Error>(user_of_row(t)),
            Err(e) => r == Err::<Users, sqlx::Error>(e),
        },
{
    match row {
        Ok((username, password_hash, last_token)) => Ok(Users { username, password_hash, last_token }),
        Err(e) => Err(e),
    }
}

} // verus!
