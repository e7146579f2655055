//! `/apps`: creating, listing and renaming a user's applications.
use vstd::prelude::*;
use crate::controllers::{check_length, length_within, LengthViolation, Reply};
use crate::database::apps::{Apps, AppsDto, AppsUpdateError};
use crate::extractors::UserAuthentication;
use crate::http::{CREATED, NOT_FOUND, OK, UNPROCESSABLE_ENTITY};
use crate::jwt::JwtClaims;

verus! {

/// The body of a create or rename request.
pub struct AppDto {
    pub name: String,
}

impl AppDto {
    /// A valid name has 1 to 255 characters.
    pub open spec fn is_valid(self) -> bool {
        length_within(self.name@, Some(1), Some(255))
    }

    /// The constraints the request breaks; none when it is valid.
    pub fn validate(&self) -> (r: Result<(), Vec<LengthViolation>>)
        ensures
            r is Ok <==> self.is_valid(),
            r matches Err(v) ==> v@.len() == 1 && v@[0].field@ == "name"@ && v@[0].min == Some(1u64)
                && v@[0].max == Some(255u64)
                && (v@[0].message matches Some(m) && m@ == "Name must be between 1 and 255 characters"@),
    {
        let mut v: Vec<LengthViolation> = Vec::new();
        check_length(&mut v, "name", self.name.as_str(), Some(1), Some(255), Some("Name must be between 1 and 255 characters"));
        if v.len() == 0 {
            Ok(())
        } else {
            Err(v)
        }
    }
}

/// What a valid create request stores: the name, owned by the caller.
pub fn create_start(user: &UserAuthentication, app: AppDto) -> (r: Result<AppsDto, Reply<Apps, sqlx::Error>>)
    ensures
        match r {
            Ok(d) => app.is_valid() && d.name == app.name && d.owner == user.username,
            Err(reply) => !app.is_valid() && (reply matches Reply::Invalid(s, _) && s == UNPROCESSABLE_ENTITY),
        },
{
    match app.validate() {
        Err(v) => Err(Reply::Invalid(UNPROCESSABLE_ENTITY, v)),
        Ok(()) => Ok(AppsDto { name: app.name, owner: user.username.clone() }),
    }
}

/// The answer to a create request: the created application with 201.
pub fn create_reply(result: Result<Apps, sqlx::Error>) -> (r: Reply<Apps, sqlx::Error>)
    ensures
        match result {
            Ok(a) => r == Reply::<Apps, sqlx::Error>::Json(CREATED, a),
            Err(e) => r == Reply::<Apps, sqlx::Error>::Failed(e),
        },
{
    match result {
        Ok(a) => Reply::Json(CREATED, a),
        Err(e) => Reply::Failed(e),
    }
}

/// The answer to a listing: the user's applications with 200.
pub fn list_reply(result: Result<Vec<Apps>, sqlx::Error>) -> (r: Reply<Vec<Apps>, sqlx::Error>)
    ensures
        match result {
            Ok(a) => r == Reply::<Vec<Apps>, sqlx::Error>::Json(OK, a),
            Err(e) => r == Reply::<Vec<Apps>, sqlx::Error>::Failed(e),
        },
{
    match result {
        Ok(a) => Reply::Json(OK, a),
        Err(e) => Reply::Failed(e),
    }
}

/// What a valid rename request stores: the application `id` with the new
/// name, owned by the caller.
pub fn update_start(user: &UserAuthentication, id: i32, app: AppDto) -> (r: Result<Apps, Reply<Apps, sqlx::Error>>)
    ensures
        match r {
            Ok(a) => app.is_valid() && a.id == id && a.name == app.name && a.owner == user.username,
            Err(reply) => !app.is_valid() && (reply matches Reply::Invalid(s, _) && s == UNPROCESSABLE_ENTITY),
        },
{
    match app.validate() {
        Err(v) => Err(Reply::Invalid(UNPROCESSABLE_ENTITY, v)),
        Ok(()) => Ok(Apps { id, name: app.name, owner: user.username.clone() }),
    }
}

/// The answer to a rename: the renamed application, or 404 when the user
/// has no such application.
pub fn update_reply(result: Result<Apps, AppsUpdateError>) -> (r: Reply<Apps, sqlx::Error>)
    ensures
        match result {
            Ok(a) => r == Reply::<Apps, sqlx::Error>::Json(OK, a),
            Err(AppsUpdateError::NotFound) => r == Reply::<Apps, sqlx::Error>::Empty(NOT_FOUND),
            Err(AppsUpdateError::Generic(e)) => r == Reply::<Apps, sqlx::Error>::Failed(e),
        },
{
    match result {
        Ok(a) => Reply::Json(OK, a),
        Err(AppsUpdateError::NotFound) => Reply::Empty(NOT_FOUND),
        Err(AppsUpdateError::Generic(e)) => Reply::Failed(e),
    }
}

/// The body of the session check route: the user name of the session.
pub fn index(user: &JwtClaims) -> (r: String)
    ensures
        r == user.username,
{
    user.username.clone()
}


/// An application name is valid exactly when it has between 1 and 255
/// characters, whatever those characters are.
pub proof fn application_name_validity_is_its_length(d: AppDto)
    ensures
        d.is_valid() <==> 1 <= d.name@.len() <= 255,
{
}

} // verus!
