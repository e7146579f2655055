//! `/apps/{id}/tokens`: creating and listing the tokens of an application.
use vstd::prelude::*;
use crate::controllers::{check_length, length_within, LengthViolation, Reply};
use crate::database::app_tokens::{AppTokenError, AppTokens};
use crate::http::{BAD_REQUEST, CREATED, NOT_FOUND, OK, UNAUTHORIZED};

verus! {

/// The body of a token creation request.
pub struct AppTokensDto {
    pub permit_cors: bool,
    pub subapp_name: Option<String>,
}

/// The query of a token listing.
pub struct AppTokensListQuery {
    pub subapp: Option<String>,
}

/// Why a token could not be made or stored.
pub enum TokenFailure {
    Cuid(cuid::CuidError),
    Database(sqlx::Error),
}

impl AppTokensDto {
    /// A sub-application name, when given, has at most 255 characters.
    pub open spec fn is_valid(self) -> bool {
        self.subapp_name matches Some(n) ==> length_within(n@, None, Some(255))
    }

    /// The constraints the request breaks; none when it is valid.
    pub fn validate(&self) -> (r: Result<(), Vec<LengthViolation>>)
        ensures
            r is Ok <==> self.is_valid(),
            r matches Err(v) ==> v@.len() == 1 && v@[0].field@ == "subapp_name"@ && v@[0].min is None
                && v@[0].max == Some(255u64)
                && (v@[0].message matches Some(m) && m@ == "Subapp name must be less than 255 characters"@),
    {
        let mut v: Vec<LengthViolation> = Vec::new();
        match &self.subapp_name {
            Some(n) => check_length(&mut v, "subapp_name", n.as_str(), None, Some(255), Some("Subapp name must be less than 255 characters")),
            None => {},
        }
        if v.len() == 0 {
            Ok(())
        } else {
            Err(v)
        }
    }
}

/// A creation request is answered 400 when invalid.
pub fn create_check(form: &AppTokensDto) -> (r: Result<(), Reply<AppTokens, TokenFailure>>)
    ensures
        r is Ok <==> form.is_valid(),
        r matches Err(reply) ==> reply matches Reply::Invalid(s, _) && s == BAD_REQUEST,
{
    match form.validate() {
        Ok(()) => Ok(()),
        Err(v) => Err(Reply::Invalid(BAD_REQUEST, v)),
    }
}

/// The token to store for application `app_id`, given the freshly made token
/// value; a failure to make one is answered 500.
pub fn create_token_record(app_id: i32, form: AppTokensDto, made: Result<String, cuid::CuidError>) -> (r: Result<AppTokens, Reply<AppTokens, TokenFailure>>)
    ensures
        match made {
            Ok(t) => r matches Ok(rec) && rec.token == t && rec.app_id == app_id
                && rec.permit_cors == form.permit_cors && rec.subapp_name == form.subapp_name,
            Err(e) => r matches Err(Reply::Failed(TokenFailure::Cuid(e2))) && e2 == e,
        },
{
    match made {
        Ok(token) => Ok(AppTokens { token, app_id, permit_cors: form.permit_cors, subapp_name: form.subapp_name }),
        Err(e) => Err(Reply::Failed(TokenFailure::Cuid(e))),
    }
}

/// The answer to a creation: the stored token with 201, or 401 when the
/// caller does not own the application.
pub fn create_reply(result: Result<AppTokens, AppTokenError>) -> (r: Reply<AppTokens, TokenFailure>)
    requires
        !(result matches Err(AppTokenError::Unauthorized)),
    ensures
        match result {
            Ok(t) => r == Reply::<AppTokens, TokenFailure>::Json(CREATED, t),
            Err(AppTokenError::AppNotFound) => r == Reply::<AppTokens, TokenFailure>::Empty(UNAUTHORIZED),
            Err(AppTokenError::GenericError(e)) => r == Reply::<AppTokens, TokenFailure>::Failed(TokenFailure::Database(e)),
            Err(AppTokenError::Unauthorized) => false,
        },
{
    match result {
        Ok(t) => Reply::Json(CREATED, t),
        Err(AppTokenError::AppNotFound) => Reply::Empty(UNAUTHORIZED),
        Err(AppTokenError::GenericError(e)) => Reply::Failed(TokenFailure::Database(e)),
        Err(AppTokenError::Unauthorized) => {
            proof {
                assert(false);
            }
            Reply::Empty(UNAUTHORIZED)
        },
    }
}

/// The answer to a listing: the tokens with 200, or 404 when the caller does
/// not own the application.
pub fn list_reply(result: Result<Vec<AppTokens>, AppTokenError>) -> (r: Reply<Vec<AppTokens>, sqlx::Error>)
    requires
        !(result matches Err(AppTokenError::Unauthorized)),
    ensures
        match result {
            Ok(t) => r == Reply::<Vec<AppTokens>, sqlx::Error>::Json(OK, t),
            Err(AppTokenError::AppNotFound) => r == Reply::<Vec<AppTokens>, sqlx::Error>::Empty(NOT_FOUND),
            Err(AppTokenError::GenericError(e)) => r == Reply::<Vec<AppTokens>, sqlx::Error>::Failed(e),
            Err(AppTokenError::Unauthorized) => false,
        },
{
    match result {
        Ok(t) => Reply::Json(OK, t),
        Err(AppTokenError::AppNotFound) => Reply::Empty(NOT_FOUND),
        Err(AppTokenError::GenericError(e)) => Reply::Failed(e),
        Err(AppTokenError::Unauthorized) => {
            proof {
                assert(false);
            }
            Reply::Empty(UNAUTHORIZED)
        },
    }
}


/// A token request is valid exactly when it names no sub-application or one
/// of at most 255 characters, whatever those characters are.
pub proof fn token_request_validity_is_the_name_length(d: AppTokensDto)
    ensures
        d.is_valid() <==> (d.subapp_name matches Some(n) ==> n@.len() <= 255),
{
}

} // verus!
