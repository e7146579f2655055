//! The guard in front of the user routes: a request must present a bearer
//! session token that is the last one issued to the user it names.
use vstd::prelude::*;
use crate::database::users::Users;
use crate::extractors::{presented_token, ExtractorError};
use crate::http::{Header, UNAUTHORIZED};
use crate::jwt::{Jwt, JwtClaims, token_username};
use crate::text::{has_prefix, remove_all, starts_with};

verus! {

/// The guard, installed on a route scope.
pub struct Authentication;

/// The guard wrapped around the service it protects.
pub struct AuthenticationMiddleware<S> {
    pub service: S,
}

/// A bearer token whose signature and claims were accepted.
pub struct BearerSession {
    pub token: String,
    pub claims: JwtClaims,
}

impl Authentication {
    /// The bearer session a request presents, given the check of its token:
    /// only a header that starts with `Bearer ` is looked at.
    pub fn bearer_result(token: String, verified: Result<JwtClaims, jsonwebtoken::errors::Error>) -> (r: Option<BearerSession>)
        ensures
            match verified {
                Ok(c) => r matches Some(s) && s.token == token && s.claims == c,
                Err(_) => r is None,
            },
    {
        match verified {
            Ok(claims) => Some(BearerSession { token, claims }),
            Err(_) => None,
        }
    }

    /// The bearer session an `Authorization` header presents, if any.
    pub fn bearer_session(jwt: &Jwt, authorization: Header) -> (r: Option<BearerSession>)
        ensures
            r matches Some(s) ==> authorization matches Header::Text(h) && has_prefix(h@, "Bearer "@)
                && s.token@ == presented_token(h@)
                && token_username(s.token@, jwt.secret()) == Some(s.claims.username@),
            !(authorization matches Header::Text(h) && has_prefix(h@, "Bearer "@)) ==> r is None,
            authorization matches Header::Text(h) && token_username(presented_token(h@), jwt.secret()) is None
                ==> r is None,
    {
        match authorization {
            Header::Text(h) => {
                if starts_with(h.as_str(), "Bearer ") {
                    let token = remove_all(h.as_str(), "Bearer ");
                    let verified = jwt.verify_jwt(token.as_str());
                    Self::bearer_result(token, verified)
                } else {
                    None
                }
            },
            _ => None,
        }
    }

    /// A request without an accepted bearer session is refused before its
    /// token is looked up.
    pub fn require_session(session: Option<BearerSession>) -> (r: Result<BearerSession, ExtractorError>)
        ensures
            match session {
                Some(s) => r == Ok::<BearerSession, ExtractorError>(s),
                None => r matches Err(e) && e.is(UNAUTHORIZED, "No token provided"@),
            },
    {
        match session {
            Some(s) => Ok(s),
            None => Err(ExtractorError::new(UNAUTHORIZED, "No token provided")),
        }
    }

    /// The verdict on a session, given the user whose last session token the
    /// presented one is: it must be the user the token names.
    pub fn session_result(claims: &JwtClaims, lookup: Result<Users, sqlx::Error>) -> (r: Result<(), ExtractorError>)
        ensures
            match lookup {
                Ok(u) => if u.username@ == claims.username@ {
                    r is Ok
                } else {
                    r matches Err(e) && e.is(UNAUTHORIZED, "Invalid token"@)
                },
                Err(_) => r matches Err(e) && e.is(UNAUTHORIZED, "Invalid token"@),
            },
    {
        match lookup {
            Ok(user) => {
                if user.username != claims.username {
                    Err(ExtractorError::new(UNAUTHORIZED, "Invalid token"))
                } else {
                    Ok(())
                }
            },
            Err(_) => Err(ExtractorError::new(UNAUTHORIZED, "Invalid token")),
        }
    }
}

} // verus!
