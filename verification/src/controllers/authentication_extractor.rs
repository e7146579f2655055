//! The user extractor used by the route handlers: the caller must present a
//! session token that is the last one issued to the user it names. Its
//! refusals are plain 401 answers.
use vstd::prelude::*;
use crate::database::users::Users;
use crate::extractors::{presented_token, ExtractorError};
use crate::http::{Header, UNAUTHORIZED};
use crate::jwt::{Jwt, JwtClaims, token_username};
use crate::text::remove_all;

verus! {

/// A request made by a signed-in user.
pub struct UserAuthentication {
    pub username: String,
}

impl UserAuthentication {
    /// The answer to a session token check.
    pub fn verified_result(token: String, verified: Result<JwtClaims, jsonwebtoken::errors::Error>) -> (r: Result<(String, JwtClaims), ExtractorError>)
        ensures
            match verified {
                Ok(c) => r matches Ok((t, c2)) && t == token && c2 == c,
                Err(_) => r matches Err(e) && e.is(UNAUTHORIZED, "Invalid token"@),
            },
    {
        match verified {
            Ok(claims) => Ok((token, claims)),
            Err(_) => Err(ExtractorError::new(UNAUTHORIZED, "Invalid token")),
        }
    }

    /// The session token a request presents, with its checked claims.
    pub fn session_token(jwt: &Jwt, authorization: Header) -> (r: Result<(String, JwtClaims), ExtractorError>)
        ensures
            match authorization {
                Header::Absent => r matches Err(e) && e.is(UNAUTHORIZED, "Missing Authorization header"@),
                Header::Opaque => r matches Err(e) && e.is(UNAUTHORIZED, "Invalid Authorization header"@),
                Header::Text(h) => match r {
                    Ok((t, c)) => t@ == presented_token(h@)
                        && token_username(t@, jwt.secret()) == Some(c.username@),
                    Err(e) => e.is(UNAUTHORIZED, "Invalid token"@),
                },
            },
    {
        let token = match authorization {
            Header::Absent => return Err(ExtractorError::new(UNAUTHORIZED, "Missing Authorization header")),
            Header::Opaque => return Err(ExtractorError::new(UNAUTHORIZED, "Invalid Authorization header")),
            Header::Text(h) => remove_all(h.as_str(), "Bearer "),
        };
        let verified = jwt.verify_jwt(token.as_str());
        Self::verified_result(token, verified)
    }

    /// The user a session belongs to, given the user whose last session token
    /// the presented token is: the token must name that same user.
    pub fn from_lookup(claims: JwtClaims, lookup: Result<Users, sqlx::Error>) -> (r: Result<UserAuthentication, ExtractorError>)
        ensures
            match lookup {
                Ok(u) => if u.username@ == claims.username@ {
                    r matches Ok(a) && a.username == u.username
                } else {
                    r matches Err(e) && e.is(UNAUTHORIZED, "Invalid token"@)
                },
                Err(_) => r matches Err(e) && e.is(UNAUTHORIZED, "Invalid token"@),
            },
    {
        match lookup {
            Err(_) => Err(ExtractorError::new(UNAUTHORIZED, "Invalid token")),
            Ok(user) => {
                if user.username != claims.username {
                    Err(ExtractorError::new(UNAUTHORIZED, "Invalid token"))
                } else {
                    Ok(UserAuthentication { username: user.username })
                }
            },
        }
    }
}

} // verus!
