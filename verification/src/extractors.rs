//! Who is calling: a signed-in user (session token) or a reporting
//! application (application token).
use vstd::prelude::*;
use crate::database::app_tokens::{AppTokenError, AppTokens};
use crate::database::users::Users;
use crate::http::{Header, INTERNAL_SERVER_ERROR, UNAUTHORIZED};
use crate::jwt::{Jwt, JwtClaims, token_username};
use crate::text::{remove_all, remove_matches};

verus! {

/// A refused request: the status to answer with and the message to show.
pub struct ExtractorError {
    status: u16,
    message: &'static str,
}

impl ExtractorError {
    pub closed spec fn status_spec(self) -> u16 {
        self.status
    }

    pub closed spec fn message_spec(self) -> Seq<char> {
        self.message@
    }

    /// The refusal with `status` and `message`.
    pub open spec fn is(self, status: u16, message: Seq<char>) -> bool {
        self.status_spec() == status && self.message_spec() == message
    }

    pub fn new(status: u16, message: &'static str) -> (e: Self)
        ensures
            e.is(status, message@),
    {
        ExtractorError { status, message }
    }

    /// The status to answer with.
    pub fn status_code(&self) -> (s: u16)
        ensures
            s == self.status_spec(),
    {
        self.status
    }

    /// The message to show.
    pub fn message(&self) -> (m: &'static str)
        ensures
            m@ == self.message_spec(),
    {
        self.message
    }

    /// The text of the refusal: its message.
    pub fn to_string(&self) -> (s: String)
        ensures
            s@ == self.message_spec(),
    {
        String::from_str(self.message)
    }
}

/// A request made by a signed-in user.
pub struct UserAuthentication {
    pub username: String,
}

/// A report made by an application with one of its tokens.
pub struct ErrorAuthentication {
    pub app_id: i32,
    pub token: String,
}

/// The token a request presents in its `Authorization` header: the header's
/// text with every `Bearer ` taken out.
pub open spec fn presented_token(header: Seq<char>) -> Seq<char> {
    remove_matches(header, "Bearer "@)
}

/// The token an `Authorization` header presents, for the application and
/// user extractors.
pub fn authorization_token(authorization: Header) -> (r: Result<String, ExtractorError>)
    ensures
        match authorization {
            Header::Absent => r matches Err(e) && e.is(UNAUTHORIZED, "Missing authorization header"@),
            Header::Opaque => r matches Err(e) && e.is(UNAUTHORIZED, "Invalid token format"@),
            Header::Text(h) => r matches Ok(t) && t@ == presented_token(h@),
        },
{
    match authorization {
        Header::Absent => Err(ExtractorError::new(UNAUTHORIZED, "Missing authorization header")),
        Header::Opaque => Err(ExtractorError::new(UNAUTHORIZED, "Invalid token format")),
        Header::Text(h) => Ok(remove_all(h.as_str(), "Bearer ")),
    }
}

impl UserAuthentication {
    /// The answer to a session token check.
    pub fn verified_result(token: String, verified: Result<JwtClaims, jsonwebtoken::errors::Error>) -> (r: Result<(String, JwtClaims), ExtractorError>)
        ensures
            match verified {
                Ok(c) => r matches Ok((t, c2)) && t == token && c2 == c,
                Err(_) => r matches Err(e) && e.is(UNAUTHORIZED, "Jwt verification error"@),
            },
    {
        match verified {
            Ok(claims) => Ok((token, claims)),
            Err(_) => Err(ExtractorError::new(UNAUTHORIZED, "Jwt verification error")),
        }
    }

    /// The session token a request presents, with its checked claims: what the
    /// user extractor finds before it looks the token up.
    pub fn session_token(jwt: &Jwt, authorization: Header) -> (r: Result<(String, JwtClaims), ExtractorError>)
        ensures
            match authorization {
                Header::Absent => r matches Err(e) && e.is(UNAUTHORIZED, "Missing authorization header"@),
                Header::Opaque => r matches Err(e) && e.is(UNAUTHORIZED, "Invalid token format"@),
                Header::Text(h) => match r {
                    Ok((t, c)) => t@ == presented_token(h@)
                        && token_username(t@, jwt.secret()) == Some(c.username@),
                    Err(e) => e.is(UNAUTHORIZED, "Jwt verification error"@),
                },
            },
    {
        let token = match authorization_token(authorization) {
            Ok(t) => t,
            Err(e) => return Err(e),
        };
        let verified = jwt.verify_jwt(token.as_str());
        Self::verified_result(token, verified)
    }

    /// The user a session belongs to, given the user whose last session token
    /// the presented token is: the token must name that same user.
    pub fn from_lookup(claims: JwtClaims, lookup: Result<Users, sqlx::Error>) -> (r: Result<UserAuthentication, ExtractorError>)
        ensures
            match lookup {
                Ok(u) => if u.username@ == claims.username@ {
                    r matches Ok(a) && a.username == u.username
                } else {
                    r matches Err(e) && e.is(UNAUTHORIZED, "Invalid token"@)
                },
                Err(_) => r matches Err(e) && e.is(UNAUTHORIZED, "Error to get token in database"@),
            },
    {
        match lookup {
            Err(_) => Err(ExtractorError::new(UNAUTHORIZED, "Error to get token in database")),
            Ok(user) => {
                if user.username != claims.username {
                    Err(ExtractorError::new(UNAUTHORIZED, "Invalid token"))
                } else {
                    Ok(UserAuthentication { username: user.username })
                }
            },
        }
    }
}

impl ErrorAuthentication {
    /// Whether a request says it is a cross-origin browser request: its
    /// `Sec-Fetch-Mode` header is there and not empty. `None` when absent.
    pub fn cors_request(sec_fetch_mode: Header) -> (r: Option<bool>)
        ensures
            match sec_fetch_mode {
                Header::Absent => r is None,
                Header::Opaque => r == Some(true),
                Header::Text(h) => r == Some(h@.len() != 0),
            },
    {
        match sec_fetch_mode {
            Header::Absent => None,
            Header::Opaque => Some(true),
            Header::Text(h) => Some(!h.as_str().is_empty()),
        }
    }

    /// The reporting application, given the lookup of the presented token:
    /// an unknown token is refused, and a token that does not permit
    /// cross-origin use is refused for a cross-origin request.
    pub fn from_lookup(token: String, cors: Option<bool>, lookup: Result<AppTokens, AppTokenError>) -> (r: Result<ErrorAuthentication, ExtractorError>)
        requires
            !(lookup matches Err(AppTokenError::AppNotFound)),
        ensures
            match lookup {
                Ok(t) => if cors == Some(true) && !t.permit_cors {
                    r matches Err(e) && e.is(UNAUTHORIZED, "Token not permit cors"@)
                } else {
                    r matches Ok(a) && a.app_id == t.app_id && a.token == token
                },
                Err(AppTokenError::Unauthorized) => r matches Err(e) && e.is(UNAUTHORIZED, "Invalid token"@),
                Err(_) => r matches Err(e) && e.is(INTERNAL_SERVER_ERROR, "Internal error"@),
            },
    {
        let token_db = match lookup {
            Ok(t) => t,
            Err(AppTokenError::Unauthorized) => return Err(ExtractorError::new(UNAUTHORIZED, "Invalid token")),
            Err(_) => return Err(ExtractorError::new(INTERNAL_SERVER_ERROR, "Internal error")),
        };
        if cors == Some(true) && !token_db.permit_cors {
            return Err(ExtractorError::new(UNAUTHORIZED, "Token not permit cors"));
        }
        Ok(ErrorAuthentication { app_id: token_db.app_id, token })
    }
}

} // verus!
