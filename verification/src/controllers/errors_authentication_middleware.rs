//! The guard in front of the error reporting route: the request must present
//! a known application token, and a cross-origin request a token that
//! permits it.
use vstd::prelude::*;
use crate::database::app_tokens::{AppTokenError, AppTokens};
use crate::extractors::ExtractorError;
use crate::http::{Header, INTERNAL_SERVER_ERROR, UNAUTHORIZED};

verus! {

/// The token a request presented, kept with the request.
#[derive(Clone)]
pub struct ErrorAuthenticationData {
    pub token: String,
}

/// The guard, installed on a route scope.
pub struct ErrorsAuthentication;

/// The guard wrapped around the service it protects.
pub struct ErrorsAuthenticationMiddleware<S> {
    pub service: S,
}

impl ErrorsAuthentication {
    /// The token in the `Authorization` header, taken as it is.
    pub fn request_token(authorization: Header) -> (r: Result<ErrorAuthenticationData, ExtractorError>)
        ensures
            match authorization {
                Header::Absent => r matches Err(e) && e.is(UNAUTHORIZED, "Missing Authorization Header"@),
                Header::Opaque => r matches Err(e) && e.is(UNAUTHORIZED, "Invalid Authorization Header"@),
                Header::Text(h) => r matches Ok(d) && d.token == h,
            },
    {
        match authorization {
            Header::Absent => Err(ExtractorError::new(UNAUTHORIZED, "Missing Authorization Header")),
            Header::Opaque => Err(ExtractorError::new(UNAUTHORIZED, "Invalid Authorization Header")),
            Header::Text(h) => Ok(ErrorAuthenticationData { token: h }),
        }
    }

    /// The verdict on the lookup of the presented token.
    pub fn lookup_result(lookup: Result<AppTokens, AppTokenError>) -> (r: Result<AppTokens, ExtractorError>)
        requires
            !(lookup matches Err(AppTokenError::AppNotFound)),
        ensures
            match lookup {
                Ok(t) => r == Ok::<AppTokens, ExtractorError>(t),
                Err(AppTokenError::Unauthorized) => r matches Err(e) && e.is(UNAUTHORIZED, "Invalid Token"@),
                Err(_) => r matches Err(e) && e.is(INTERNAL_SERVER_ERROR, "Internal Server Error"@),
            },
    {
        match lookup {
            Ok(t) => Ok(t),
            Err(AppTokenError::Unauthorized) => Err(ExtractorError::new(UNAUTHORIZED, "Invalid Token")),
            Err(_) => Err(ExtractorError::new(INTERNAL_SERVER_ERROR, "Internal Server Error")),
        }
    }

    /// A request with a `Sec-Fetch-Mode` header is refused unless its token
    /// permits cross-origin use.
    pub fn cors_result(token: &AppTokens, sec_fetch_mode_present: bool) -> (r: Result<(), ExtractorError>)
        ensures
            sec_fetch_mode_present && !token.permit_cors ==> (r matches Err(e) && e.is(UNAUTHORIZED, "CORS is not permitted for this token"@)),
            !(sec_fetch_mode_present && !token.permit_cors) ==> r is Ok,
    {
        if sec_fetch_mode_present && !token.permit_cors {
            Err(ExtractorError::new(UNAUTHORIZED, "CORS is not permitted for this token"))
        } else {
            Ok(())
        }
    }
}

} // verus!
