//! Tokens with which an application reports its errors.
use vstd::prelude::*;
use vstd::std_specs::convert::FromSpecImpl;
use crate::database::apps::{AppGetError, Apps};
use crate::text::{cut_token, previewable, token_preview};

verus! {

/// A token of an application, optionally tied to one of its sub-applications.
#[derive(Clone)]
pub struct AppTokens {
    pub token: String,
    pub app_id: i32,
    pub permit_cors: bool,
    pub subapp_name: Option<String>,
}

/// Why a token operation failed.
pub enum AppTokenError {
    AppNotFound,
    Unauthorized,
    GenericError(sqlx::Error),
}

impl From<AppGetError> for AppTokenError {
    fn from(err: AppGetError) -> (r: Self) {
        match err {
            AppGetError::NotFound => AppTokenError::AppNotFound,
            AppGetError::Generic(err) => AppTokenError::GenericError(err),
        }
    }
}

impl FromSpecImpl<AppGetError> for AppTokenError {
    open spec fn obeys_from_spec() -> bool {
        true
    }

    open spec fn from_spec(err: AppGetError) -> Self {
        match err {
            AppGetError::NotFound => AppTokenError::AppNotFound,
            AppGetError::Generic(err) => AppTokenError::GenericError(err),
        }
    }
}

impl From<sqlx::Error> for AppTokenError {
    fn from(err: sqlx::Error) -> (r: Self) {
        AppTokenError::GenericError(err)
    }
}

impl FromSpecImpl<sqlx::Error> for AppTokenError {
    open spec fn obeys_from_spec() -> bool {
        true
    }

    open spec fn from_spec(err: sqlx::Error) -> Self {
        AppTokenError::GenericError(err)
    }
}

/// The error an ownership check gives for a token operation.
pub open spec fn app_get_error_for_token(err: AppGetError) -> AppTokenError {
    match err {
        AppGetError::NotFound => AppTokenError::AppNotFound,
        AppGetError::Generic(e) => AppTokenError::GenericError(e),
    }
}

/// Token operations first check that the application belongs to the user:
/// a missing application stops them with `AppNotFound`, a database failure
/// with `GenericError`.
pub fn ownership_result(check: Result<Apps, AppGetError>) -> (r: Result<(), AppTokenError>)
    ensures
        match check {
            Ok(_) => r is Ok,
            Err(e) => r == Err::<(), AppTokenError>(app_get_error_for_token(e)),
        },
{
    match check {
        Ok(_) => Ok(()),
        Err(e) => Err(AppTokenError::from(e)),
    }
}

/// The outcome of storing a new token: the token itself once the insert went
/// through.
pub fn create_result(token: AppTokens, inserted: Result<(), sqlx::Error>) -> (r: Result<AppTokens, AppTokenError>)
    ensures
        match inserted {
            Ok(_) => r == Ok::<AppTokens, AppTokenError>(token),
            Err(e) => r == Err::<AppTokens, AppTokenError>(AppTokenError::GenericError(e)),
        },
{
    match inserted {
        Ok(()) => Ok(token),
        Err(e) => Err(AppTokenError::GenericError(e)),
    }
}

/// The pattern with which a token listing searches sub-application names:
/// the name anywhere in the stored one.
pub fn subapp_pattern(subapp_name: &str) -> (r: String)
    ensures
        r@ == "%"@ + subapp_name@ + "%"@,
{
    let mut r = String::from_str("%");
    r.append(subapp_name);
    r.append("%");
    r
}

/// Each token of a listing is shown by its preview; everything else stays.
pub open spec fn is_listing_of(out: Seq<AppTokens>, rows: Seq<AppTokens>) -> bool {
    &&& out.len() == rows.len()
    &&& forall|i: int|
        0 <= i < rows.len() ==> {
            &&& (#[trigger] out[i]).token@ == token_preview(rows[i].token@)
            &&& out[i].app_id == rows[i].app_id
            &&& out[i].permit_cors == rows[i].permit_cors
            &&& out[i].subapp_name == rows[i].subapp_name
        }
}

/// The tokens of an application as a listing gives them back.
pub fn list_result(rows: Result<Vec<AppTokens>, sqlx::Error>) -> (r: Result<Vec<AppTokens>, AppTokenError>)
    requires
        rows matches Ok(v) ==> forall|i: int| 0 <= i < v@.len() ==> previewable(#[trigger] v@[i].token@),
    ensures
        match rows {
            Ok(v) => r matches Ok(out) && is_listing_of(out@, v@),
            Err(e) => r == Err::<Vec<AppTokens>, AppTokenError>(AppTokenError::GenericError(e)),
        },
{
    match rows {
        Err(e) => Err(AppTokenError::GenericError(e)),
        Ok(v) => {
            let ghost rows_view = v@;
            let mut out: Vec<AppTokens> = Vec::new();
            for t in it: v
                invariant
                    it.seq() == rows_view,
                    forall|i: int| 0 <= i < rows_view.len() ==> previewable(#[trigger] rows_view[i].token@),
                    is_listing_of(out@, rows_view.take(it.index() as int)),
            {
                let preview = cut_token(t.token.as_str());
                out.push(AppTokens { token: preview, app_id: t.app_id, permit_cors: t.permit_cors, subapp_name: t.subapp_name });
            }
            Ok(out)
        }
    }
}

/// A token lookup by value: a missing token is `Unauthorized`.
pub fn get_by_token_result(row: Result<Option<AppTokens>, sqlx::Error>) -> (r: Result<AppTokens, AppTokenError>)
    ensures
        match row {
            Ok(Some(t)) => r == Ok::<AppTokens, AppTokenError>(t),
            Ok(None) => r matches Err(AppTokenError::Unauthorized),
            Err(e) => r == Err::<AppTokens, AppTokenError>(AppTokenError::GenericError(e)),
        },
{
    match row {
        Ok(Some(t)) => Ok(t),
        Ok(None) => Err(AppTokenError::Unauthorized),
        Err(e) => Err(AppTokenError::GenericError(e)),
    }
}

/// The application a token belongs to: a missing token is `Unauthorized`.
pub fn check_app_token_result(row: Result<Option<i32>, sqlx::Error>) -> (r: Result<i32, AppTokenError>)
    ensures
        match row {
            Ok(Some(id)) => r == Ok::<i32, AppTokenError>(id),
            Ok(None) => r matches Err(AppTokenError::Unauthorized),
            Err(e) => r == Err::<i32, AppTokenError>(AppTokenError::GenericError(e)),
        },
{
    match row {
        Ok(Some(id)) => Ok(id),
        Ok(None) => Err(AppTokenError::Unauthorized),
        Err(e) => Err(AppTokenError::GenericError(e)),
    }
}

} // verus!
