//! `/apps/{id}/errors`: the errors reported for an application.
use vstd::prelude::*;
use crate::controllers::Reply;
use crate::database::errors::{ErrorsErros, ErrorsSearch, ErrorsWithSubAppName};
use crate::http::{NOT_ACCEPTABLE, NOT_FOUND, OK, UNAUTHORIZED};

verus! {

/// The filters and page a listing asks for.
#[derive(Clone)]
pub struct ErrorsListQuery {
    pub subapp: Option<String>,
    pub error_level: Option<String>,
    pub message: Option<String>,
    pub created_at: Option<u64>,
    pub page: Option<i32>,
    pub per_page: Option<i32>,
}

/// The search of a listing: the application of the path, owned by the
/// caller, with the filters and page of the query.
pub fn list_search<'a>(app_id: i32, owner: &'a str, query: ErrorsListQuery) -> (s: ErrorsSearch<'a>)
    ensures
        s.app_id == app_id,
        s.owner == owner,
        s.subapp == query.subapp,
        s.error_level == query.error_level,
        s.message == query.message,
        s.created_at == query.created_at,
        s.page == query.page,
        s.per_page == query.per_page,
{
    ErrorsSearch {
        app_id,
        owner,
        created_at: query.created_at,
        error_level: query.error_level,
        message: query.message,
        page: query.page,
        per_page: query.per_page,
        subapp: query.subapp,
    }
}

/// The answer to a listing.
pub fn list_reply(result: Result<Vec<ErrorsWithSubAppName>, ErrorsErros>) -> (r: Reply<Vec<ErrorsWithSubAppName>, sqlx::Error>)
    ensures
        match result {
            Ok(v) => r == Reply::<Vec<ErrorsWithSubAppName>, sqlx::Error>::Json(OK, v),
            Err(ErrorsErros::Generic(e)) => r == Reply::<Vec<ErrorsWithSubAppName>, sqlx::Error>::Failed(e),
            Err(ErrorsErros::NotFound) => r == Reply::<Vec<ErrorsWithSubAppName>, sqlx::Error>::Empty(NOT_FOUND),
            Err(ErrorsErros::Unauthorized) => r == Reply::<Vec<ErrorsWithSubAppName>, sqlx::Error>::Empty(UNAUTHORIZED),
            Err(ErrorsErros::QueryError) => r == Reply::<Vec<ErrorsWithSubAppName>, sqlx::Error>::Empty(NOT_ACCEPTABLE),
        },
{
    match result {
        Ok(v) => Reply::Json(OK, v),
        Err(ErrorsErros::Generic(e)) => Reply::Failed(e),
        Err(ErrorsErros::NotFound) => Reply::Empty(NOT_FOUND),
        Err(ErrorsErros::Unauthorized) => Reply::Empty(UNAUTHORIZED),
        Err(ErrorsErros::QueryError) => Reply::Empty(NOT_ACCEPTABLE),
    }
}

} // verus!
