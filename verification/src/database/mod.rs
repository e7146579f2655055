//! Records kept in the SQL database and the decisions taken around each query.
//! The queries themselves run outside this crate; their outcomes come back
//! here as plain values.
pub mod app_tokens;
pub mod apps;
pub mod errors;
pub mod sql;
pub mod users;

use vstd::prelude::*;

verus! {

/// The error type of the SQL driver, carried through unchanged.
#[verifier::external_type_specification]
#[verifier::external_body]
pub struct ExSqlxError(sqlx::Error);

} // verus!
