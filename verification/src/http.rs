//! What the request handling reads of an HTTP request and answers with.
use vstd::prelude::*;

verus! {

pub const OK: u16 = 200;
pub const CREATED: u16 = 201;
pub const BAD_REQUEST: u16 = 400;
pub const UNAUTHORIZED: u16 = 401;
pub const NOT_FOUND: u16 = 404;
pub const NOT_ACCEPTABLE: u16 = 406;
pub const UNPROCESSABLE_ENTITY: u16 = 422;
pub const INTERNAL_SERVER_ERROR: u16 = 500;

/// A request header as the handlers see it.
pub enum Header {
    /// The request does not carry the header.
    Absent,
    /// The header's value is not visible ASCII text.
    Opaque,
    /// The header's value as text.
    Text(String),
}

} // verus!
