//! `/test`: greets the signed-in user.
use vstd::prelude::*;
use crate::extractors::UserAuthentication;

verus! {

/// The greeting: `Hello, <user name>!`.
pub fn index(auth: &UserAuthentication) -> (r: String)
    ensures
        r@ == "Hello, "@ + auth.username@ + "!"@,
{
    let mut r = String::from_str("Hello, ");
    r.append(auth.username.as_str());
    r.append("!");
    r
}

} // verus!
