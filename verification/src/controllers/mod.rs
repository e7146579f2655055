//! The answers of the HTTP routes, decided from what the handlers read and
//! from the outcome of the database work they ask for.
pub mod apps;
pub mod apps_errors;
pub mod apps_tokens;
pub mod authentication_extractor;
pub mod errors;
pub mod errors_authentication_middleware;
pub mod test;

use vstd::prelude::*;
use crate::text::chars_of;

verus! {

/// The answer of a route.
pub enum Reply<T, E> {
    /// A JSON body with this status.
    Json(u16, T),
    /// This status and no body.
    Empty(u16),
    /// The input was refused: this status and the violated constraints.
    Invalid(u16, Vec<LengthViolation>),
    /// An internal failure: it is logged and answered with status 500.
    Failed(E),
}

/// A text field whose length (in characters) is out of its bounds.
pub struct LengthViolation {
    pub field: &'static str,
    pub min: Option<u64>,
    pub max: Option<u64>,
    pub message: Option<&'static str>,
}

/// `s` has between `min` and `max` characters, each bound optional.
pub open spec fn length_within(s: Seq<char>, min: Option<u64>, max: Option<u64>) -> bool {
    &&& (min matches Some(lo) ==> lo <= s.len())
    &&& (max matches Some(hi) ==> s.len() <= hi)
}

/// Checks a text field's length and records a violation.
pub fn check_length(
    out: &mut Vec<LengthViolation>,
    field: &'static str,
    value: &str,
    min: Option<u64>,
    max: Option<u64>,
    message: Option<&'static str>,
)
    ensures
        length_within(value@, min, max) ==> final(out)@ == old(out)@,
        !length_within(value@, min, max) ==> final(out)@.len() == old(out)@.len() + 1
            && final(out)@.take(old(out)@.len() as int) == old(out)@
            && final(out)@.last() == (LengthViolation { field, min, max, message }),
{
    let n = chars_of(value).len() as u64;
    let below = match min {
        Some(lo) => n < lo,
        None => false,
    };
    let above = match max {
        Some(hi) => n > hi,
        None => false,
    };
    if below || above {
        out.push(LengthViolation { field, min, max, message });
        assert(out@.take(old(out)@.len() as int) =~= old(out)@);
    }
}

} // verus!
