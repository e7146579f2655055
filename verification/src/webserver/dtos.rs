//! What applications send to the event intake.
use vstd::prelude::*;
use vstd::std_specs::convert::FromSpecImpl;

verus! {

/// How severe an event is, with its wire number.
#[derive(Debug, Clone, Copy, PartialEq, Eq, Structural)]
pub enum Severity {
    NoDefined,
    Severe,
    Error,
    Warning,
    Info,
    Verbose,
}

/// The wire number of a severity.
pub open spec fn severity_code(s: Severity) -> u8 {
    match s {
        Severity::NoDefined => 0,
        Severity::Severe => 1,
        Severity::Error => 2,
        Severity::Warning => 3,
        Severity::Info => 4,
        Severity::Verbose => 5,
    }
}

impl From<Severity> for u8 {
    fn from(val: Severity) -> (r: Self) {
        match val {
            Severity::NoDefined => 0,
            Severity::Severe => 1,
            Severity::Error => 2,
            Severity::Warning => 3,
            Severity::Info => 4,
            Severity::Verbose => 5,
        }
    }
}

impl FromSpecImpl<Severity> for u8 {
    open spec fn obeys_from_spec() -> bool {
        true
    }

    open spec fn from_spec(val: Severity) -> u8 {
        severity_code(val)
    }
}

impl Severity {
    /// The severity with wire number `code`; numbers above 5 name none.
    pub fn from_code(code: u8) -> (r: Option<Severity>)
        ensures
            r matches Some(s) ==> severity_code(s) == code,
            r is None <==> code > 5,
    {
        match code {
            0 => Some(Severity::NoDefined),
            1 => Some(Severity::Severe),
            2 => Some(Severity::Error),
            3 => Some(Severity::Warning),
            4 => Some(Severity::Info),
            5 => Some(Severity::Verbose),
            _ => None,
        }
    }
}

/// Reading a severity back from its wire number gives the same severity.
pub proof fn severity_code_round_trip(s: Severity)
    ensures
        severity_code(s) <= 5,
        forall|t: Severity| severity_code(t) == severity_code(s) ==> t == s,
{
}

/// An event posted by an application.
#[derive(Clone)]
pub struct EventTrackerReceive {
    pub app_id: Option<u64>,
    pub severity: Severity,
    pub title: String,
    pub message: String,
    pub stacktrace: Option<String>,
}

/// The body of a refused event request.
pub struct ErrPayload {
    pub message: String,
}

} // verus!
