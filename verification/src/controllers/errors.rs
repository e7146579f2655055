//! `/errors`: where applications report their errors.
use vstd::prelude::*;
use crate::controllers::{check_length, length_within, LengthViolation, Reply};
use crate::database::errors::{Errors, ErrorsCreateDto, ErrorsErros};
use crate::extractors::ErrorAuthentication;
use crate::http::{CREATED, INTERNAL_SERVER_ERROR, UNPROCESSABLE_ENTITY};

verus! {

/// The body of an error report.
pub struct ErrorsDto {
    pub error_level: String,
    pub message: String,
    pub stack_trace: Option<String>,
}

impl ErrorsDto {
    /// A valid report has a level of 1 to 20 characters, a message of 1 to
    /// 65535 characters and, when given, a stack trace of at most 65535.
    pub open spec fn is_valid(self) -> bool {
        &&& length_within(self.error_level@, Some(1), Some(20))
        &&& length_within(self.message@, Some(1), Some(65535))
        &&& (self.stack_trace matches Some(t) ==> length_within(t@, None, Some(65535)))
    }

    /// The constraints the report breaks, in field order, each as its
    /// field's name and bounds; empty when it is valid.
    pub open spec fn violations(self) -> Seq<(Seq<char>, Option<u64>, Option<u64>)> {
        broken("error_level"@, Some(1), Some(20), self.error_level@)
            + broken("message"@, Some(1), Some(65535), self.message@)
            + self.stack_trace_broken()
    }

    /// The stack trace's constraint when it is given and broken.
    pub open spec fn stack_trace_broken(self) -> Seq<(Seq<char>, Option<u64>, Option<u64>)> {
        match self.stack_trace {
            Some(t) => broken("stack_trace"@, None, Some(65535), t@),
            None => Seq::empty(),
        }
    }

    /// The constraints the report breaks, in field order; none when it is valid.
    pub fn validate(&self) -> (r: Result<(), Vec<LengthViolation>>)
        ensures
            r is Ok <==> self.is_valid(),
            r matches Err(v) ==> v@.map_values(|x: LengthViolation| (x.field@, x.min, x.max)) == self.violations()
                && forall|i: int| 0 <= i < v@.len() ==> (#[trigger] v@[i]).message is None,
    {
        let mut v: Vec<LengthViolation> = Vec::new();
        check_length(&mut v, "error_level", self.error_level.as_str(), Some(1), Some(20), None);
        let ghost v1 = v@;
        check_length(&mut v, "message", self.message.as_str(), Some(1), Some(65535), None);
        let ghost v2 = v@;
        match &self.stack_trace {
            Some(t) => check_length(&mut v, "stack_trace", t.as_str(), None, Some(65535), None),
            None => {},
        }
        proof {
            let f = |x: LengthViolation| (x.field@, x.min, x.max);
            let b1 = broken("error_level"@, Some(1), Some(20), self.error_level@);
            let b2 = broken("message"@, Some(1), Some(65535), self.message@);
            let b3 = self.stack_trace_broken();
            assert(v1.map_values(f) =~= b1);
            assert(v2.map_values(f) =~= b1 + b2) by {
                if !length_within(self.message@, Some(1), Some(65535)) {
                    assert(v2.take(v1.len() as int) == v1);
                    assert forall|i: int| 0 <= i < v1.len() implies v2[i] == v1[i] by {
                        assert(v2.take(v1.len() as int)[i] == v2[i]);
                    }
                }
            }
            assert(v@.map_values(f) =~= b1 + b2 + b3) by {
                if self.stack_trace is Some && !length_within(self.stack_trace->0@, None, Some(65535)) {
                    assert(v@.take(v2.len() as int) == v2);
                    assert forall|i: int| 0 <= i < v2.len() implies v@[i] == v2[i] by {
                        assert(v@.take(v2.len() as int)[i] == v@[i]);
                    }
                }
            }
        }
        if v.len() == 0 {
            Ok(())
        } else {
            Err(v)
        }
    }
}

/// A one-element list with `field` and its bounds when `value` breaks them,
/// else an empty one.
pub open spec fn broken(field: Seq<char>, min: Option<u64>, max: Option<u64>, value: Seq<char>) -> Seq<(Seq<char>, Option<u64>, Option<u64>)> {
    if length_within(value, min, max) {
        Seq::empty()
    } else {
        seq![(field, min, max)]
    }
}

/// What a valid report stores: the report with the token it came with; an
/// invalid one is answered 422.
pub fn create_start(authentication: ErrorAuthentication, data: ErrorsDto) -> (r: Result<ErrorsCreateDto, Reply<Errors, sqlx::Error>>)
    ensures
        match r {
            Ok(d) => data.is_valid() && d.error_level == data.error_level && d.message == data.message
                && d.stack_trace == data.stack_trace && d.token == authentication.token,
            Err(reply) => !data.is_valid() && (reply matches Reply::Invalid(s, _) && s == UNPROCESSABLE_ENTITY),
        },
{
    match data.validate() {
        Err(v) => Err(Reply::Invalid(UNPROCESSABLE_ENTITY, v)),
        Ok(()) => Ok(ErrorsCreateDto {
            message: data.message,
            error_level: data.error_level,
            stack_trace: data.stack_trace,
            token: authentication.token,
        }),
    }
}

/// The answer to a report: the stored error with 201. The token was checked
/// before, so only a database failure can stop the insert.
pub fn create_reply(result: Result<Errors, ErrorsErros>) -> (r: Reply<Errors, sqlx::Error>)
    requires
        result matches Err(e) ==> e is Generic,
    ensures
        match result {
            Ok(v) => r == Reply::<Errors, sqlx::Error>::Json(CREATED, v),
            Err(ErrorsErros::Generic(e)) => r == Reply::<Errors, sqlx::Error>::Failed(e),
            Err(_) => false,
        },
{
    match result {
        Ok(v) => Reply::Json(CREATED, v),
        Err(ErrorsErros::Generic(e)) => Reply::Failed(e),
        Err(_) => {
            proof {
                assert(false);
            }
            Reply::Empty(INTERNAL_SERVER_ERROR)
        },
    }
}


/// The place of a report field in the order the constraints are checked.
pub open spec fn report_field_rank(field: Seq<char>) -> int {
    if field == "error_level"@ {
        0
    } else if field == "message"@ {
        1
    } else {
        2
    }
}

/// A report is valid exactly when its level has 1 to 20 characters, its
/// message 1 to 65535 and its stack trace, when given, at most 65535, whatever
/// those characters are. The constraints it breaks are listed once each, in
/// field order: the level with bounds 1 and 20 exactly when its length is out
/// of them, the message with bounds 1 and 65535 likewise, and the stack trace
/// with the upper bound 65535 exactly when it is given and longer.
pub proof fn report_validity_is_its_length_bounds(d: ErrorsDto)
    ensures
        d.is_valid() <==> (1 <= d.error_level@.len() <= 20 && 1 <= d.message@.len() <= 65535
            && (d.stack_trace matches Some(t) ==> t@.len() <= 65535)),
        d.violations().len() == 0 <==> d.is_valid(),
        d.violations().contains(("error_level"@, Some(1u64), Some(20u64)))
            <==> !(1 <= d.error_level@.len() <= 20),
        d.violations().contains(("message"@, Some(1u64), Some(65535u64)))
            <==> !(1 <= d.message@.len() <= 65535),
        d.violations().contains(("stack_trace"@, None::<u64>, Some(65535u64)))
            <==> (d.stack_trace matches Some(t) && t@.len() > 65535),
        forall|i: int, j: int| 0 <= i < j < d.violations().len()
            ==> report_field_rank(d.violations()[i].0) < report_field_rank(d.violations()[j].0),
        forall|i: int| 0 <= i < d.violations().len() ==> {
            let v = #[trigger] d.violations()[i];
            ||| v == ("error_level"@, Some(1u64), Some(20u64))
            ||| v == ("message"@, Some(1u64), Some(65535u64))
            ||| v == ("stack_trace"@, None::<u64>, Some(65535u64))
        },
{
    reveal_strlit("error_level");
    reveal_strlit("message");
    reveal_strlit("stack_trace");
    let b1 = broken("error_level"@, Some(1), Some(20), d.error_level@);
    let b2 = broken("message"@, Some(1), Some(65535), d.message@);
    let b3 = d.stack_trace_broken();
    let v = d.violations();
    assert(v == b1 + b2 + b3);
    assert("error_level"@[0] != "message"@[0]);
    assert("error_level"@ != "message"@);
    assert("error_level"@[0] != "stack_trace"@[0]);
    assert("error_level"@ != "stack_trace"@);
    assert("message"@ != "stack_trace"@);
    assert(report_field_rank("error_level"@) == 0);
    assert(report_field_rank("message"@) == 1);
    assert(report_field_rank("stack_trace"@) == 2);
    assert forall|i: int| 0 <= i < b1.len() implies v[i] == b1[i] by {}
    assert forall|i: int| 0 <= i < b2.len() implies v[b1.len() + i] == b2[i] by {}
    assert forall|i: int| 0 <= i < b3.len() implies v[b1.len() + b2.len() + i] == b3[i] by {}
    if v.contains(("error_level"@, Some(1u64), Some(20u64))) {
        let k = choose|k: int| 0 <= k < v.len() && v[k] == ("error_level"@, Some(1u64), Some(20u64));
        assert(k < b1.len());
    }
    if v.contains(("message"@, Some(1u64), Some(65535u64))) {
        let k = choose|k: int| 0 <= k < v.len() && v[k] == ("message"@, Some(1u64), Some(65535u64));
        assert(b1.len() <= k < b1.len() + b2.len());
    }
    if v.contains(("stack_trace"@, None::<u64>, Some(65535u64))) {
        let k = choose|k: int| 0 <= k < v.len() && v[k] == ("stack_trace"@, None::<u64>, Some(65535u64));
        assert(b1.len() + b2.len() <= k);
    }
    if !(1 <= d.error_level@.len() <= 20) {
        assert(v[0] == ("error_level"@, Some(1u64), Some(20u64)));
    }
    if !(1 <= d.message@.len() <= 65535) {
        assert(v[b1.len() as int] == ("message"@, Some(1u64), Some(65535u64)));
    }
    if d.stack_trace matches Some(t) && t@.len() > 65535 {
        assert(v[(b1.len() + b2.len()) as int] == ("stack_trace"@, None::<u64>, Some(65535u64)));
    }
}

} // verus!
