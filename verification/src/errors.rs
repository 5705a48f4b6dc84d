//! Translation of raw runtime status codes into structured errors.
//!
//! Every call into the performance-counter runtime reports a signed
//! integer status. A single sentinel value means success; everything
//! else is carried as a [`PapiError`] identified by its raw code, with
//! a human-readable message available on demand.

use vstd::prelude::*;
use vstd::string::*;

verus! {

/// The status code the runtime reports when a call succeeded.
pub const PAPI_OK: i32 = 0;

/// Status code: invalid argument (also used for unparsable version output).
pub const PAPI_EINVAL: i32 = -1;

/// Status code: the named event does not exist.
pub const PAPI_ENOEVNT: i32 = -7;

/// Status code: the event exists but the physical counter slots it needs
/// are currently saturated. Documented as retryable.
pub const PAPI_ECNFLCT: i32 = -8;

/// Status code: the counter set is not currently running.
pub const PAPI_ENOTRUN: i32 = -9;

/// Status code: the counter set is already counting.
pub const PAPI_EISRUN: i32 = -10;

/// Status code: the runtime has not been initialized yet.
pub const PAPI_ENOINIT: i32 = -16;

/// A failure reported by the performance-counter runtime.
///
/// Identity of an error is its raw status code, never its message.
#[derive(Clone, Copy, PartialEq, Eq, Structural, Debug)]
pub struct PapiError {
    pub code: i32,
}

/// The semantic class of a status code, so callers can branch on
/// meaning rather than on magic numbers.
#[derive(Clone, Copy, PartialEq, Eq, Structural, Debug)]
pub enum ErrorKind {
    /// The version the runtime negotiated differs from the one requested.
    /// Only the version handshake produces positive non-success codes.
    VersionMismatch,
    /// The runtime has not been initialized.
    NotInitialized,
    /// No event with the given symbolic name exists on this platform.
    EventNotFound,
    /// The finite pool of physical counter slots is saturated; retryable.
    CountersInUse,
    /// A start or stop was issued in a state that does not allow it.
    InvalidStateTransition,
    /// Any other failure, identified only by its raw code.
    Other,
}

// The only reasonable action for counters_in_use is to
// retry. Otherwise, you might as well just fail yourself.
#[derive(Clone, Copy, PartialEq, Eq, Structural, Debug)]
pub enum Action {
    Retry,
}

/// The semantic class of each raw status code.
pub open spec fn spec_kind(code: i32) -> ErrorKind {
    if code > 0 {
        ErrorKind::VersionMismatch
    } else if code == PAPI_ENOEVNT {
        ErrorKind::EventNotFound
    } else if code == PAPI_ECNFLCT {
        ErrorKind::CountersInUse
    } else if code == PAPI_ENOTRUN || code == PAPI_EISRUN {
        ErrorKind::InvalidStateTransition
    } else if code == PAPI_ENOINIT {
        ErrorKind::NotInitialized
    } else {
        ErrorKind::Other
    }
}

/// The documented message text for each status code the runtime
/// documents; codes outside the documented table have no text and
/// render as "NULL", as the runtime's own lookup yields no string.
pub open spec fn spec_message(code: i32) -> Seq<char> {
    if code == 0 {
        "No error"@
    } else if code == -1 {
        "Invalid argument"@
    } else if code == -2 {
        "Insufficient memory"@
    } else if code == -3 {
        "A System/C library call failed"@
    } else if code == -4 {
        "Not supported by component"@
    } else if code == -5 {
        "Access to the counters was lost or interrupted"@
    } else if code == -6 {
        "Internal error, please send mail to the developers"@
    } else if code == -7 {
        "Event does not exist"@
    } else if code == -8 {
        "Event exists, but cannot be counted due to counter resource limitations"@
    } else if code == -9 {
        "EventSet is currently not running"@
    } else if code == -10 {
        "EventSet is currently counting"@
    } else if code == -11 {
        "No such EventSet available"@
    } else if code == -12 {
        "Event in EventSet is not a valid preset"@
    } else if code == -13 {
        "Hardware does not support performance counters"@
    } else if code == -14 {
        "Unknown error code"@
    } else if code == -15 {
        "Permission level does not permit operation"@
    } else if code == -16 {
        "PAPI hasn't been initialized yet"@
    } else if code == -17 {
        "Component Index isn't set"@
    } else if code == -18 {
        "Not supported"@
    } else if code == -19 {
        "Not implemented"@
    } else if code == -20 {
        "Buffer size exceeded"@
    } else if code == -21 {
        "EventSet domain is not supported for the operation"@
    } else if code == -22 {
        "Invalid or missing event attributes"@
    } else if code == -23 {
        "Too many events or attributes"@
    } else if code == -24 {
        "Bad combination of features"@
    } else {
        "NULL"@
    }
}

/// The character for one decimal digit.
pub open spec fn digit_char(d: int) -> char {
    if d == 0 {
        '0'
    } else if d == 1 {
        '1'
    } else if d == 2 {
        '2'
    } else if d == 3 {
        '3'
    } else if d == 4 {
        '4'
    } else if d == 5 {
        '5'
    } else if d == 6 {
        '6'
    } else if d == 7 {
        '7'
    } else if d == 8 {
        '8'
    } else {
        '9'
    }
}

/// The decimal rendering of a non-negative number.
pub open spec fn spec_decimal(n: int) -> Seq<char>
    decreases n,
{
    if n < 10 {
        seq![digit_char(n)]
    } else {
        spec_decimal(n / 10).push(digit_char(n % 10))
    }
}

/// The decimal rendering of a signed code: a minus sign before the
/// magnitude when negative.
pub open spec fn spec_signed_decimal(code: int) -> Seq<char> {
    if code < 0 {
        seq!['-'] + spec_decimal(-code)
    } else {
        spec_decimal(code)
    }
}

/// The rendering of a whole error: its code and its message text.
pub open spec fn spec_describe(code: i32) -> Seq<char> {
    "PapiError with error code "@ + spec_signed_decimal(code as int) + ", i.e \""@ + spec_message(
        code,
    ) + "\""@
}

fn digit_str(d: u32) -> (s: &'static str)
    requires
        d < 10,
    ensures
        s@ == seq![digit_char(d as int)],
{
    let s = match d {
        0 => "0",
        1 => "1",
        2 => "2",
        3 => "3",
        4 => "4",
        5 => "5",
        6 => "6",
        7 => "7",
        8 => "8",
        _ => "9",
    };
    proof {
        reveal_strlit("0");
        reveal_strlit("1");
        reveal_strlit("2");
        reveal_strlit("3");
        reveal_strlit("4");
        reveal_strlit("5");
        reveal_strlit("6");
        reveal_strlit("7");
        reveal_strlit("8");
        reveal_strlit("9");
        assert(s@ =~= seq![digit_char(d as int)]);
    }
    s
}

/// Appends the decimal rendering of `n`.
fn push_decimal(out: &mut String, n: u32)
    ensures
        final(out)@ == old(out)@ + spec_decimal(n as int),
    decreases n,
{
    if n >= 10 {
        push_decimal(out, n / 10);
    }
    let d = digit_str(n % 10);
    out.append(d);
    proof {
        if n >= 10 {
            assert(spec_decimal(n as int) == spec_decimal(n as int / 10).push(
                digit_char(n as int % 10),
            ));
            assert(out@ =~= old(out)@ + spec_decimal(n as int));
        } else {
            assert(out@ =~= old(out)@ + spec_decimal(n as int));
        }
    }
}

impl PapiError {
    /// The semantic class of this error.
    pub fn kind(&self) -> (k: ErrorKind)
        ensures
            k == spec_kind(self.code),
    {
        if self.code > 0 {
            ErrorKind::VersionMismatch
        } else if self.code == PAPI_ENOEVNT {
            ErrorKind::EventNotFound
        } else if self.code == PAPI_ECNFLCT {
            ErrorKind::CountersInUse
        } else if self.code == PAPI_ENOTRUN || self.code == PAPI_EISRUN {
            ErrorKind::InvalidStateTransition
        } else if self.code == PAPI_ENOINIT {
            ErrorKind::NotInitialized
        } else {
            ErrorKind::Other
        }
    }

    /// Whether retrying the failed call is the documented response.
    /// Only slot saturation is safe to retry; every other failure is
    /// either a programming error or an environment mismatch.
    pub fn is_retryable(&self) -> (r: bool)
        ensures
            r == (spec_kind(self.code) == ErrorKind::CountersInUse),
    {
        self.code == PAPI_ECNFLCT
    }

    /// The documented caller response to this error, if there is one.
    pub fn suggested_action(&self) -> (a: Option<Action>)
        ensures
            a == (if spec_kind(self.code) == ErrorKind::CountersInUse {
                Some(Action::Retry)
            } else {
                None::<Action>
            }),
    {
        if self.code == PAPI_ECNFLCT {
            Some(Action::Retry)
        } else {
            None
        }
    }

    /// The documented message text for this error's code.
    ///
    /// The text depends on the code alone, never on call history or on
    /// the calling thread.
    pub fn message(&self) -> (m: &'static str)
        ensures
            m@ == spec_message(self.code),
    {
        if self.code == 0 {
            "No error"
        } else if self.code == -1 {
            "Invalid argument"
        } else if self.code == -2 {
            "Insufficient memory"
        } else if self.code == -3 {
            "A System/C library call failed"
        } else if self.code == -4 {
            "Not supported by component"
        } else if self.code == -5 {
            "Access to the counters was lost or interrupted"
        } else if self.code == -6 {
            "Internal error, please send mail to the developers"
        } else if self.code == -7 {
            "Event does not exist"
        } else if self.code == -8 {
            "Event exists, but cannot be counted due to counter resource limitations"
        } else if self.code == -9 {
            "EventSet is currently not running"
        } else if self.code == -10 {
            "EventSet is currently counting"
        } else if self.code == -11 {
            "No such EventSet available"
        } else if self.code == -12 {
            "Event in EventSet is not a valid preset"
        } else if self.code == -13 {
            "Hardware does not support performance counters"
        } else if self.code == -14 {
            "Unknown error code"
        } else if self.code == -15 {
            "Permission level does not permit operation"
        } else if self.code == -16 {
            "PAPI hasn't been initialized yet"
        } else if self.code == -17 {
            "Component Index isn't set"
        } else if self.code == -18 {
            "Not supported"
        } else if self.code == -19 {
            "Not implemented"
        } else if self.code == -20 {
            "Buffer size exceeded"
        } else if self.code == -21 {
            "EventSet domain is not supported for the operation"
        } else if self.code == -22 {
            "Invalid or missing event attributes"
        } else if self.code == -23 {
            "Too many events or attributes"
        } else if self.code == -24 {
            "Bad combination of features"
        } else {
            "NULL"
        }
    }

    /// Renders the whole error as text: the raw code followed by its
    /// message, the form callers print when reporting a failure.
    pub fn describe(&self) -> (d: String)
        ensures
            d@ == spec_describe(self.code),
    {
        let mut out = String::from_str("PapiError with error code ");
        if self.code < 0 {
            out.append("-");
            proof {
                reveal_strlit("-");
                assert("-"@ =~= seq!['-']);
            }
            let wide: i64 = self.code as i64;
            let mag64: i64 = -wide;
            let mag: u32 = mag64 as u32;
            push_decimal(&mut out, mag);
        } else {
            push_decimal(&mut out, self.code as u32);
        }
        out.append(", i.e \"");
        out.append(self.message());
        out.append("\"");
        proof {
            assert(out@ =~= spec_describe(self.code));
        }
        out
    }
}

/// Turns a raw status code into a result: the sentinel success code
/// becomes `Ok`, every other code becomes an error carrying that code.
pub fn check_error(code: i32) -> (r: Result<(), PapiError>)
    ensures
        r == (if code == PAPI_OK {
            Ok::<(), PapiError>(())
        } else {
            Err::<(), PapiError>(PapiError { code })
        }),
{
    if code == PAPI_OK {
        Ok(())
    } else {
        Err(PapiError { code })
    }
}

/// Rejecting a stop while not running, or a second start while already
/// running, is classified as an invalid state transition, and slot
/// saturation is the one retryable class.
pub proof fn lemma_rejection_kinds()
    ensures
        spec_kind(PAPI_ENOTRUN) == ErrorKind::InvalidStateTransition,
        spec_kind(PAPI_EISRUN) == ErrorKind::InvalidStateTransition,
        spec_kind(PAPI_ENOEVNT) == ErrorKind::EventNotFound,
        spec_kind(PAPI_ECNFLCT) == ErrorKind::CountersInUse,
{
}

} // verus!
