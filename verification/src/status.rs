//! Decoding of native integer status codes.
//!
//! Every fallible native call in the system funnels its status through one
//! rule: `0` means success, `1` is the end-of-sequence sentinel (no more
//! data; only meaningful for iterator-style operations), and any other value
//! is an opaque failure code passed through verbatim.

use vstd::prelude::*;

verus! {

/// A typed failure: the nonzero, non-sentinel status code of a native call.
#[derive(Clone, Copy, Debug, PartialEq, Eq, Structural)]
pub struct Error {
    pub result: i32,
}

/// The error taxonomy of handle creation: a creation call that returned no
/// object, or a native call that failed with a status code.
#[derive(Clone, Copy, Debug, PartialEq, Eq, Structural)]
pub enum ErrorKind {
    /// A factory or creation call returned no object.
    NullHandle,
    /// A native call failed with the carried status code.
    Failure(Error),
}

/// The decoded meaning of a native status code.
#[derive(Clone, Copy, Debug, PartialEq, Eq, Structural)]
pub enum StatusResult {
    /// Status `0`: the call succeeded.
    Success,
    /// Status `1`: no more data; a sentinel, not an error.
    EndOfSequence,
    /// Any other status: an opaque failure code.
    Failure(i32),
}

impl StatusResult {
    /// The single decoding rule, as a mathematical function.
    pub open spec fn decode_spec(code: i32) -> StatusResult {
        if code == 0 {
            StatusResult::Success
        } else if code == 1 {
            StatusResult::EndOfSequence
        } else {
            StatusResult::Failure(code)
        }
    }

    /// Decodes a native status code. No other mapping is permitted anywhere
    /// in the crate: every native status goes through this rule.
    pub fn decode(code: i32) -> (r: StatusResult)
        ensures
            r == Self::decode_spec(code),
    {
        if code == 0 {
            StatusResult::Success
        } else if code == 1 {
            StatusResult::EndOfSequence
        } else {
            StatusResult::Failure(code)
        }
    }
}

/// The decoding rule is total and pins every code: `0` decodes to success,
/// `1` to the end-of-sequence sentinel, and every other code to a failure
/// carrying exactly that code.
pub proof fn lemma_status_decode_total()
    ensures
        StatusResult::decode_spec(0) == StatusResult::Success,
        StatusResult::decode_spec(1) == StatusResult::EndOfSequence,
        forall|n: i32| n != 0 && n != 1 ==> StatusResult::decode_spec(n) == StatusResult::Failure(n),
{
}

/// Checks the status of a native call that yields no data: `Ok` exactly on
/// status `0`, otherwise the failure carrying the code (the sentinel `1` is
/// treated as a failure here, since only iterator-style calls may emit it).
pub fn void_result(result: i32) -> (r: Result<(), Error>)
    ensures
        result == 0 ==> r == Result::<(), Error>::Ok(()),
        result != 0 ==> r == Result::<(), Error>::Err(Error { result }),
{
    match result {
        0 => Ok(()),
        result => Err(Error { result }),
    }
}

/// Checks the status of a native call whose "no more data" answer is
/// recoverable: `Ok(Some(()))` on `0`, `Ok(None)` on the sentinel `1`, and
/// the failure carrying the code on everything else.
pub fn void_option_result(result: i32) -> (r: Result<Option<()>, Error>)
    ensures
        result == 0 ==> r == Result::<Option<()>, Error>::Ok(Some(())),
        result == 1 ==> r == Result::<Option<()>, Error>::Ok(None),
        result != 0 && result != 1 ==> r == Result::<Option<()>, Error>::Err(Error { result }),
{
    match result {
        0 => Ok(Some(())),
        1 => Ok(None),
        result => Err(Error { result }),
    }
}

} // verus!
