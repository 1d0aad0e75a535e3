//! Classification of raw status codes crossing the trust boundary.
//!
//! Every boundary call returns an integer status next to its output slots.
//! The status must be classified before any output buffer is trusted: zero
//! always means success, a recognized failure code carries a message (taken
//! verbatim from the error buffer when the host filled it, otherwise a
//! caller-supplied default that names the failed operation), and anything
//! else is an unrecognized answer that is never trusted.

use vstd::prelude::*;

use crate::buffer::TransientBuffer;
use crate::error::DispatchError;

verus! {

/// Highest status code the host is known to answer with; larger or negative
/// values come from an untrusted or out-of-sync host.
pub const MAX_KNOWN_STATUS: i32 = 5;

/// Structured outcome of one boundary call's raw status code.
pub enum BoundaryOutcome {
    /// The host reported success; its output slots may now be consumed.
    Success,
    /// The host reported a structured failure with an attributable message.
    RecoverableError { message: String },
    /// The host answered with a status this side does not recognize.
    Unknown,
}

/// The outcome that `classify_status` must produce: zero status always
/// succeeds regardless of buffer state; a recognized failure code uses the
/// buffered message verbatim, or the default when the buffer is unset; an
/// unrecognized status is mapped to `Unknown`.
pub open spec fn spec_classify(status: i32, buffered: Option<String>, default_message: String) -> BoundaryOutcome {
    if status == 0 {
        BoundaryOutcome::Success
    } else if 1 <= status <= MAX_KNOWN_STATUS {
        match buffered {
            Some(m) => BoundaryOutcome::RecoverableError { message: m },
            None => BoundaryOutcome::RecoverableError { message: default_message },
        }
    } else {
        BoundaryOutcome::Unknown
    }
}

/// Translates a raw boundary status into a structured outcome.
///
/// The error buffer is consumed on every path, including success, so no
/// message buffer is ever left half-owned.  This function never panics,
/// whatever status the host answered with.
pub fn classify_status(status: i32, error: TransientBuffer<String>, default_message: String) -> (r: BoundaryOutcome)
    ensures
        r == spec_classify(status, error.contents(), default_message),
{
    let buffered = error.consume();
    if status == 0 {
        BoundaryOutcome::Success
    } else if 1 <= status && status <= MAX_KNOWN_STATUS {
        match buffered {
            Some(m) => BoundaryOutcome::RecoverableError { message: m },
            None => BoundaryOutcome::RecoverableError { message: default_message },
        }
    } else {
        BoundaryOutcome::Unknown
    }
}

/// Message standing in for an answer this side does not recognize.
pub open spec fn spec_unknown_backend_message() -> Seq<char> {
    "unknown backend failure"@
}

/// The message a failed boundary call is reported with: the buffered host
/// message when there is one, the caller's default otherwise, and a generic
/// text for an unrecognized status.
pub open spec fn spec_failure_message(
    status: i32,
    buffered: Option<String>,
    default_message: Seq<char>,
) -> Seq<char> {
    if 1 <= status <= MAX_KNOWN_STATUS {
        match buffered {
            Some(m) => m@,
            None => default_message,
        }
    } else {
        spec_unknown_backend_message()
    }
}

/// Rebuilds a host-side message slot as a one-time-consume buffer.
pub fn message_buffer(script_message: &Option<String>) -> (r: TransientBuffer<String>)
    ensures
        r.contents() == *script_message,
{
    match script_message {
        Some(m) => TransientBuffer::filled(m.clone()),
        None => TransientBuffer::unset(),
    }
}

/// Classifies a boundary status and turns any failure into the backend
/// error it must be reported as.  Zero status means the output slots may be
/// trusted; everything else carries an attributable message.
pub fn check_status(status: i32, error: TransientBuffer<String>, default_message: String) -> (r:
    Result<(), DispatchError>)
    ensures
        (status == 0) <==> r is Ok,
        status != 0 ==> ({
            &&& r matches Err(e)
            &&& e matches DispatchError::RecoverableBackend { message }
            &&& message@ == spec_failure_message(status, error.contents(), default_message@)
        }),
{
    match classify_status(status, error, default_message) {
        BoundaryOutcome::Success => Ok(()),
        BoundaryOutcome::RecoverableError { message } => Err(
            DispatchError::RecoverableBackend { message },
        ),
        BoundaryOutcome::Unknown => Err(
            DispatchError::RecoverableBackend {
                message: String::from_str("unknown backend failure"),
            },
        ),
    }
}

} // verus!
