//! Error taxonomy of the dispatcher.
//!
//! Every failure propagates to the immediate caller as a typed value; none
//! is silently swallowed, and none triggers an automatic retry here.

use vstd::prelude::*;

verus! {

/// A failure of one cross-contract invocation.
#[derive(Debug)]
pub enum DispatchError {
    /// The host returned success but omitted a required output, such as a
    /// null storage handle next to an Ok status.  Fatal to the current call
    /// and never retried.
    BoundaryProtocolViolation { message: String },
    /// The host reported a structured error with a message; the current call
    /// fails but the enclosing chain survives.
    RecoverableBackend { message: String },
    /// The invocation consumed its full budget; distinct from other failures
    /// because a retry with the same budget cannot succeed.
    GasExhausted,
    /// The call chain would exceed the configured maximum depth; detected
    /// before any resource is resolved for the failing hop.
    DepthExceeded,
    /// The envelope for the contract entry point could not be encoded.
    Serialization { message: String },
}

impl DispatchError {
    /// Human-readable description of the failure.
    pub fn describe(&self) -> (r: String)
        ensures
            self matches DispatchError::BoundaryProtocolViolation { message } ==> r@ == message@,
            self matches DispatchError::RecoverableBackend { message } ==> r@ == message@,
            self matches DispatchError::Serialization { message } ==> r@ == message@,
            self is GasExhausted ==> r@ == "gas budget exhausted"@,
            self is DepthExceeded ==> r@ == "maximum call depth exceeded"@,
    {
        match self {
            DispatchError::BoundaryProtocolViolation { message } => message.clone(),
            DispatchError::RecoverableBackend { message } => message.clone(),
            DispatchError::Serialization { message } => message.clone(),
            DispatchError::GasExhausted => String::from_str("gas budget exhausted"),
            DispatchError::DepthExceeded => String::from_str("maximum call depth exceeded"),
        }
    }
}

} // verus!
