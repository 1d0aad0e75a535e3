//! Host-supplied address-translation and contract-creation capability.
//!
//! The host hands the engine a table of operations next to an opaque state
//! token.  Each operation answers with a raw status, an output slot, an
//! error slot and a gas figure; the answer is classified before any output
//! is trusted, and every failure is reported with a message attributable to
//! the operation that failed.

use vstd::prelude::*;

use vstd::string::StrSliceExecFns;
use vstd::utf8::{encode_utf8, valid_utf8};

use crate::boundary::{check_status, message_buffer, spec_failure_message};
use crate::context::clone_bytes;
use crate::error::DispatchError;
use crate::gas::GasReport;
use crate::lookup::{assoc_bytes, assoc_str, spec_assoc_bytes, spec_assoc_str};

verus! {

/// Hex digit the upper-case encoding uses for one value below sixteen.
pub open spec fn spec_hex_digit(n: u8) -> char {
    if n == 0 {
        '0'
    } else if n == 1 {
        '1'
    } else if n == 2 {
        '2'
    } else if n == 3 {
        '3'
    } else if n == 4 {
        '4'
    } else if n == 5 {
        '5'
    } else if n == 6 {
        '6'
    } else if n == 7 {
        '7'
    } else if n == 8 {
        '8'
    } else if n == 9 {
        '9'
    } else if n == 10 {
        'A'
    } else if n == 11 {
        'B'
    } else if n == 12 {
        'C'
    } else if n == 13 {
        'D'
    } else if n == 14 {
        'E'
    } else {
        'F'
    }
}

/// Upper-case hex encoding: two digits per byte, high nibble first.
pub open spec fn spec_hex_upper(b: Seq<u8>) -> Seq<char>
    decreases b.len(),
{
    if b.len() == 0 {
        Seq::empty()
    } else {
        spec_hex_upper(b.drop_last()) + seq![
            spec_hex_digit(b.last() / 16),
            spec_hex_digit(b.last() % 16),
        ]
    }
}

/// Relies on hex::encode_upper: two upper-case hex digits per input byte,
/// high nibble first.
#[verifier::external_body]
fn hex_encode_upper(data: &Vec<u8>) -> (r: String)
    ensures
        r@ == spec_hex_upper(data@),
{
    hex::encode_upper(data.as_slice())
}

/// One scripted answer of a host API operation: a raw status code, an
/// output slot, an error-message slot, and the gas the operation costs.
pub struct ApiScript {
    pub status: i32,
    pub output: Option<Vec<u8>>,
    pub error_message: Option<String>,
    pub used_gas: u64,
}

/// Opaque host-side state the API operations close over.  The host owns it;
/// this side never looks inside.
#[allow(non_camel_case_types)]
pub struct api_t {}

/// The host's API operations, one answer table per operation: address
/// humanization and canonicalization keyed by their input, and external
/// contract creation keyed by the request bytes.
#[allow(non_camel_case_types)]
pub struct GoApi_vtable {
    pub humanize_address: Vec<(Vec<u8>, ApiScript)>,
    pub canonicalize_address: Vec<(String, ApiScript)>,
    pub contract_external: Vec<(Vec<u8>, ApiScript)>,
}

/// Address-translation capability handed to a sandboxed instance: the host
/// state token plus the operation table that works on it.
pub struct GoApi {
    pub state: api_t,
    pub vtable: GoApi_vtable,
}

/// How one API answer is classified once its status is checked.
pub enum ApiClass {
    /// The host has no answer for this input; it fails with the operation's
    /// default message and costs nothing.
    MissingScript,
    /// Non-zero status: a structured host failure.
    HostError,
    /// A status this side does not recognize.
    UnknownStatus,
    /// Success status, but the output slot was left unset: a protocol
    /// violation.
    UnsetOutput,
    /// Success status with an output to consume.
    Output,
}

/// Classifies a scripted answer.
pub open spec fn spec_api_class(s: Option<ApiScript>) -> ApiClass {
    match s {
        None => ApiClass::MissingScript,
        Some(a) => {
            if a.status == 0 {
                if a.output is Some {
                    ApiClass::Output
                } else {
                    ApiClass::UnsetOutput
                }
            } else if 1 <= a.status <= crate::boundary::MAX_KNOWN_STATUS {
                ApiClass::HostError
            } else {
                ApiClass::UnknownStatus
            }
        },
    }
}

/// Gas an answer charges; a missing answer costs nothing.
pub open spec fn spec_api_gas(s: Option<ApiScript>) -> u64 {
    match s {
        None => 0u64,
        Some(a) => a.used_gas,
    }
}

/// The error message a failed API call carries.
pub open spec fn spec_api_error_message(s: Option<ApiScript>, default_message: Seq<char>) -> Seq<
    char,
> {
    match s {
        None => default_message,
        Some(a) => {
            if a.status == 0 {
                spec_unset_output_message()
            } else {
                spec_failure_message(a.status, a.error_message, default_message)
            }
        },
    }
}

/// Message of the protocol violation where success came with no output.
pub open spec fn spec_unset_output_message() -> Seq<char> {
    "host reported success but left the output unset"@
}

/// Message reported when a host answer is not valid text.
pub open spec fn spec_invalid_text_message() -> Seq<char> {
    "host answered with bytes that are not valid text"@
}

/// Default message of a failed canonicalization, naming the input address.
pub open spec fn spec_canonicalize_default(human: Seq<char>) -> Seq<char> {
    "failed to canonicalize the address: "@ + human
}

/// Default message of a failed humanization, naming the input in upper-case
/// hex.
pub open spec fn spec_humanize_default(canonical: Seq<u8>) -> Seq<char> {
    "failed to humanize the address: "@ + spec_hex_upper(canonical)
}

/// Default message of a failed external contract creation.
pub open spec fn spec_new_contract_default() -> Seq<char> {
    "failed to create the contract for the request"@
}

/// Shared tail of every API operation: classify the answer, consume the
/// slots, and hand out either the output bytes or the attributable error.
fn settle_api_answer(script: Option<&ApiScript>, default_message: String) -> (r: (
    Result<Vec<u8>, DispatchError>,
    GasReport,
))
    ensures
        ({
            let s = match script {
                Some(a) => Some(*a),
                None => None,
            };
            &&& r.1.used_internally == spec_api_gas(s)
            &&& r.1.used_externally == 0
            &&& (spec_api_class(s) is Output ==> (r.0 matches Ok(v) && v@ == s.unwrap().output.unwrap()@))
            &&& (spec_api_class(s) is UnsetOutput ==> ({
                &&& r.0 matches Err(e)
                &&& e matches DispatchError::BoundaryProtocolViolation { message }
                &&& message@ == spec_unset_output_message()
            }))
            &&& (!(spec_api_class(s) is Output) && !(spec_api_class(s) is UnsetOutput) ==> ({
                &&& r.0 matches Err(e)
                &&& e matches DispatchError::RecoverableBackend { message }
                &&& message@ == spec_api_error_message(s, default_message@)
            }))
        }),
{
    let script = match script {
        Some(a) => a,
        None => {
            return (
                Err(DispatchError::RecoverableBackend { message: default_message }),
                GasReport::zero(),
            );
        },
    };
    let report = GasReport { used_internally: script.used_gas, used_externally: 0 };
    let error = message_buffer(&script.error_message);
    match check_status(script.status, error, default_message) {
        Ok(()) => {},
        Err(e) => {
            return (Err(e), report);
        },
    }
    match &script.output {
        Some(bytes) => (Ok(clone_bytes(bytes)), report),
        None => (
            Err(
                DispatchError::BoundaryProtocolViolation {
                    message: String::from_str("host reported success but left the output unset"),
                },
            ),
            report,
        ),
    }
}

/// Decodes host-answered bytes that are supposed to be text.
fn settle_text_answer(r: (Result<Vec<u8>, DispatchError>, GasReport)) -> (t: (
    Result<String, DispatchError>,
    GasReport,
))
    ensures
        t.1 == r.1,
        (r.0 matches Err(e) ==> (t.0 matches Err(e2) && e2 == e)),
        (r.0 matches Ok(v) ==> ({
            &&& valid_utf8(v@) ==> (t.0 matches Ok(s) && encode_utf8(s@) == v@)
            &&& !valid_utf8(v@) ==> ({
                &&& t.0 matches Err(e)
                &&& e matches DispatchError::RecoverableBackend { message }
                &&& message@ == spec_invalid_text_message()
            })
        })),
{
    let (res, report) = r;
    match res {
        Err(e) => (Err(e), report),
        Ok(bytes) => match string_from_utf8(bytes) {
            Some(s) => (Ok(s), report),
            None => (
                Err(
                    DispatchError::RecoverableBackend {
                        message: String::from_str(
                            "host answered with bytes that are not valid text",
                        ),
                    },
                ),
                report,
            ),
        },
    }
}

/// Relies on String::from_utf8: succeeds exactly on valid UTF-8 input, and
/// the returned string's UTF-8 form is the input itself.
#[verifier::external_body]
fn string_from_utf8(bytes: Vec<u8>) -> (r: Option<String>)
    ensures
        (r is Some) <==> valid_utf8(bytes@),
        r matches Some(s) ==> encode_utf8(s@) == bytes@,
{
    String::from_utf8(bytes).ok()
}

impl GoApi {
    /// Translates a human-readable address into its canonical byte form by
    /// asking the host.  The gas the host charges is reported even when the
    /// operation fails.
    pub fn canonical_address(&self, human: &String) -> (r: (
        Result<Vec<u8>, DispatchError>,
        GasReport,
    ))
        ensures
            ({
                let s = spec_assoc_str(self.vtable.canonicalize_address@, human@);
                &&& r.1.used_internally == spec_api_gas(s)
                &&& r.1.used_externally == 0
                &&& (spec_api_class(s) is Output ==> (r.0 matches Ok(v) && v@
                    == s.unwrap().output.unwrap()@))
                &&& (spec_api_class(s) is UnsetOutput ==> ({
                    &&& r.0 matches Err(e)
                    &&& e matches DispatchError::BoundaryProtocolViolation { message }
                    &&& message@ == spec_unset_output_message()
                }))
                &&& (!(spec_api_class(s) is Output) && !(spec_api_class(s) is UnsetOutput) ==> ({
                    &&& r.0 matches Err(e)
                    &&& e matches DispatchError::RecoverableBackend { message }
                    &&& message@ == spec_api_error_message(s, spec_canonicalize_default(human@))
                }))
            }),
    {
        let default_message = String::from_str("failed to canonicalize the address: ").concat(
            human.as_str(),
        );
        let script = assoc_str(&self.vtable.canonicalize_address, human);
        settle_api_answer(script, default_message)
    }

    /// Translates a canonical address back into its human-readable form by
    /// asking the host; the answer must be valid text.
    pub fn human_address(&self, canonical: &Vec<u8>) -> (r: (
        Result<String, DispatchError>,
        GasReport,
    ))
        ensures
            ({
                let s = spec_assoc_bytes(self.vtable.humanize_address@, canonical@);
                &&& r.1.used_internally == spec_api_gas(s)
                &&& r.1.used_externally == 0
                &&& (spec_api_class(s) is Output && valid_utf8(s.unwrap().output.unwrap()@) ==> (
                r.0 matches Ok(t) && encode_utf8(t@) == s.unwrap().output.unwrap()@))
                &&& (spec_api_class(s) is Output && !valid_utf8(s.unwrap().output.unwrap()@)
                    ==> ({
                    &&& r.0 matches Err(e)
                    &&& e matches DispatchError::RecoverableBackend { message }
                    &&& message@ == spec_invalid_text_message()
                }))
                &&& (spec_api_class(s) is UnsetOutput ==> ({
                    &&& r.0 matches Err(e)
                    &&& e matches DispatchError::BoundaryProtocolViolation { message }
                    &&& message@ == spec_unset_output_message()
                }))
                &&& (!(spec_api_class(s) is Output) && !(spec_api_class(s) is UnsetOutput) ==> ({
                    &&& r.0 matches Err(e)
                    &&& e matches DispatchError::RecoverableBackend { message }
                    &&& message@ == spec_api_error_message(s, spec_humanize_default(canonical@))
                }))
            }),
    {
        let default_message = String::from_str("failed to humanize the address: ").concat(
            hex_encode_upper(canonical).as_str(),
        );
        let script = assoc_bytes(&self.vtable.humanize_address, canonical.as_slice());
        settle_text_answer(settle_api_answer(script, default_message))
    }

    /// Asks the host to instantiate a new external contract for the given
    /// request; the answer is the new contract's address as text.  The gas
    /// figure counts as host-side work.
    pub fn new_contract(&self, request: &Vec<u8>, gas_limit: u64) -> (r: (
        Result<String, DispatchError>,
        GasReport,
    ))
        ensures
            ({
                let s = spec_assoc_bytes(self.vtable.contract_external@, request@);
                &&& r.1.used_internally == 0
                &&& r.1.used_externally == vstd::math::min(spec_api_gas(s) as int, gas_limit as int)
                &&& (spec_api_class(s) is Output && valid_utf8(s.unwrap().output.unwrap()@) ==> (
                r.0 matches Ok(t) && encode_utf8(t@) == s.unwrap().output.unwrap()@))
                &&& (spec_api_class(s) is Output && !valid_utf8(s.unwrap().output.unwrap()@)
                    ==> ({
                    &&& r.0 matches Err(e)
                    &&& e matches DispatchError::RecoverableBackend { message }
                    &&& message@ == spec_invalid_text_message()
                }))
                &&& (spec_api_class(s) is UnsetOutput ==> ({
                    &&& r.0 matches Err(e)
                    &&& e matches DispatchError::BoundaryProtocolViolation { message }
                    &&& message@ == spec_unset_output_message()
                }))
                &&& (!(spec_api_class(s) is Output) && !(spec_api_class(s) is UnsetOutput) ==> ({
                    &&& r.0 matches Err(e)
                    &&& e matches DispatchError::RecoverableBackend { message }
                    &&& message@ == spec_api_error_message(s, spec_new_contract_default())
                }))
            }),
    {
        let default_message = String::from_str("failed to create the contract for the request");
        let script = assoc_bytes(&self.vtable.contract_external, request.as_slice());
        let (res, report) = settle_text_answer(settle_api_answer(script, default_message));
        // The host meters this operation against the caller's limit, and the
        // whole cost is host-side work.
        let charged = if report.used_internally > gas_limit {
            gas_limit
        } else {
            report.used_internally
        };
        (res, GasReport { used_internally: 0, used_externally: charged })
    }
}

} // verus!
