//! The host boundary of the dispatcher: query access, call-context
//! resolution, and the release of host-owned resources.
//!
//! The host supplies one operation table (the settled boundary interface)
//! and owns a mutable state token.  Every operation answers with a raw
//! status next to output slots; the answers are classified before any slot
//! is trusted.  Resources obtained from the resolver are scoped to exactly
//! one invocation and handed back on that invocation's every exit path.

use vstd::prelude::*;

use crate::api::GoApi;
use crate::boundary::{check_status, message_buffer, spec_failure_message, MAX_KNOWN_STATUS};
use crate::context::{
    clone_bytes, clone_entries, spec_entries_view, CallContext, CodeIdentity, QuerierHandle,
    StorageHandle, CODE_IDENTITY_LENGTH,
};
use crate::engine::ModuleCache;
use crate::error::DispatchError;
use crate::gas::GasReport;
use crate::ledger::{spec_bump, ResourceLedger};
use crate::lookup::{assoc_bytes, assoc_str, spec_assoc_bytes, spec_assoc_str};

verus! {

/// The host's scripted answer to one call-context resolution: a raw status,
/// the code-identity output slot, whether the two resource handles were
/// granted, the storage visible through the granted cursor, an error slot,
/// and the gas the resolution costs.
pub struct ResolveScript {
    pub status: i32,
    pub code_identity: Option<Vec<u8>>,
    pub grants_storage: bool,
    pub grants_querier: bool,
    pub storage_entries: Vec<(Vec<u8>, Vec<u8>)>,
    pub error_message: Option<String>,
    pub used_gas: u64,
}

/// The host's scripted answer to one external query.
pub struct QueryScript {
    pub status: i32,
    pub output: Option<Vec<u8>>,
    pub error_message: Option<String>,
    pub used_gas: u64,
}

/// The host's scripted answer to one value transfer.
pub struct TransferScript {
    pub from: String,
    pub to: String,
    pub status: i32,
    pub used_gas: u64,
    pub error_message: Option<String>,
}

/// The host's answer when asked for the shared engine handles: the API
/// capability and the module cache.
pub struct EngineHandlesScript {
    pub status: i32,
    pub api: Option<GoApi>,
    pub cache: Option<ModuleCache>,
    pub error_message: Option<String>,
}

/// Host-owned mutable state behind the querier capability; it keeps the
/// ledger of boundary resources.
#[allow(non_camel_case_types)]
pub struct querier_t {
    pub(crate) ledger: ResourceLedger,
}

impl querier_t {
    /// The resource ledger this state carries.
    pub closed spec fn spec_ledger(self) -> ResourceLedger {
        self.ledger
    }

    /// Fresh host state: nothing allocated, nothing released, the resolver
    /// never crossed.
    pub fn new() -> (r: querier_t)
        ensures
            r.spec_ledger().spec_allocated() == 0,
            r.spec_ledger().spec_released() == 0,
            r.spec_ledger().spec_resolve_calls() == 0,
    {
        querier_t { ledger: ResourceLedger::new() }
    }

    /// The resource ledger this state carries.
    pub fn ledger(&self) -> (r: &ResourceLedger)
        ensures
            *r == self.spec_ledger(),
    {
        &self.ledger
    }
}

/// The settled boundary interface, one scripted answer table per operation,
/// together with the configured depth limit for new hops.
#[allow(non_camel_case_types)]
pub struct Querier_vtable {
    pub resolve_call_context: Vec<(String, ResolveScript)>,
    pub get_engine_handles: EngineHandlesScript,
    pub transfer_value: Vec<TransferScript>,
    pub query_external: Vec<(Vec<u8>, QueryScript)>,
    pub max_call_depth: u32,
}

/// Cross-contract query and invocation capability: the host's mutable state
/// next to the operation table that works on it.
pub struct GoQuerier {
    pub state: querier_t,
    pub vtable: Querier_vtable,
}

/// Outer result of one external query, as the host boundary reports it.
pub enum SystemQueryResult {
    /// The queried contract answered with these bytes.
    Data { data: Vec<u8> },
    /// The queried contract itself failed.
    ContractFailure { message: String },
    /// The host's query layer failed.
    SystemFailure { message: String },
    /// The host answered, but the answer could not be decoded; the raw
    /// response rides along for diagnosis.
    InvalidResponse { error: String, response: Vec<u8> },
}

/// What parsing a host query response yields: layer by layer, a decode
/// failure, a host-level failure, a contract-level failure, or data.  The
/// parse is a fixed function of the bytes alone.
pub uninterp spec fn spec_parsed_query_response(bytes: Seq<u8>) -> Result<
    Result<Result<Seq<u8>, Seq<char>>, Seq<char>>,
    Seq<char>,
>;

/// View of an owned parse result.
pub open spec fn spec_parse_view(
    r: Result<Result<Result<Vec<u8>, String>, String>, String>,
) -> Result<Result<Result<Seq<u8>, Seq<char>>, Seq<char>>, Seq<char>> {
    match r {
        Ok(Ok(Ok(d))) => Ok(Ok(Ok(d@))),
        Ok(Ok(Err(m))) => Ok(Ok(Err(m@))),
        Ok(Err(m)) => Ok(Err(m@)),
        Err(m) => Err(m@),
    }
}

/// Relies on serde_json::from_slice over the boundary's result envelope
/// (an outer ok/error layer for the host, an inner ok/error layer for the
/// queried contract, base64 data): parsing is deterministic in the bytes.
#[verifier::external_body]
fn parse_query_response(bytes: &Vec<u8>) -> (r: Result<
    Result<Result<Vec<u8>, String>, String>,
    String,
>)
    ensures
        spec_parse_view(r) == spec_parsed_query_response(bytes@),
{
    match serde_json::from_slice::<
        cosmwasm_std::SystemResult<cosmwasm_std::ContractResult<cosmwasm_std::Binary>>,
    >(bytes.as_slice()) {
        Ok(cosmwasm_std::SystemResult::Ok(cosmwasm_std::ContractResult::Ok(data))) => Ok(Ok(Ok(
            data.into(),
        ))),
        Ok(cosmwasm_std::SystemResult::Ok(cosmwasm_std::ContractResult::Err(message))) => Ok(Ok(
            Err(message),
        )),
        Ok(cosmwasm_std::SystemResult::Err(error)) => Ok(Err(format!("{}", error))),
        Err(error) => Err(format!("{}", error)),
    }
}

/// How one resolution attempt is classified.
pub enum ResolveClass {
    /// The host knows nothing about this address.
    MissingScript,
    /// Non-zero status: a structured host failure; nothing was allocated.
    HostError,
    /// A status this side does not recognize; nothing was allocated.
    UnknownStatus,
    /// Success status, but at least one resource handle was withheld; the
    /// host allocates nothing in that case, so there is nothing to release.
    IncompleteGrant,
    /// Success status with both handles granted, but the code-identity slot
    /// was left unset; the granted handles must be released.
    MissingCode,
    /// Success status with both handles granted, but the code identity has
    /// the wrong length; the granted handles must be released.
    WrongCodeLength,
    /// A complete, valid call context.
    Resolved,
}

/// The host's scripted answer for one address, if any.
pub open spec fn spec_resolve_script(vt: Querier_vtable, addr: Seq<char>) -> Option<ResolveScript> {
    spec_assoc_str(vt.resolve_call_context@, addr)
}

/// Classifies the resolution of `addr` against the host's script.
pub open spec fn spec_resolve_class(vt: Querier_vtable, addr: Seq<char>) -> ResolveClass {
    match spec_resolve_script(vt, addr) {
        None => ResolveClass::MissingScript,
        Some(s) => {
            if s.status != 0 {
                if 1 <= s.status <= MAX_KNOWN_STATUS {
                    ResolveClass::HostError
                } else {
                    ResolveClass::UnknownStatus
                }
            } else if !s.grants_storage || !s.grants_querier {
                ResolveClass::IncompleteGrant
            } else {
                match s.code_identity {
                    None => ResolveClass::MissingCode,
                    Some(c) => {
                        if c@.len() == CODE_IDENTITY_LENGTH {
                            ResolveClass::Resolved
                        } else {
                            ResolveClass::WrongCodeLength
                        }
                    },
                }
            }
        },
    }
}

/// Whether the host allocated the two resource handles while resolving:
/// exactly when the status was success and both grants were made.
pub open spec fn spec_resolve_allocates(vt: Querier_vtable, addr: Seq<char>) -> bool {
    ||| spec_resolve_class(vt, addr) is Resolved
    ||| spec_resolve_class(vt, addr) is MissingCode
    ||| spec_resolve_class(vt, addr) is WrongCodeLength
}

/// Default message of a failed resolution, naming the address.
pub open spec fn spec_resolve_default(addr: Seq<char>) -> Seq<char> {
    "failed to resolve call context for address "@ + addr
}

/// Message of the protocol violation where a successful resolution came
/// back without a complete context.
pub open spec fn spec_incomplete_context_message() -> Seq<char> {
    "resolver reported success but the call context is incomplete"@
}

/// Message of the host-side failure to stamp fresh resource handles.
pub open spec fn spec_exhausted_handles_message() -> Seq<char> {
    "host cannot allocate further resource handles"@
}

/// The message a failed resolution of `addr` carries.
pub open spec fn spec_resolve_error_message(vt: Querier_vtable, addr: Seq<char>) -> Seq<char> {
    match spec_resolve_script(vt, addr) {
        None => spec_resolve_default(addr),
        Some(s) => spec_failure_message(s.status, s.error_message, spec_resolve_default(addr)),
    }
}

/// The error a failed resolution of `addr` must be reported as, given
/// whether the host could still stamp handles (`could_allocate`).
pub open spec fn spec_is_resolve_failure(
    e: DispatchError,
    vt: Querier_vtable,
    addr: Seq<char>,
    could_allocate: bool,
) -> bool {
    match spec_resolve_class(vt, addr) {
        ResolveClass::MissingScript | ResolveClass::HostError | ResolveClass::UnknownStatus => ({
            &&& e matches DispatchError::RecoverableBackend { message }
            &&& message@ == spec_resolve_error_message(vt, addr)
        }),
        ResolveClass::IncompleteGrant => ({
            &&& e matches DispatchError::BoundaryProtocolViolation { message }
            &&& message@ == spec_incomplete_context_message()
        }),
        ResolveClass::MissingCode | ResolveClass::WrongCodeLength => {
            if could_allocate {
                &&& e matches DispatchError::BoundaryProtocolViolation { message }
                &&& message@ == spec_incomplete_context_message()
            } else {
                &&& e matches DispatchError::RecoverableBackend { message }
                &&& message@ == spec_exhausted_handles_message()
            }
        },
        ResolveClass::Resolved => {
            if could_allocate {
                false
            } else {
                &&& e matches DispatchError::RecoverableBackend { message }
                &&& message@ == spec_exhausted_handles_message()
            }
        },
    }
}

/// Whether one resolution of `addr` succeeds, given whether the host could
/// still stamp handles.
pub open spec fn spec_resolve_succeeds(
    vt: Querier_vtable,
    addr: Seq<char>,
    could_allocate: bool,
) -> bool {
    spec_resolve_class(vt, addr) is Resolved && could_allocate
}

/// The code identity a successful resolution of `addr` yields.
pub open spec fn spec_resolved_code(vt: Querier_vtable, addr: Seq<char>) -> Seq<u8> {
    spec_resolve_script(vt, addr).unwrap().code_identity.unwrap()@
}

/// The storage entries a successful resolution of `addr` scopes the storage
/// cursor to.
pub open spec fn spec_resolved_entries(vt: Querier_vtable, addr: Seq<char>) -> Seq<
    (Seq<u8>, Seq<u8>),
> {
    spec_entries_view(spec_resolve_script(vt, addr).unwrap().storage_entries@)
}

/// Gas one successful resolution of `addr` costs.
pub open spec fn spec_resolve_gas(vt: Querier_vtable, addr: Seq<char>) -> u64 {
    spec_resolve_script(vt, addr).unwrap().used_gas
}

/// Default message of a failed external query.
pub open spec fn spec_query_default() -> Seq<char> {
    "failed to query the external contract"@
}

/// The bytes a successful query answer carries: the output slot, or empty
/// when the host left it unset.
pub open spec fn spec_query_output(q: QueryScript) -> Seq<u8> {
    match q.output {
        Some(b) => b@,
        None => Seq::empty(),
    }
}

/// Gas the host charges for one query under `gas_limit`: its scripted cost,
/// metered down to the limit.
pub open spec fn spec_query_charge(q: QueryScript, gas_limit: u64) -> u64 {
    if q.used_gas <= gas_limit {
        q.used_gas
    } else {
        gas_limit
    }
}

/// Whether a decoded query answer agrees with the parse of the response
/// bytes.
pub open spec fn spec_query_answer_matches(
    a: SystemQueryResult,
    parsed: Result<Result<Result<Seq<u8>, Seq<char>>, Seq<char>>, Seq<char>>,
    response: Seq<u8>,
) -> bool {
    match parsed {
        Ok(Ok(Ok(d))) => a matches SystemQueryResult::Data { data } && data@ == d,
        Ok(Ok(Err(m))) => a matches SystemQueryResult::ContractFailure { message } && message@
            == m,
        Ok(Err(m)) => a matches SystemQueryResult::SystemFailure { message } && message@ == m,
        Err(m) => ({
            &&& a matches SystemQueryResult::InvalidResponse { error, response: raw }
            &&& error@ == m
            &&& raw@ == response
        }),
    }
}

impl GoQuerier {
    /// Asks the host to resolve the execution context for `address`: the
    /// code identity of the contract there, a storage cursor and a querier
    /// session scoped to it.  Crosses the boundary exactly once.  On
    /// failure no resource stays allocated: either the host granted
    /// nothing, or the granted handles are released before returning.  The
    /// second result is the gas the resolution cost; a failed resolution
    /// reports none.
    pub fn resolve_call_context(&mut self, address: &String) -> (r: (
        Result<CallContext, DispatchError>,
        u64,
    ))
        ensures
            final(self).vtable == old(self).vtable,
            final(self).state.spec_ledger().spec_resolve_calls() == spec_bump(
                old(self).state.spec_ledger().spec_resolve_calls(),
            ),
            ({
                let vt = old(self).vtable;
                let l0 = old(self).state.spec_ledger();
                let l1 = final(self).state.spec_ledger();
                let could = l0.spec_can_allocate_pair();
                &&& (spec_resolve_succeeds(vt, address@, could) ==> ({
                    &&& r.0 matches Ok(ctx)
                    &&& ctx.code_identity@ == spec_resolved_code(vt, address@)
                    &&& ctx.storage.spec_owner() == address@
                    &&& ctx.storage.spec_entries() == spec_resolved_entries(vt, address@)
                    &&& ctx.storage.spec_id() == l0.spec_allocated()
                    &&& ctx.querier.spec_id() == l0.spec_allocated() + 1
                    &&& ctx.querier.spec_owner() == address@
                    &&& r.1 == spec_resolve_gas(vt, address@)
                    &&& l1.spec_allocated() == l0.spec_allocated() + 2
                    &&& l1.spec_released() == l0.spec_released()
                    &&& l1.spec_outstanding() >= 2
                }))
                &&& (!spec_resolve_succeeds(vt, address@, could) ==> ({
                    &&& r.0 matches Err(e)
                    &&& spec_is_resolve_failure(e, vt, address@, could)
                    &&& r.1 == 0
                    &&& (if spec_resolve_allocates(vt, address@) && could {
                        &&& l1.spec_allocated() == l0.spec_allocated() + 2
                        &&& l1.spec_released() == l0.spec_released() + 2
                    } else {
                        &&& l1.spec_allocated() == l0.spec_allocated()
                        &&& l1.spec_released() == l0.spec_released()
                    })
                }))
            }),
    {
        self.state.ledger.note_resolve_call();
        let default_message = String::from_str("failed to resolve call context for address ")
            .concat(address.as_str());
        let script = match assoc_str(&self.vtable.resolve_call_context, address) {
            Some(s) => s,
            None => {
                return (Err(DispatchError::RecoverableBackend { message: default_message }), 0);
            },
        };
        let error = message_buffer(&script.error_message);
        match check_status(script.status, error, default_message) {
            Ok(()) => {},
            Err(e) => {
                return ((Err(e), 0));
            },
        }
        if !script.grants_storage || !script.grants_querier {
            return (
                (
                    Err(
                        DispatchError::BoundaryProtocolViolation {
                            message: String::from_str(
                                "resolver reported success but the call context is incomplete",
                            ),
                        },
                    ),
                    0,
                )
            );
        }
        // From here on the host has granted the two resources; every early
        // exit below must give them back first.
        let (storage_id, querier_id) = match self.state.ledger.allocate_pair() {
            Some(pair) => pair,
            None => {
                return (
                    (
                        Err(
                            DispatchError::RecoverableBackend {
                                message: String::from_str(
                                    "host cannot allocate further resource handles",
                                ),
                            },
                        ),
                        0,
                    )
                );
            },
        };
        let code_identity = match &script.code_identity {
            Some(bytes) => CodeIdentity::from_bytes(clone_bytes(bytes)),
            None => None,
        };
        let code_identity = match code_identity {
            Some(c) => c,
            None => {
                self.state.ledger.note_release();
                self.state.ledger.note_release();
                return (
                    (
                        Err(
                            DispatchError::BoundaryProtocolViolation {
                                message: String::from_str(
                                    "resolver reported success but the call context is incomplete",
                                ),
                            },
                        ),
                        0,
                    )
                );
            },
        };
        let storage = StorageHandle::new(
            storage_id,
            address.clone(),
            clone_entries(&script.storage_entries),
        );
        let querier = QuerierHandle::new(querier_id, address.clone());
        ((Ok(CallContext { code_identity, storage, querier }), script.used_gas))
    }

    /// Gives one storage cursor back to the host.  Consuming the handle
    /// makes a second release of the same resource impossible.
    pub fn release_storage(&mut self, handle: StorageHandle)
        requires
            old(self).state.spec_ledger().spec_outstanding() > 0,
        ensures
            final(self).vtable == old(self).vtable,
            final(self).state.spec_ledger().spec_released() == old(
                self,
            ).state.spec_ledger().spec_released() + 1,
            final(self).state.spec_ledger().spec_allocated() == old(
                self,
            ).state.spec_ledger().spec_allocated(),
            final(self).state.spec_ledger().spec_resolve_calls() == old(
                self,
            ).state.spec_ledger().spec_resolve_calls(),
    {
        let _ = handle;
        self.state.ledger.note_release();
    }

    /// Gives one querier session back to the host.
    pub fn release_querier(&mut self, handle: QuerierHandle)
        requires
            old(self).state.spec_ledger().spec_outstanding() > 0,
        ensures
            final(self).vtable == old(self).vtable,
            final(self).state.spec_ledger().spec_released() == old(
                self,
            ).state.spec_ledger().spec_released() + 1,
            final(self).state.spec_ledger().spec_allocated() == old(
                self,
            ).state.spec_ledger().spec_allocated(),
            final(self).state.spec_ledger().spec_resolve_calls() == old(
                self,
            ).state.spec_ledger().spec_resolve_calls(),
    {
        let _ = handle;
        self.state.ledger.note_release();
    }

    /// Destroys a call context, giving both of its handles back to the
    /// host.  The code identity carries no host resource.
    pub fn release_context(&mut self, context: CallContext)
        requires
            old(self).state.spec_ledger().spec_outstanding() >= 2,
        ensures
            final(self).vtable == old(self).vtable,
            final(self).state.spec_ledger().spec_released() == old(
                self,
            ).state.spec_ledger().spec_released() + 2,
            final(self).state.spec_ledger().spec_allocated() == old(
                self,
            ).state.spec_ledger().spec_allocated(),
            final(self).state.spec_ledger().spec_resolve_calls() == old(
                self,
            ).state.spec_ledger().spec_resolve_calls(),
    {
        let CallContext { code_identity, storage, querier } = context;
        let _ = code_identity;
        self.release_storage(storage);
        self.release_querier(querier);
    }

    /// Queries another contract through the host.  The raw answer is
    /// classified, then decoded; an answer that cannot be decoded is not an
    /// error of this call but an invalid response carried back to the
    /// caller.  The host's charge is metered down to `gas_limit` and counts
    /// as host-side work, failure or not.
    pub fn query_raw(&self, request: &Vec<u8>, gas_limit: u64) -> (r: (
        Result<SystemQueryResult, DispatchError>,
        GasReport,
    ))
        ensures
            ({
                let s = spec_assoc_bytes(self.vtable.query_external@, request@);
                &&& r.1.used_internally == 0
                &&& (s is None ==> ({
                    &&& r.0 matches Err(e)
                    &&& e matches DispatchError::RecoverableBackend { message }
                    &&& message@ == spec_query_default()
                    &&& r.1.used_externally == 0
                }))
                &&& (s matches Some(q) ==> ({
                    &&& r.1.used_externally == spec_query_charge(q, gas_limit)
                    &&& (q.status != 0 ==> ({
                        &&& r.0 matches Err(e)
                        &&& e matches DispatchError::RecoverableBackend { message }
                        &&& message@ == spec_failure_message(
                            q.status,
                            q.error_message,
                            spec_query_default(),
                        )
                    }))
                    &&& (q.status == 0 ==> ({
                        &&& r.0 matches Ok(a)
                        &&& spec_query_answer_matches(
                            a,
                            spec_parsed_query_response(spec_query_output(q)),
                            spec_query_output(q),
                        )
                    }))
                }))
            }),
    {
        let default_message = String::from_str("failed to query the external contract");
        let script = match assoc_bytes(&self.vtable.query_external, request.as_slice()) {
            Some(q) => q,
            None => {
                return (
                    (
                        Err(DispatchError::RecoverableBackend { message: default_message }),
                        GasReport::zero(),
                    )
                );
            },
        };
        let charged = if script.used_gas <= gas_limit {
            script.used_gas
        } else {
            gas_limit
        };
        let report = GasReport::with_externally_used(charged);
        let error = message_buffer(&script.error_message);
        match check_status(script.status, error, default_message) {
            Ok(()) => {},
            Err(e) => {
                return ((Err(e), report));
            },
        }
        let response = match &script.output {
            Some(bytes) => clone_bytes(bytes),
            None => Vec::new(),
        };
        let answer = match parse_query_response(&response) {
            Ok(Ok(Ok(data))) => SystemQueryResult::Data { data },
            Ok(Ok(Err(message))) => SystemQueryResult::ContractFailure { message },
            Ok(Err(message)) => SystemQueryResult::SystemFailure { message },
            Err(error) => SystemQueryResult::InvalidResponse { error, response },
        };
        ((Ok(answer), report))
    }
}

/// Resolves only the code identity for a contract address: the full call
/// context is resolved, the two resource handles that came with it are given
/// back to the host at once, and the checksum alone is returned with the
/// resolution's gas cost.  An address that does not resolve yields the
/// error — never a zero-filled identity passed off as valid.
pub fn generate_call_info(querier: &mut GoQuerier, contract_address: &String) -> (r: (
    Result<CodeIdentity, DispatchError>,
    u64,
))
    ensures
        final(querier).vtable == old(querier).vtable,
        final(querier).state.spec_ledger().spec_resolve_calls() == spec_bump(
            old(querier).state.spec_ledger().spec_resolve_calls(),
        ),
        final(querier).state.spec_ledger().spec_allocated() - old(
            querier,
        ).state.spec_ledger().spec_allocated() == final(querier).state.spec_ledger().spec_released()
            - old(querier).state.spec_ledger().spec_released(),
        ({
            let vt = old(querier).vtable;
            let could = old(querier).state.spec_ledger().spec_can_allocate_pair();
            &&& (spec_resolve_succeeds(vt, contract_address@, could) ==> ({
                &&& r.0 matches Ok(c)
                &&& c@ == spec_resolved_code(vt, contract_address@)
                &&& r.1 == spec_resolve_gas(vt, contract_address@)
            }))
            &&& (!spec_resolve_succeeds(vt, contract_address@, could) ==> ({
                &&& r.0 matches Err(e)
                &&& spec_is_resolve_failure(e, vt, contract_address@, could)
                &&& r.1 == 0
            }))
        }),
{
    let (resolved, used_gas) = querier.resolve_call_context(contract_address);
    match resolved {
        Ok(context) => {
            let CallContext { code_identity, storage, querier: session } = context;
            querier.release_storage(storage);
            querier.release_querier(session);
            (Ok(code_identity), used_gas)
        },
        Err(e) => (Err(e), 0),
    }
}

} // verus!
