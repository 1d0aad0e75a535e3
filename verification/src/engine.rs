//! The invocation builder and the module cache interface.
//!
//! A module cache maps code identities to ready-to-run modules.  `do_call`
//! composes a resolved call context, the backend capabilities, a gas budget
//! and the call-stack metadata into one sandboxed invocation, runs the target
//! contract's entry point, and reports the result together with an exact gas
//! split.  Gas is read out even when the contract fails: an engine abort is
//! not free, and the parent must be charged for the part that ran.

use vstd::prelude::*;

use crate::api::GoApi;
use crate::context::{clone_bytes, CallContext, QuerierHandle, StorageHandle};
use crate::envelope::{
    encode_env, encode_info, spec_env_encodable, spec_info_encodable, BlockEnv, MessageInfo,
};
use crate::error::DispatchError;
use crate::gas::{GasBudget, GasReport};
use crate::lookup::{assoc_bytes, spec_assoc_bytes};
use crate::stack::CallStackMetadata;

verus! {

/// What a module does when its entry point runs to completion.
pub enum ModuleBehavior {
    /// The entry point returns these bytes.
    Complete { data: Vec<u8> },
    /// The entry point fails with this contract-level message.
    Failure { message: String },
}

/// A compiled module as the engine sees it: how much gas its entry point
/// needs — split into sandboxed execution and host-side work it causes —
/// and what it does when that much gas is available.
pub struct ModuleScript {
    pub internal_need: u64,
    pub external_need: u64,
    pub behavior: ModuleBehavior,
}

/// Shared, process-owned cache of compiled modules, keyed by code identity.
/// It also carries the engine's own depth limit, enforced a second time when
/// an instance is requested.
pub struct ModuleCache {
    pub modules: Vec<(Vec<u8>, ModuleScript)>,
    pub max_call_depth: u32,
}

/// The three capabilities a sandboxed execution unit needs: address
/// translation, persistent key-value access, and cross-contract query
/// access.  Assembled per invocation from the shared API handle and the
/// resolved context, and owned by that one instance for the run.
pub struct BackendCapabilityTriple<'a> {
    pub api: &'a GoApi,
    pub storage: &'a StorageHandle,
    pub querier: &'a QuerierHandle,
}

/// The module the cache holds for a code identity, if any.
pub open spec fn spec_module_for(cache: ModuleCache, code: Seq<u8>) -> Option<ModuleScript> {
    spec_assoc_bytes(cache.modules@, code)
}

/// Total gas the module's entry point wants.
pub open spec fn spec_module_total(m: ModuleScript) -> int {
    m.internal_need + m.external_need
}

/// Whether running the module under `limit` exhausts the budget.
pub open spec fn spec_module_exhausts(m: ModuleScript, limit: u64) -> bool {
    spec_module_total(m) > limit
}

/// Host-side gas a run of the module under `limit` consumes.  Sandboxed
/// execution burns gas before host work does, so an exhausted run spends on
/// host work only what was left after the sandbox part.
pub open spec fn spec_run_external(m: ModuleScript, limit: u64) -> u64 {
    if !spec_module_exhausts(m, limit) {
        m.external_need
    } else if m.internal_need >= limit {
        0u64
    } else {
        (limit - m.internal_need) as u64
    }
}

/// Sandboxed-execution gas a run of the module under `limit` consumes.  An
/// exhausted run consumes the whole budget.
pub open spec fn spec_run_internal(m: ModuleScript, limit: u64) -> u64 {
    if !spec_module_exhausts(m, limit) {
        m.internal_need
    } else {
        (limit - spec_run_external(m, limit)) as u64
    }
}

/// Outcome of running the module under `limit`: the scripted behavior when
/// the budget suffices, gas exhaustion otherwise.
pub open spec fn spec_run_result(m: ModuleScript, limit: u64) -> Result<Vec<u8>, DispatchError> {
    if spec_module_exhausts(m, limit) {
        Err(DispatchError::GasExhausted)
    } else {
        match m.behavior {
            ModuleBehavior::Complete { data } => Ok(data),
            ModuleBehavior::Failure { message } => Err(
                DispatchError::RecoverableBackend { message },
            ),
        }
    }
}

/// Message reported when the cache has no module for a code identity.
pub open spec fn spec_module_missing_message() -> Seq<char> {
    "module cache holds no code with the requested identity"@
}

/// Whether requesting an instance at depth `depth` from `cache` with the
/// given code identity succeeds; on failure nothing is created and nothing
/// has to be released.
pub open spec fn spec_acquire_ok(cache: ModuleCache, code: Seq<u8>, depth: u32) -> bool {
    &&& depth <= cache.max_call_depth
    &&& spec_module_for(cache, code) is Some
}

/// Everything `do_call` promises about one invocation: which failure comes
/// back on which input, and the exact gas split once the module runs.  The
/// report never exceeds the budget, and acquisition failures cost nothing.
pub open spec fn spec_do_call_post(
    cache: ModuleCache,
    code: Seq<u8>,
    depth: u32,
    env: BlockEnv,
    info: MessageInfo,
    limit: u64,
    res: Result<Vec<u8>, DispatchError>,
    rep: GasReport,
) -> bool {
    &&& rep.total() <= limit
    &&& (depth > cache.max_call_depth ==> ({
        &&& res matches Err(e)
        &&& e is DepthExceeded
        &&& rep.total() == 0
    }))
    &&& (depth <= cache.max_call_depth && spec_module_for(cache, code) is None ==> ({
        &&& res matches Err(e)
        &&& e matches DispatchError::RecoverableBackend { message }
        &&& message@ == spec_module_missing_message()
        &&& rep.total() == 0
    }))
    &&& (spec_acquire_ok(cache, code, depth) && !spec_env_encodable(env) ==> ({
        &&& res matches Err(e)
        &&& e is Serialization
        &&& rep.total() == 0
    }))
    &&& (spec_acquire_ok(cache, code, depth) && spec_env_encodable(env) && !spec_info_encodable(
        info,
    ) ==> ({
        &&& res matches Err(e)
        &&& e is Serialization
        &&& rep.total() == 0
    }))
    &&& (spec_acquire_ok(cache, code, depth) && spec_env_encodable(env) && spec_info_encodable(
        info,
    ) ==> ({
        let m = spec_module_for(cache, code).unwrap();
        &&& rep.used_internally == spec_run_internal(m, limit)
        &&& rep.used_externally == spec_run_external(m, limit)
        &&& (spec_run_result(m, limit) matches Ok(d) ==> (res matches Ok(v) && v@ == d@))
        &&& (spec_run_result(m, limit) matches Err(e) ==> (res matches Err(e2) && e2 == e))
    }))
}

/// Runs one contract entry point inside the sandboxed engine.
///
/// The context's code identity selects the module; the capability triple is
/// assembled from the per-invocation API handle and the context's storage
/// and querier handles; `stack` must already carry the incremented depth.
/// On acquisition failure the error comes back with a zero-cost report —
/// nothing ran and nothing was created.  Once the module runs, the report
/// accounts for everything it consumed, success or not, and never exceeds
/// the budget.
#[allow(unused_variables)]
pub fn do_call(
    context: &CallContext,
    api: &GoApi,
    cache: &ModuleCache,
    budget: GasBudget,
    stack: &CallStackMetadata,
    entry_msg: &Vec<u8>,
    env: &BlockEnv,
    info: &MessageInfo,
) -> (r: (Result<Vec<u8>, DispatchError>, GasReport))
    ensures
        spec_do_call_post(
            *cache,
            context.code_identity@,
            stack.depth,
            *env,
            *info,
            budget.limit,
            r.0,
            r.1,
        ),
{
    if stack.depth > cache.max_call_depth {
        return (Err(DispatchError::DepthExceeded), GasReport::zero());
    }
    let module = match assoc_bytes(&cache.modules, context.code_identity.as_bytes().as_slice()) {
        Some(m) => m,
        None => {
            let message = String::from_str(
                "module cache holds no code with the requested identity",
            );
            return (
                Err(DispatchError::RecoverableBackend { message }),
                GasReport::zero(),
            );
        },
    };
    let env_bytes = match encode_env(env) {
        Ok(b) => b,
        Err(e) => {
            return (Err(e), GasReport::zero());
        },
    };
    let info_bytes = match encode_info(info) {
        Ok(b) => b,
        Err(e) => {
            return (Err(e), GasReport::zero());
        },
    };
    // The instance is bound to the capability triple for the whole run; the
    // envelopes and the entry message belong to it from here on, and the
    // engine meters the run against the budget.
    let backend = BackendCapabilityTriple {
        api,
        storage: &context.storage,
        querier: &context.querier,
    };
    let limit = budget.limit;
    let exhausts = module.internal_need > limit || module.external_need > limit - module.internal_need;
    if exhausts {
        let used_externally: u64 = if module.internal_need >= limit {
            0
        } else {
            limit - module.internal_need
        };
        let report = GasReport { used_internally: limit - used_externally, used_externally };
        return (Err(DispatchError::GasExhausted), report);
    }
    let report = GasReport {
        used_internally: module.internal_need,
        used_externally: module.external_need,
    };
    match &module.behavior {
        ModuleBehavior::Complete { data } => (Ok(clone_bytes(data)), report),
        ModuleBehavior::Failure { message } => (
            Err(DispatchError::RecoverableBackend { message: message.clone() }),
            report,
        ),
    }
}

} // verus!
