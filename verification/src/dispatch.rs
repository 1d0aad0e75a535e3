//! Cross-contract invocation: normal calls and delegate-calls.
//!
//! An in-progress contract instance invokes another contract through its
//! querier capability.  The dispatcher checks the depth gate first — a hop
//! past the configured maximum fails before anything is resolved — then
//! performs any required value transfer, resolves the call context, obtains
//! the shared engine handles, runs the target's entry point under what is
//! left of the gas budget, and releases every resolved resource on every
//! exit path.  Host-side gas spent before the sandbox runs is folded into
//! the externally-used figure of the final report.

use vstd::prelude::*;

use crate::api::GoApi;
use crate::boundary::{check_status, message_buffer, spec_failure_message};
use crate::context::CallContext;
use crate::engine::{do_call, spec_do_call_post, ModuleCache};
use crate::envelope::{BlockEnv, MessageInfo};
use crate::error::DispatchError;
use crate::gas::{GasBudget, GasReport};
use crate::ledger::spec_bump;
use crate::querier::{
    spec_is_resolve_failure, spec_resolve_gas, spec_resolve_succeeds, spec_resolved_code,
    spec_resolved_entries, GoQuerier, Querier_vtable, TransferScript,
};
use crate::stack::CallStackMetadata;

verus! {

/// Default message of a failed value transfer.
pub open spec fn spec_transfer_default() -> Seq<char> {
    "failed to transfer the attached funds"@
}

/// Default message of a failure to obtain the engine handles.
pub open spec fn spec_engine_default() -> Seq<char> {
    "failed to obtain the engine handles"@
}

/// Message of the protocol violation where the engine handles came back
/// incomplete next to a success status.
pub open spec fn spec_engine_incomplete_message() -> Seq<char> {
    "host reported success but the engine handles are incomplete"@
}

/// The host's scripted answer for a transfer between two addresses, if any.
pub open spec fn spec_transfer_script(
    entries: Seq<TransferScript>,
    from: Seq<char>,
    to: Seq<char>,
) -> Option<TransferScript>
    decreases entries.len(),
{
    if entries.len() == 0 {
        None
    } else if entries[0].from@ == from && entries[0].to@ == to {
        Some(entries[0])
    } else {
        spec_transfer_script(entries.drop_first(), from, to)
    }
}

/// Gas one value transfer costs: nothing when the message carries no value
/// or the host has no instruction, the scripted cost otherwise.
pub open spec fn spec_transfer_charge(
    vt: Querier_vtable,
    from: Seq<char>,
    to: Seq<char>,
    info: MessageInfo,
) -> u64 {
    if !info.spec_carries_value() {
        0u64
    } else {
        match spec_transfer_script(vt.transfer_value@, from, to) {
            None => 0u64,
            Some(t) => t.used_gas,
        }
    }
}

/// Whether the transfer step succeeds: trivially when no value rides along,
/// otherwise when the host reports success.
pub open spec fn spec_transfer_ok(
    vt: Querier_vtable,
    from: Seq<char>,
    to: Seq<char>,
    info: MessageInfo,
) -> bool {
    if !info.spec_carries_value() {
        true
    } else {
        match spec_transfer_script(vt.transfer_value@, from, to) {
            None => true,
            Some(t) => t.status == 0,
        }
    }
}

/// The message a failed transfer carries.
pub open spec fn spec_transfer_message(vt: Querier_vtable, from: Seq<char>, to: Seq<char>) -> Seq<
    char,
> {
    match spec_transfer_script(vt.transfer_value@, from, to) {
        None => spec_transfer_default(),
        Some(t) => spec_failure_message(t.status, t.error_message, spec_transfer_default()),
    }
}

/// Whether the host hands out both engine handles.
pub open spec fn spec_engine_ok(vt: Querier_vtable) -> bool {
    &&& vt.get_engine_handles.status == 0
    &&& vt.get_engine_handles.api is Some
    &&& vt.get_engine_handles.cache is Some
}

/// The error a failed engine-handle request must be reported as.
pub open spec fn spec_is_engine_failure(e: DispatchError, vt: Querier_vtable) -> bool {
    if vt.get_engine_handles.status != 0 {
        &&& e matches DispatchError::RecoverableBackend { message }
        &&& message@ == spec_failure_message(
            vt.get_engine_handles.status,
            vt.get_engine_handles.error_message,
            spec_engine_default(),
        )
    } else {
        &&& e matches DispatchError::BoundaryProtocolViolation { message }
        &&& message@ == spec_engine_incomplete_message()
    }
}

/// The API handle a successful engine-handle request yields.
pub open spec fn spec_engine_api(vt: Querier_vtable) -> GoApi {
    vt.get_engine_handles.api.unwrap()
}

/// The module cache a successful engine-handle request yields.
pub open spec fn spec_engine_cache(vt: Querier_vtable) -> ModuleCache {
    vt.get_engine_handles.cache.unwrap()
}

/// Finds the host's transfer instruction for a pair of addresses.
fn find_transfer<'a>(entries: &'a Vec<TransferScript>, from: &String, to: &String) -> (r: Option<
    &'a TransferScript,
>)
    ensures
        match r {
            Some(t) => spec_transfer_script(entries@, from@, to@) == Some(*t),
            None => spec_transfer_script(entries@, from@, to@) is None,
        },
{
    let n = entries.len();
    let mut i: usize = 0;
    proof {
        assert(entries@.skip(0) =~= entries@);
    }
    while i < n
        invariant
            0 <= i <= n,
            n == entries@.len(),
            spec_transfer_script(entries@.skip(i as int), from@, to@) == spec_transfer_script(
                entries@,
                from@,
                to@,
            ),
        decreases n - i,
    {
        proof {
            assert(entries@.skip(i as int)[0] == entries@[i as int]);
            assert(entries@.skip(i as int).drop_first() =~= entries@.skip(i as int + 1));
        }
        if entries[i].from == *from && entries[i].to == *to {
            return Some(&entries[i]);
        }
        i = i + 1;
    }
    proof {
        assert(entries@.skip(n as int) =~= Seq::<TransferScript>::empty());
    }
    None
}

/// Performs the value-transfer step of a call: a message that carries no
/// value costs nothing and always passes; otherwise the host's answer is
/// classified, and its charge is reported whether the transfer succeeded or
/// not.
fn settle_transfer(vt: &Querier_vtable, from: &String, to: &String, info: &MessageInfo) -> (r: (
    Result<(), DispatchError>,
    u64,
))
    ensures
        r.1 == spec_transfer_charge(*vt, from@, to@, *info),
        spec_transfer_ok(*vt, from@, to@, *info) <==> r.0 is Ok,
        !spec_transfer_ok(*vt, from@, to@, *info) ==> ({
            &&& r.0 matches Err(e)
            &&& e matches DispatchError::RecoverableBackend { message }
            &&& message@ == spec_transfer_message(*vt, from@, to@)
        }),
{
    if !info.carries_value() {
        return (Ok(()), 0);
    }
    let script = match find_transfer(&vt.transfer_value, from, to) {
        Some(t) => t,
        None => {
            return (Ok(()), 0);
        },
    };
    let default_message = String::from_str("failed to transfer the attached funds");
    let error = message_buffer(&script.error_message);
    match check_status(script.status, error, default_message) {
        Ok(()) => (Ok(()), script.used_gas),
        Err(e) => (Err(e), script.used_gas),
    }
}

/// Asks the host for the shared engine handles: the API capability and the
/// module cache.  Both must be present next to a success status; a missing
/// one is a protocol violation.
fn engine_handles<'a>(vt: &'a Querier_vtable) -> (r: Result<
    (&'a GoApi, &'a ModuleCache),
    DispatchError,
>)
    ensures
        spec_engine_ok(*vt) ==> (r matches Ok(h) && *h.0 == spec_engine_api(*vt) && *h.1
            == spec_engine_cache(*vt)),
        !spec_engine_ok(*vt) ==> (r matches Err(e) && spec_is_engine_failure(e, *vt)),
{
    let default_message = String::from_str("failed to obtain the engine handles");
    let error = message_buffer(&vt.get_engine_handles.error_message);
    match check_status(vt.get_engine_handles.status, error, default_message) {
        Ok(()) => {},
        Err(e) => {
            return Err(e);
        },
    }
    match (&vt.get_engine_handles.api, &vt.get_engine_handles.cache) {
        (Some(api), Some(cache)) => Ok((api, cache)),
        _ => Err(
            DispatchError::BoundaryProtocolViolation {
                message: String::from_str(
                    "host reported success but the engine handles are incomplete",
                ),
            },
        ),
    }
}

impl GoQuerier {
    /// Resolves the context a delegate-call executes in: the code identity
    /// of `target`, combined with the storage and querier of
    /// `store_address`.  The handles resolved next to the target's code are
    /// surplus and given back at once; on any failure nothing stays
    /// allocated.  The two gas figures are the costs of the two
    /// resolutions; a failed attempt reports none.
    pub fn resolve_delegate_context(&mut self, target: &String, store_address: &String) -> (r: (
        Result<CallContext, DispatchError>,
        u64,
        u64,
    ))
        ensures
            final(self).vtable == old(self).vtable,
            final(self).state.spec_ledger().spec_allocated() - old(
                self,
            ).state.spec_ledger().spec_allocated() == final(self).state.spec_ledger().spec_released()
                - old(self).state.spec_ledger().spec_released() + (
            if r.0 is Ok {
                2int
            } else {
                0int
            }),
            ({
                let vt = old(self).vtable;
                let l0 = old(self).state.spec_ledger();
                let could1 = l0.spec_can_allocate_pair();
                let could2 = l0.spec_allocated() + 2 <= u64::MAX - 2;
                &&& (!spec_resolve_succeeds(vt, target@, could1) ==> ({
                    &&& r.0 matches Err(e)
                    &&& spec_is_resolve_failure(e, vt, target@, could1)
                    &&& r.1 == 0 && r.2 == 0
                    &&& final(self).state.spec_ledger().spec_resolve_calls() == spec_bump(
                        l0.spec_resolve_calls(),
                    )
                }))
                &&& (spec_resolve_succeeds(vt, target@, could1) ==> ({
                    &&& final(self).state.spec_ledger().spec_resolve_calls() == spec_bump(
                        spec_bump(l0.spec_resolve_calls()),
                    )
                    &&& (!spec_resolve_succeeds(vt, store_address@, could2) ==> ({
                        &&& r.0 matches Err(e)
                        &&& spec_is_resolve_failure(e, vt, store_address@, could2)
                        &&& r.1 == 0 && r.2 == 0
                    }))
                    &&& (spec_resolve_succeeds(vt, store_address@, could2) ==> ({
                        &&& r.0 matches Ok(ctx)
                        &&& ctx.code_identity@ == spec_resolved_code(vt, target@)
                        &&& ctx.storage.spec_owner() == store_address@
                        &&& ctx.storage.spec_entries() == spec_resolved_entries(
                            vt,
                            store_address@,
                        )
                        &&& ctx.querier.spec_owner() == store_address@
                        &&& r.1 == spec_resolve_gas(vt, target@)
                        &&& r.2 == spec_resolve_gas(vt, store_address@)
                        &&& final(self).state.spec_ledger().spec_outstanding() >= 2
                    }))
                }))
            }),
    {
        let (first, target_gas) = self.resolve_call_context(target);
        let code_context = match first {
            Ok(ctx) => ctx,
            Err(e) => {
                return (Err(e), 0, 0);
            },
        };
        // Only the code identity of the target is kept; the storage and
        // querier that came with it are surplus for a delegate-call and go
        // back to the host at once.
        let CallContext { code_identity, storage, querier } = code_context;
        self.release_storage(storage);
        self.release_querier(querier);
        let (second, store_gas) = self.resolve_call_context(store_address);
        let store_context = match second {
            Ok(ctx) => ctx,
            Err(e) => {
                return (Err(e), 0, 0);
            },
        };
        let CallContext { code_identity: surplus_code, storage, querier } = store_context;
        let _ = surplus_code;
        (Ok(CallContext { code_identity, storage, querier }), target_gas, store_gas)
    }

    /// Invokes the contract at `contract_address` from the contract at
    /// `caller_address`: transfers any attached value, resolves the
    /// target's own context, runs its entry point one hop deeper with the
    /// delegate context cleared, and reports the result next to a gas
    /// report whose externally-used part folds in every host-side cost.  A
    /// hop past the configured depth fails before the host is asked for
    /// anything.  Every resource resolved for this call is released before
    /// it returns, success or failure.
    pub fn call(
        &mut self,
        caller_address: &String,
        contract_address: &String,
        info: &MessageInfo,
        call_msg: &Vec<u8>,
        block_env: &BlockEnv,
        gas_limit: u64,
        stack: &CallStackMetadata,
    ) -> (r: (Result<Vec<u8>, DispatchError>, GasReport))
        ensures
            final(self).vtable == old(self).vtable,
            final(self).state.spec_ledger().spec_allocated() - old(
                self,
            ).state.spec_ledger().spec_allocated() == final(self).state.spec_ledger().spec_released()
                - old(self).state.spec_ledger().spec_released(),
            r.1.total() <= gas_limit,
            ({
                let vt = old(self).vtable;
                let l0 = old(self).state.spec_ledger();
                let could = l0.spec_can_allocate_pair();
                let t = spec_transfer_charge(vt, caller_address@, contract_address@, *info);
                &&& (!stack.spec_can_descend(vt.max_call_depth) ==> ({
                    &&& r.0 matches Err(e)
                    &&& e is DepthExceeded
                    &&& r.1.total() == 0
                    &&& final(self).state.spec_ledger() == l0
                }))
                &&& (stack.spec_can_descend(vt.max_call_depth) ==> ({
                    &&& (t > gas_limit ==> ({
                        &&& r.0 matches Err(e)
                        &&& e is GasExhausted
                        &&& r.1.used_internally == 0 && r.1.used_externally == gas_limit
                        &&& final(self).state.spec_ledger() == l0
                    }))
                    &&& (t <= gas_limit && !spec_transfer_ok(
                        vt,
                        caller_address@,
                        contract_address@,
                        *info,
                    ) ==> ({
                        &&& r.0 matches Err(e)
                        &&& e matches DispatchError::RecoverableBackend { message }
                        &&& message@ == spec_transfer_message(vt, caller_address@, contract_address@)
                        &&& r.1.used_internally == 0 && r.1.used_externally == t
                        &&& final(self).state.spec_ledger() == l0
                    }))
                    &&& (t <= gas_limit && spec_transfer_ok(
                        vt,
                        caller_address@,
                        contract_address@,
                        *info,
                    ) ==> ({
                        &&& final(self).state.spec_ledger().spec_resolve_calls() == spec_bump(
                            l0.spec_resolve_calls(),
                        )
                        &&& (!spec_resolve_succeeds(vt, contract_address@, could) ==> ({
                            &&& r.0 matches Err(e)
                            &&& spec_is_resolve_failure(e, vt, contract_address@, could)
                            &&& r.1.used_internally == 0 && r.1.used_externally == t
                        }))
                        &&& (spec_resolve_succeeds(vt, contract_address@, could) ==> ({
                            let rg = spec_resolve_gas(vt, contract_address@);
                            &&& (rg > gas_limit - t ==> ({
                                &&& r.0 matches Err(e)
                                &&& e is GasExhausted
                                &&& r.1.used_internally == 0 && r.1.used_externally == gas_limit
                            }))
                            &&& (rg <= gas_limit - t ==> ({
                                let pre = (t + rg) as u64;
                                &&& (!spec_engine_ok(vt) ==> ({
                                    &&& r.0 matches Err(e)
                                    &&& spec_is_engine_failure(e, vt)
                                    &&& r.1.used_internally == 0 && r.1.used_externally == pre
                                }))
                                &&& (spec_engine_ok(vt) ==> ({
                                    &&& r.1.used_externally >= pre
                                    &&& spec_do_call_post(
                                        spec_engine_cache(vt),
                                        spec_resolved_code(vt, contract_address@),
                                        (stack.depth + 1) as u32,
                                        *block_env,
                                        *info,
                                        (gas_limit - pre) as u64,
                                        r.0,
                                        GasReport {
                                            used_internally: r.1.used_internally,
                                            used_externally: (r.1.used_externally - pre) as u64,
                                        },
                                    )
                                }))
                            }))
                        }))
                    }))
                }))
            }),
    {
        let child_stack = match stack.next_for_call(self.vtable.max_call_depth) {
            Ok(s) => s,
            Err(e) => {
                return (Err(e), GasReport::zero());
            },
        };
        let (transfer_result, transfer_gas) = settle_transfer(
            &self.vtable,
            caller_address,
            contract_address,
            info,
        );
        if transfer_gas > gas_limit {
            return (
                Err(DispatchError::GasExhausted),
                GasReport::with_externally_used(gas_limit),
            );
        }
        match transfer_result {
            Ok(()) => {},
            Err(e) => {
                return (Err(e), GasReport::with_externally_used(transfer_gas));
            },
        }
        let (resolved, resolve_gas) = self.resolve_call_context(contract_address);
        let context = match resolved {
            Ok(ctx) => ctx,
            Err(e) => {
                return (Err(e), GasReport::with_externally_used(transfer_gas));
            },
        };
        if resolve_gas > gas_limit - transfer_gas {
            self.release_context(context);
            return (
                Err(DispatchError::GasExhausted),
                GasReport::with_externally_used(gas_limit),
            );
        }
        let spent = transfer_gas + resolve_gas;
        let outcome = match engine_handles(&self.vtable) {
            Ok((api, cache)) => do_call(
                &context,
                api,
                cache,
                GasBudget { limit: gas_limit - spent },
                &child_stack,
                call_msg,
                block_env,
                info,
            ),
            Err(e) => {
                self.release_context(context);
                return (Err(e), GasReport::with_externally_used(spent));
            },
        };
        self.release_context(context);
        let (result, execution) = outcome;
        let report = GasReport {
            used_internally: execution.used_internally,
            used_externally: spent + execution.used_externally,
        };
        (result, report)
    }

    /// Invokes the code of `contract_address` against the storage and
    /// querier context of the invoking contract — the delegate context it
    /// already carries, or its own address at the start of a delegation
    /// chain.  The hop is one level deeper and keeps the delegate context
    /// pointing at the storage owner, so the target's code observes the
    /// caller's storage while the code identity is the target's own.  No
    /// value transfer rides along with a delegate-call.
    pub fn delegate_call(
        &mut self,
        caller_address: &String,
        contract_address: &String,
        info: &MessageInfo,
        call_msg: &Vec<u8>,
        block_env: &BlockEnv,
        gas_limit: u64,
        stack: &CallStackMetadata,
    ) -> (r: (Result<Vec<u8>, DispatchError>, GasReport))
        ensures
            final(self).vtable == old(self).vtable,
            final(self).state.spec_ledger().spec_allocated() - old(
                self,
            ).state.spec_ledger().spec_allocated() == final(self).state.spec_ledger().spec_released()
                - old(self).state.spec_ledger().spec_released(),
            r.1.total() <= gas_limit,
            ({
                let vt = old(self).vtable;
                let l0 = old(self).state.spec_ledger();
                let could1 = l0.spec_can_allocate_pair();
                let could2 = l0.spec_allocated() + 2 <= u64::MAX - 2;
                let store = stack.spec_context_address(caller_address@);
                &&& (!stack.spec_can_descend(vt.max_call_depth) ==> ({
                    &&& r.0 matches Err(e)
                    &&& e is DepthExceeded
                    &&& r.1.total() == 0
                    &&& final(self).state.spec_ledger() == l0
                }))
                &&& (stack.spec_can_descend(vt.max_call_depth) ==> ({
                    &&& (!spec_resolve_succeeds(vt, contract_address@, could1) ==> ({
                        &&& r.0 matches Err(e)
                        &&& spec_is_resolve_failure(e, vt, contract_address@, could1)
                        &&& r.1.total() == 0
                    }))
                    &&& (spec_resolve_succeeds(vt, contract_address@, could1)
                        && !spec_resolve_succeeds(vt, store, could2) ==> ({
                        &&& r.0 matches Err(e)
                        &&& spec_is_resolve_failure(e, vt, store, could2)
                        &&& r.1.total() == 0
                    }))
                    &&& (spec_resolve_succeeds(vt, contract_address@, could1)
                        && spec_resolve_succeeds(vt, store, could2) ==> ({
                        let g1 = spec_resolve_gas(vt, contract_address@);
                        let g2 = spec_resolve_gas(vt, store);
                        &&& (g1 > gas_limit || g2 > gas_limit - g1 ==> ({
                            &&& r.0 matches Err(e)
                            &&& e is GasExhausted
                            &&& r.1.used_internally == 0 && r.1.used_externally == gas_limit
                        }))
                        &&& (g1 <= gas_limit && g2 <= gas_limit - g1 ==> ({
                            let pre = (g1 + g2) as u64;
                            &&& (!spec_engine_ok(vt) ==> ({
                                &&& r.0 matches Err(e)
                                &&& spec_is_engine_failure(e, vt)
                                &&& r.1.used_internally == 0 && r.1.used_externally == pre
                            }))
                            &&& (spec_engine_ok(vt) ==> ({
                                &&& r.1.used_externally >= pre
                                &&& spec_do_call_post(
                                    spec_engine_cache(vt),
                                    spec_resolved_code(vt, contract_address@),
                                    (stack.depth + 1) as u32,
                                    *block_env,
                                    *info,
                                    (gas_limit - pre) as u64,
                                    r.0,
                                    GasReport {
                                        used_internally: r.1.used_internally,
                                        used_externally: (r.1.used_externally - pre) as u64,
                                    },
                                )
                            }))
                        }))
                    }))
                }))
            }),
    {
        let store_address = match &stack.delegate_context_address {
            Some(a) => a.clone(),
            None => caller_address.clone(),
        };
        let child_stack = match stack.next_for_delegate(self.vtable.max_call_depth, caller_address) {
            Ok(s) => s,
            Err(e) => {
                return (Err(e), GasReport::zero());
            },
        };
        let (resolved, target_gas, store_gas) = self.resolve_delegate_context(
            contract_address,
            &store_address,
        );
        let context = match resolved {
            Ok(ctx) => ctx,
            Err(e) => {
                return (Err(e), GasReport::zero());
            },
        };
        if target_gas > gas_limit || store_gas > gas_limit - target_gas {
            self.release_context(context);
            return (
                Err(DispatchError::GasExhausted),
                GasReport::with_externally_used(gas_limit),
            );
        }
        let spent = target_gas + store_gas;
        let outcome = match engine_handles(&self.vtable) {
            Ok((api, cache)) => do_call(
                &context,
                api,
                cache,
                GasBudget { limit: gas_limit - spent },
                &child_stack,
                call_msg,
                block_env,
                info,
            ),
            Err(e) => {
                self.release_context(context);
                return (Err(e), GasReport::with_externally_used(spent));
            },
        };
        self.release_context(context);
        let (result, execution) = outcome;
        let report = GasReport {
            used_internally: execution.used_internally,
            used_externally: spent + execution.used_externally,
        };
        (result, report)
    }
}

} // verus!
