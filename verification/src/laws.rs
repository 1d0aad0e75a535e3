//! Chain-level laws of the dispatcher.
//!
//! The per-hop contracts live on the functions themselves: `call` and
//! `delegate_call` promise that every handle obtained during one invocation
//! is released before it returns, that a hop past the depth limit fails
//! before the resolver is crossed, and that a report never exceeds the
//! granted budget.  The lemmas here lift those per-hop facts to whole call
//! chains.

use vstd::prelude::*;

use crate::context::{spec_lookup, CallContext, CODE_IDENTITY_LENGTH};
use crate::querier::{
    spec_resolve_class, spec_resolve_succeeds, spec_resolved_code, spec_resolved_entries,
    Querier_vtable, ResolveClass,
};
use crate::stack::CallStackMetadata;

verus! {

/// Sum of the per-hop host-side gas shares of a call chain.
pub open spec fn spec_gas_sum(own: Seq<u64>) -> int
    decreases own.len(),
{
    if own.len() == 0 {
        0
    } else {
        own[0] + spec_gas_sum(own.drop_first())
    }
}

/// The externally-used gas the root of a call chain reports, under the
/// accumulation rule of the dispatcher: each hop reports its own host-side
/// share plus everything the hop below it reported (the shape of the gas
/// reports `call` and `delegate_call` return).
pub open spec fn spec_chain_reported_external(own: Seq<u64>) -> int
    decreases own.len(),
{
    if own.len() == 0 {
        0
    } else {
        own[0] + spec_chain_reported_external(own.drop_first())
    }
}

/// Law (gas additivity): the root of a call chain reports exactly the sum
/// of every hop's own host-side share, and therefore at least the sum of
/// what all of its descendants contributed.  Together with the budget bound
/// on each report (`call` ensures the report never exceeds the granted
/// limit), the whole chain's reported gas stays within the root's budget.
pub proof fn lemma_external_gas_covers_descendants(own: Seq<u64>)
    ensures
        spec_chain_reported_external(own) == spec_gas_sum(own),
        own.len() > 0 ==> spec_chain_reported_external(own) >= spec_gas_sum(own.drop_first()),
    decreases own.len(),
{
    if own.len() > 0 {
        lemma_external_gas_covers_descendants(own.drop_first());
        lemma_gas_sum_nonnegative(own.drop_first());
    }
}

/// A sum of gas shares is never negative.
pub proof fn lemma_gas_sum_nonnegative(own: Seq<u64>)
    ensures
        spec_gas_sum(own) >= 0,
    decreases own.len(),
{
    if own.len() > 0 {
        lemma_gas_sum_nonnegative(own.drop_first());
    }
}

/// A call chain: each hop's metadata is one level below the previous one,
/// as `next_for_call` and `next_for_delegate` construct it.
pub open spec fn spec_is_chain(chain: Seq<CallStackMetadata>) -> bool {
    forall|i: int| 0 < i < chain.len() ==> #[trigger] chain[i].depth == chain[i - 1].depth + 1
}

/// Law (depth monotonicity): along any call chain the depth grows by
/// exactly one per hop, so it is strictly increasing; a hop that would pass
/// the configured maximum is refused by the dispatcher before any resolver
/// call for it (`call` and `delegate_call` leave the ledger untouched in
/// that case).
pub proof fn lemma_depth_strictly_increases(chain: Seq<CallStackMetadata>, i: int, j: int)
    requires
        spec_is_chain(chain),
        0 <= i < j < chain.len(),
    ensures
        chain[j].depth == chain[i].depth + (j - i),
        chain[i].depth < chain[j].depth,
    decreases j - i,
{
    if i + 1 < j {
        lemma_depth_strictly_increases(chain, i, j - 1);
    }
}

/// Law (delegate storage swap): the context a delegate-call runs in reads
/// the entries resolved for the delegating address — whatever value a key
/// holds in the store address's resolved storage is what the executing code
/// observes — while the code identity is the target's own.
pub proof fn lemma_delegate_observes_store(
    vt: Querier_vtable,
    ctx: CallContext,
    target: Seq<char>,
    store: Seq<char>,
    key: Seq<u8>,
    value: Seq<u8>,
)
    requires
        ctx.code_identity@ == spec_resolved_code(vt, target),
        ctx.storage.spec_entries() == spec_resolved_entries(vt, store),
        spec_lookup(spec_resolved_entries(vt, store), key) == Some(value),
    ensures
        ctx.storage.spec_get(key) == Some(value),
        ctx.code_identity@ == spec_resolved_code(vt, target),
{
}

/// Law (code identity integrity): a successful resolution yields exactly
/// the host-reported checksum, which is always the fixed identity length;
/// an address the host does not know, or an answer with a missing or
/// mis-sized identity, never resolves — no zero-filled identity is ever
/// treated as valid.
pub proof fn lemma_code_identity_integrity(vt: Querier_vtable, addr: Seq<char>, could: bool)
    ensures
        spec_resolve_succeeds(vt, addr, could) ==> spec_resolved_code(vt, addr).len()
            == CODE_IDENTITY_LENGTH,
        !(spec_resolve_class(vt, addr) is Resolved) ==> !spec_resolve_succeeds(vt, addr, could),
{
}

} // verus!
