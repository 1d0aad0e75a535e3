//! Call-depth and delegate-context tracking.
//!
//! Each invocation carries metadata about its position in the call chain:
//! the depth, the original sender, and — for delegate-calls — the address
//! whose storage the executing code runs against.  Depth grows by exactly
//! one per hop and never decreases within a chain; a hop that would exceed
//! the configured maximum fails before any resource is resolved for it.

use vstd::prelude::*;

use crate::error::DispatchError;

verus! {

/// Per-invocation call-stack metadata; created for each hop, discarded when
/// the hop's instance is recycled.
pub struct CallStackMetadata {
    /// Position of this invocation in the call chain; the root is depth 0.
    pub depth: u32,
    /// Address of the original sender, carried unchanged down the chain.
    pub sender_address: String,
    /// When present, the address whose storage and querier the executing
    /// code runs against instead of its own.
    pub delegate_context_address: Option<String>,
}

impl CallStackMetadata {
    /// Metadata of a chain root: depth zero, no delegate context.
    pub fn root(sender_address: String) -> (r: CallStackMetadata)
        ensures
            r.depth == 0,
            r.sender_address == sender_address,
            r.delegate_context_address is None,
    {
        CallStackMetadata { depth: 0, sender_address, delegate_context_address: None }
    }

    /// The address whose storage the invocation described by `self` runs
    /// against: the delegate context when one is set, otherwise the address
    /// of the contract itself.
    pub open spec fn spec_context_address(self, own_address: Seq<char>) -> Seq<char> {
        match self.delegate_context_address {
            Some(a) => a@,
            None => own_address,
        }
    }

    /// Whether one more hop below `self` would stay within `max_depth`.
    pub open spec fn spec_can_descend(self, max_depth: u32) -> bool {
        self.depth < max_depth
    }

    /// Metadata for a normal call one hop below `self`.  The delegate
    /// context is cleared: the target executes against its own storage.
    /// Fails with `DepthExceeded` when the new hop would exceed `max_depth`.
    pub fn next_for_call(&self, max_depth: u32) -> (r: Result<CallStackMetadata, DispatchError>)
        ensures
            self.spec_can_descend(max_depth) ==> ({
                &&& r matches Ok(s)
                &&& s.depth == self.depth + 1
                &&& s.sender_address@ == self.sender_address@
                &&& s.delegate_context_address is None
            }),
            !self.spec_can_descend(max_depth) ==> (r matches Err(e) && e is DepthExceeded),
    {
        if self.depth < max_depth {
            Ok(CallStackMetadata {
                depth: self.depth + 1,
                sender_address: self.sender_address.clone(),
                delegate_context_address: None,
            })
        } else {
            Err(DispatchError::DepthExceeded)
        }
    }

    /// Metadata for a delegate-call one hop below `self`, where the target
    /// code will run against the storage of the invoking contract's own
    /// context address (`own_address` unless `self` is itself delegated).
    /// Fails with `DepthExceeded` when the new hop would exceed `max_depth`.
    pub fn next_for_delegate(&self, max_depth: u32, own_address: &String) -> (r: Result<
        CallStackMetadata,
        DispatchError,
    >)
        ensures
            self.spec_can_descend(max_depth) ==> ({
                &&& r matches Ok(s)
                &&& s.depth == self.depth + 1
                &&& s.sender_address@ == self.sender_address@
                &&& s.delegate_context_address matches Some(a)
                &&& a@ == self.spec_context_address(own_address@)
            }),
            !self.spec_can_descend(max_depth) ==> (r matches Err(e) && e is DepthExceeded),
    {
        if self.depth < max_depth {
            let context = match &self.delegate_context_address {
                Some(a) => a.clone(),
                None => own_address.clone(),
            };
            Ok(CallStackMetadata {
                depth: self.depth + 1,
                sender_address: self.sender_address.clone(),
                delegate_context_address: Some(context),
            })
        } else {
            Err(DispatchError::DepthExceeded)
        }
    }
}

} // verus!
