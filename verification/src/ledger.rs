//! Accounting of host-owned resources handed across the boundary.
//!
//! The host allocates a storage cursor and a querier session for every
//! successfully resolved call context.  Each such resource must be released
//! exactly once before the invocation that obtained it returns.  The ledger
//! counts what was handed out, what was given back, and how often the
//! resolver was crossed, so those obligations can be stated and checked.

use vstd::prelude::*;

verus! {

/// A counter bump that saturates instead of wrapping.
pub open spec fn spec_bump(x: u64) -> u64 {
    if x < u64::MAX {
        (x + 1) as u64
    } else {
        u64::MAX
    }
}

/// Host-side book-keeping for boundary resources.
///
/// `allocated` only grows; `released` never overtakes it; their difference
/// is the number of handles currently outstanding.
pub struct ResourceLedger {
    allocated: u64,
    released: u64,
    resolve_calls: u64,
}

impl ResourceLedger {
    /// Releases never outnumber allocations.
    #[verifier::type_invariant]
    spec fn wf(self) -> bool {
        self.released <= self.allocated
    }

    /// How many resource handles the host has handed out so far.
    pub closed spec fn spec_allocated(self) -> u64 {
        self.allocated
    }

    /// How many resource handles were given back so far.
    pub closed spec fn spec_released(self) -> u64 {
        self.released
    }

    /// How many handles are outstanding right now.
    pub open spec fn spec_outstanding(self) -> int {
        self.spec_allocated() - self.spec_released()
    }

    /// How often the call-context resolver was crossed.
    pub closed spec fn spec_resolve_calls(self) -> u64 {
        self.resolve_calls
    }

    /// A fresh ledger: nothing allocated, nothing released.
    pub fn new() -> (r: ResourceLedger)
        ensures
            r.spec_allocated() == 0,
            r.spec_released() == 0,
            r.spec_resolve_calls() == 0,
    {
        ResourceLedger { allocated: 0, released: 0, resolve_calls: 0 }
    }

    /// How many resource handles the host has handed out so far.
    pub fn allocated(&self) -> (r: u64)
        ensures
            r == self.spec_allocated(),
    {
        self.allocated
    }

    /// How many resource handles were given back so far.
    pub fn released(&self) -> (r: u64)
        ensures
            r == self.spec_released(),
    {
        self.released
    }

    /// How often the call-context resolver was crossed.
    pub fn resolve_calls(&self) -> (r: u64)
        ensures
            r == self.spec_resolve_calls(),
    {
        self.resolve_calls
    }

    /// Records one crossing of the call-context resolver.  The counter
    /// saturates instead of wrapping; everything else is untouched.
    pub fn note_resolve_call(&mut self)
        ensures
            final(self).spec_allocated() == old(self).spec_allocated(),
            final(self).spec_released() == old(self).spec_released(),
            final(self).spec_resolve_calls() == spec_bump(old(self).spec_resolve_calls()),
    {
        proof {
            use_type_invariant(&*self);
        }
        if self.resolve_calls < u64::MAX {
            self.resolve_calls = self.resolve_calls + 1;
        }
    }

    /// Whether the host can still stamp two fresh handle identifiers.
    pub open spec fn spec_can_allocate_pair(self) -> bool {
        self.spec_allocated() <= u64::MAX - 2
    }

    /// Hands out identifiers for one storage handle and one querier handle,
    /// or nothing when the identifier space is exhausted.
    pub fn allocate_pair(&mut self) -> (r: Option<(u64, u64)>)
        ensures
            old(self).spec_can_allocate_pair() ==> ({
                &&& r matches Some((s, q))
                &&& s == old(self).spec_allocated()
                &&& q == old(self).spec_allocated() + 1
                &&& final(self).spec_allocated() == old(self).spec_allocated() + 2
                &&& final(self).spec_outstanding() >= 2
            }),
            !old(self).spec_can_allocate_pair() ==> r is None && final(self).spec_allocated()
                == old(self).spec_allocated(),
            final(self).spec_released() == old(self).spec_released(),
            final(self).spec_resolve_calls() == old(self).spec_resolve_calls(),
    {
        proof {
            use_type_invariant(&*self);
        }
        if self.allocated <= u64::MAX - 2 {
            let first = self.allocated;
            self.allocated = self.allocated + 2;
            Some((first, first + 1))
        } else {
            None
        }
    }

    /// Records that one previously allocated handle was given back.
    pub fn note_release(&mut self)
        requires
            old(self).spec_outstanding() > 0,
        ensures
            final(self).spec_released() == old(self).spec_released() + 1,
            final(self).spec_allocated() == old(self).spec_allocated(),
            final(self).spec_resolve_calls() == old(self).spec_resolve_calls(),
    {
        proof {
            use_type_invariant(&*self);
        }
        self.released = self.released + 1;
    }
}

} // verus!
