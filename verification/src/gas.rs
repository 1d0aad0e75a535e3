//! Gas accounting across a call boundary.
//!
//! A `GasBudget` is the compute allowance granted to one invocation; it flows
//! downward only.  A `GasReport` splits what an invocation consumed into gas
//! metered inside the sandboxed instance (`used_internally`) and gas spent on
//! host-side work done in service of the call (`used_externally`).

use vstd::prelude::*;

verus! {

/// Compute allowance granted to a single invocation, immutable per call.
#[derive(Clone, Copy, PartialEq, Eq, Structural, Debug)]
pub struct GasBudget {
    pub limit: u64,
}

/// Post-execution gas accounting for one invocation.
#[derive(Clone, Copy, PartialEq, Eq, Structural, Debug)]
pub struct GasReport {
    /// Gas consumed by sandboxed instruction execution.
    pub used_internally: u64,
    /// Gas consumed by host-side operations done on behalf of the call.
    pub used_externally: u64,
}

impl GasReport {
    /// Total gas this report accounts for, as a mathematical integer.
    pub open spec fn total(self) -> int {
        self.used_internally + self.used_externally
    }

    /// A report that accounts for no gas at all.
    pub fn zero() -> (r: GasReport)
        ensures
            r.used_internally == 0,
            r.used_externally == 0,
    {
        GasReport { used_internally: 0, used_externally: 0 }
    }

    /// A report of host-side work only.
    pub fn with_externally_used(amount: u64) -> (r: GasReport)
        ensures
            r.used_internally == 0,
            r.used_externally == amount,
    {
        GasReport { used_internally: 0, used_externally: amount }
    }
}

} // verus!
