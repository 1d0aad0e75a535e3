//! Cross-contract invocation dispatcher for a gas-metered contract VM.
//!
//! One running contract instance may invoke another contract, either as a
//! normal call or as a delegate-call.  The host process owns contract
//! bytecode, key-value storage and the query interface; this crate holds the
//! dispatch logic: resolving an execution context for a target address,
//! building a sandboxed invocation bound to a gas budget, reconciling gas
//! usage across the call boundary, and releasing host-owned resources exactly
//! once on every exit path.

pub mod api;
pub mod boundary;
pub mod buffer;
pub mod context;
pub mod dispatch;
pub mod engine;
pub mod envelope;
pub mod error;
pub mod gas;
pub mod laws;
pub mod ledger;
pub mod lookup;
pub mod querier;
pub mod stack;
