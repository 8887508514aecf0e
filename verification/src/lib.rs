//! State-transition logic for a click-counting ledger: a global aggregate
//! record and per-user counter records, updated through guarded,
//! overflow-safe operations with a coarse anti-spam rate limit.
//!
//! The host execution environment (account storage, key derivation, signature
//! checks, the clock) is an external collaborator: it resolves and hands over
//! the records an operation names, guarantees exclusive access to them for
//! the duration of the call, and supplies the caller's identity and the
//! current time as plain values.

pub mod errors;
pub mod ledger;
pub mod ops;
pub mod state;
