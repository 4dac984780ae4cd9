//! Deterministic state transitions for a polling application on a shared
//! ledger.
//!
//! The ledger runtime owns key derivation, record storage, caller identity
//! and the clock; it loads the records an invocation declares, hands them to
//! one of the three entry points here together with the current ledger time,
//! and persists them atomically if and only if the call succeeds. This crate
//! holds the transition logic itself: the guards, the mutations, and the
//! invariants they maintain.

pub mod laws;
pub mod model;
pub mod ops;
pub mod records;
