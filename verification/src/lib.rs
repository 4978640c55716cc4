//! Deterministic transaction-execution core of a replicated election ledger.
//!
//! Four signed commands — participant registration, administration
//! registration, election issuance and vote casting — are applied one at a
//! time to a ledger of key-value collections. Every validation rule, the
//! failure-mode precedence, the atomicity of each execution, and the ledger
//! invariants (at most one record per identity, at most one vote per
//! election and voter, elections active only inside their time window) are
//! stated as contracts and proved, so that every replica processing the same
//! transaction sequence reaches the same state.

pub mod constant;
pub mod transactions;
pub mod schema;
pub mod digest;
pub mod tx_behavior;
pub mod service;
pub mod laws;
