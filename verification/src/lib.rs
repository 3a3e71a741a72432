//! Ownership and delegated-authority bookkeeping for a set of uniquely
//! identified tokens, together with a user/wallet directory and per-user
//! product associations.
//!
//! The core is a pure state machine: every operation takes an
//! already-authenticated caller identity and the current state, decides
//! whether the caller may act, and either mutates the state and returns the
//! outbound notifications the runtime must deliver, or rejects the whole
//! invocation with a [`errors::ContractError`] and leaves the state
//! untouched. Delivery of notifications, persistence, and transaction
//! dispatch are the surrounding runtime's concern.

pub mod errors;
pub mod identity;
pub mod laws;
pub mod ledger;
pub mod notifications;
