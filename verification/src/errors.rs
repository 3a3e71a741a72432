use vstd::prelude::*;

verus! {

/// Why an invocation was rejected. Every error is terminal for the current
/// invocation: whenever an operation returns one, no state mutation is
/// visible to later calls.
#[derive(PartialEq, Eq, Structural, Clone, Copy, Debug)]
pub enum ContractError {
    /// The token, user, or wallet that the call names does not exist.
    NotFound,
    /// The caller fails the gating predicate for the requested action.
    Unauthorized,
    /// A transfer's asserted current owner is not the actual owner.
    OwnershipMismatch,
    /// An operator grant or revocation names the grantor itself.
    InvalidSelfReference,
    /// The runtime reported failure for an emitted outbound call.
    ExternalCallFailed,
}

} // verus!
