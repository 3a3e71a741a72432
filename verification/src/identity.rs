use vstd::prelude::*;

verus! {

/// An opaque, totally ordered identifier for a participant: an owner, an
/// operator, a caller, a wallet, or a contract instance. The core never
/// interprets an identity; it only compares identities and uses them as
/// keys.
#[derive(PartialEq, Eq, Structural, Clone, Copy, PartialOrd, Ord, Hash, Debug)]
pub struct Identity {
    pub value: u128,
}

/// The facts that arrive with every invocation: who sent the call and which
/// contract instance is executing it. The runtime has already authenticated
/// the sender before the core sees it.
#[derive(PartialEq, Eq, Structural, Clone, Copy, Debug)]
pub struct CallContext {
    pub sender: Identity,
    pub contract_address: Identity,
}

/// The runtime's acknowledgment for a previously emitted outbound call.
#[derive(PartialEq, Eq, Structural, Clone, Copy, Debug)]
pub struct CallbackContext {
    pub success: bool,
}

} // verus!
