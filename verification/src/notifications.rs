use vstd::prelude::*;
use crate::identity::Identity;

verus! {

/// Operation tag of a notification that asks the directory contract to move
/// a product between two wallets.
pub const TRANSFER_PRODUCT_OP: u32 = 2;

/// Operation tag of a notification that asks the directory contract to
/// record newly minted products for a wallet.
pub const MINT_PRODUCT_OP: u32 = 3;

/// One position-significant argument of an outbound notification.
#[derive(PartialEq, Eq, Clone, Debug)]
pub enum NotificationArg {
    /// A participant identity.
    Party(Identity),
    /// A token id, a count, or another plain number.
    Number(u128),
    /// A textual label, such as a product id.
    Text(String),
}

/// An abstract record describing one downstream call for the surrounding
/// runtime to deliver: the target identity, an operation tag, and a fixed,
/// position-significant argument list. The core never inspects the reply;
/// the runtime reports it separately through a callback.
#[derive(PartialEq, Eq, Clone, Debug)]
pub struct Notification {
    pub target: Identity,
    pub operation: u32,
    pub arguments: Vec<NotificationArg>,
}

} // verus!
