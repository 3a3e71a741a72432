//! The authoritative state of the registry and every operation on it.
//!
//! The state bundles the token ledger (who owns which token, per-token
//! delegates, blanket operator grants) with the user/wallet directory and
//! its per-user product associations. Each operation is gated on the caller
//! identity, mutates the state only when it succeeds, and reports every
//! failure as a [`ContractError`] with the state left exactly as it was.

use std::collections::BTreeMap;
use std::collections::BTreeSet;
use vstd::prelude::*;

use crate::errors::ContractError;
use crate::identity::CallContext;
use crate::identity::CallbackContext;
use crate::identity::Identity;
use crate::notifications::Notification;
use crate::notifications::NotificationArg;
use crate::notifications::MINT_PRODUCT_OP;
use crate::notifications::TRANSFER_PRODUCT_OP;

verus! {

broadcast use {vstd::std_specs::btree::group_btree_axioms, vstd::laws_cmp::group_laws_cmp};

/// The immutable bundle attached to a token when it is minted. No operation
/// updates it afterwards.
#[derive(PartialEq, Eq, Clone, Debug)]
pub struct TokenMetadata {
    pub status: String,
    pub mint_time: String,
    pub expiry_time: String,
}

/// One registered user of the directory: the external user id it was
/// registered under and the wallet identity it is reachable at.
#[derive(PartialEq, Eq, Clone, Debug)]
pub struct UserRecord {
    pub external_id: String,
    pub wallet: Identity,
}

/// A blanket operator grant, keyed by the pair of identity values.
pub open spec fn operator_pair(owner: Identity, operator: Identity) -> (u128, u128) {
    (owner.value, operator.value)
}

/// A product reference: the product contract's identity value and the
/// product id within that contract.
pub open spec fn product_pair(product_address: Identity, product_id: u128) -> (u128, u128) {
    (product_address.value, product_id)
}

/// State of the registry: the token ledger, the user/wallet directory, and
/// the fixed configuration chosen at initialization.
pub struct NFTContractState {
    /// Descriptive name for the collection of tokens.
    name: String,
    /// Abbreviated name for the collection of tokens.
    symbol: String,
    /// The directory contract that outbound notifications are addressed to.
    user_contract_address: Identity,
    /// Owner of each minted token.
    owners: BTreeMap<u128, Identity>,
    /// The single approved delegate of a token, where one is set.
    token_approvals: BTreeMap<u128, Identity>,
    /// Blanket grants: `(owner, operator)` identity-value pairs. Presence
    /// means the operator may act on all of the owner's tokens.
    operator_approvals: BTreeSet<(u128, u128)>,
    /// Template that the tokens' URIs fit into.
    uri_template: String,
    /// The metadata bundle attached to each minted token.
    token_uri_details: BTreeMap<u128, TokenMetadata>,
    /// The single privileged identity fixed at initialization.
    contract_owner: Identity,
    /// Product label passed along in outbound notifications.
    product_id: String,
    /// Number of tokens ever minted; the high-water mark for token ids.
    total_count: u128,
    /// Registered users by their sequential user id.
    user_list: BTreeMap<u128, UserRecord>,
    /// Wallet identity value to the user id it currently resolves to.
    wallet_owner: BTreeMap<u128, u128>,
    /// Product references held per user id.
    user_product_list: BTreeMap<u128, BTreeSet<(u128, u128)>>,
    /// Number of users ever registered; the high-water mark for user ids.
    user_count: u128,
}

impl NFTContractState {
    /// Owner of each minted token.
    pub closed spec fn spec_owners(self) -> Map<u128, Identity> {
        self.owners@
    }

    /// The per-token delegate map.
    pub closed spec fn spec_approvals(self) -> Map<u128, Identity> {
        self.token_approvals@
    }

    /// The blanket operator grants as `(owner, operator)` value pairs.
    pub closed spec fn spec_operators(self) -> Set<(u128, u128)> {
        self.operator_approvals@
    }

    /// The metadata attached to each minted token.
    pub closed spec fn spec_metadata(self) -> Map<u128, TokenMetadata> {
        self.token_uri_details@
    }

    /// The registered users by user id.
    pub closed spec fn spec_users(self) -> Map<u128, UserRecord> {
        self.user_list@
    }

    /// The wallet index: wallet identity value to current user id.
    pub closed spec fn spec_wallet_index(self) -> Map<u128, u128> {
        self.wallet_owner@
    }

    /// The raw product table: each user id's product store.
    pub closed spec fn spec_product_table(self) -> Map<u128, BTreeSet<(u128, u128)>> {
        self.user_product_list@
    }

    /// Whether a product list is allocated for this user id.
    pub closed spec fn spec_has_product_list(self, user_id: u128) -> bool {
        self.user_product_list@.contains_key(user_id)
    }

    /// The products held by this user id, as product value pairs.
    pub closed spec fn spec_user_products(self, user_id: u128) -> Set<(u128, u128)> {
        if self.user_product_list@.contains_key(user_id) {
            self.user_product_list@[user_id]@
        } else {
            Set::empty()
        }
    }

    /// Number of tokens ever minted.
    pub closed spec fn spec_total_count(self) -> u128 {
        self.total_count
    }

    /// Number of users ever registered.
    pub closed spec fn spec_user_count(self) -> u128 {
        self.user_count
    }

    /// The single privileged identity fixed at initialization.
    pub closed spec fn spec_contract_owner(self) -> Identity {
        self.contract_owner
    }

    /// The directory contract that notifications are addressed to.
    pub closed spec fn spec_user_contract_address(self) -> Identity {
        self.user_contract_address
    }

    /// The collection name chosen at initialization.
    pub closed spec fn spec_name(self) -> String {
        self.name
    }

    /// The collection symbol chosen at initialization.
    pub closed spec fn spec_symbol(self) -> String {
        self.symbol
    }

    /// The URI template chosen at initialization.
    pub closed spec fn spec_uri_template(self) -> String {
        self.uri_template
    }

    /// The product label chosen at initialization.
    pub closed spec fn spec_product_id(self) -> String {
        self.product_id
    }

    /// Whether this token id has been minted.
    pub open spec fn spec_minted(self, token_id: u128) -> bool {
        self.spec_owners().contains_key(token_id)
    }

    /// The owner of a minted token.
    pub open spec fn spec_owner_of(self, token_id: u128) -> Identity {
        self.spec_owners()[token_id]
    }

    /// The current single-token delegate, if one is set.
    pub open spec fn spec_approved(self, token_id: u128) -> Option<Identity> {
        if self.spec_approvals().contains_key(token_id) {
            Some(self.spec_approvals()[token_id])
        } else {
            None
        }
    }

    /// Whether `operator` holds a blanket grant from `owner`.
    pub open spec fn spec_is_operator(self, owner: Identity, operator: Identity) -> bool {
        self.spec_operators().contains(operator_pair(owner, operator))
    }

    /// Whether `spender` may act on `token_id`: it is the owner, the
    /// token's delegate, or an operator of the owner.
    pub open spec fn spec_is_approved_or_owner(self, spender: Identity, token_id: u128) -> bool {
        ||| spender == self.spec_owner_of(token_id)
        ||| self.spec_approved(token_id) == Some(spender)
        ||| self.spec_is_operator(self.spec_owner_of(token_id), spender)
    }

    /// The user id a wallet currently resolves to, if it is registered.
    pub open spec fn spec_wallet_user(self, wallet: Identity) -> Option<u128> {
        if self.spec_wallet_index().contains_key(wallet.value) {
            Some(self.spec_wallet_index()[wallet.value])
        } else {
            None
        }
    }

    /// The structural invariant that every operation preserves:
    /// - token ids are exactly `1 ..= total_count`, so the count is the
    ///   high-water mark and never decreases;
    /// - every token carries its metadata bundle;
    /// - a delegate is only ever set for a minted token;
    /// - an operator grant never names its grantor;
    /// - user ids are exactly `1 ..= user_count`, each with a product list;
    /// - the wallet index only resolves to registered user ids.
    pub open spec fn well_formed(self) -> bool {
        &&& forall|t: u128|
            #[trigger] self.spec_owners().dom().contains(t) <==> 1 <= t
                <= self.spec_total_count()
        &&& forall|t: u128|
            #[trigger] self.spec_metadata().dom().contains(t) <==> 1 <= t
                <= self.spec_total_count()
        &&& forall|t: u128|
            #[trigger] self.spec_approvals().dom().contains(t) ==> self.spec_owners().dom().contains(
                t,
            )
        &&& forall|p: (u128, u128)| #[trigger] self.spec_operators().contains(p) ==> p.0 != p.1
        &&& forall|u: u128|
            #[trigger] self.spec_users().dom().contains(u) <==> 1 <= u <= self.spec_user_count()
        &&& forall|u: u128|
            #[trigger] self.spec_product_table().dom().contains(u) <==> 1 <= u
                <= self.spec_user_count()
        &&& forall|w: u128|
            #[trigger] self.spec_wallet_index().dom().contains(w) ==> 1
                <= self.spec_wallet_index()[w] <= self.spec_user_count()
    }

    /// Find the owner of a token. Fails with `NotFound` if no such token
    /// was ever minted.
    pub fn owner_of(&self, token_id: u128) -> (result: Result<Identity, ContractError>)
        ensures
            match result {
                Ok(owner) => self.spec_minted(token_id) && owner == self.spec_owner_of(token_id),
                Err(e) => !self.spec_minted(token_id) && e == ContractError::NotFound,
            },
    {
        match self.owners.get(&token_id) {
            Some(owner) => Ok(*owner),
            None => Err(ContractError::NotFound),
        }
    }

    /// The approved delegate for a single token, or none if there is none.
    pub fn get_approved(&self, token_id: u128) -> (result: Option<Identity>)
        ensures
            result == self.spec_approved(token_id),
    {
        match self.token_approvals.get(&token_id) {
            Some(approved) => Some(*approved),
            None => None,
        }
    }

    /// Whether `operator` holds a blanket grant over all of `owner`'s
    /// tokens.
    pub fn is_approved_for_all(&self, owner: Identity, operator: Identity) -> (result: bool)
        ensures
            result == self.spec_is_operator(owner, operator),
    {
        self.operator_approvals.contains(&(owner.value, operator.value))
    }

    /// Whether this token id is in use.
    pub fn token_exists(&self, token_id: u128) -> (result: bool)
        ensures
            result == self.spec_minted(token_id),
    {
        self.owners.contains_key(&token_id)
    }

    /// Whether `spender` is the owner of the token, its delegate, or an
    /// operator of its owner. Fails with `NotFound` if the token was never
    /// minted.
    pub fn is_approved_or_owner(&self, spender: Identity, token_id: u128) -> (result: Result<
        bool,
        ContractError,
    >)
        ensures
            match result {
                Ok(allowed) => self.spec_minted(token_id) && allowed
                    == self.spec_is_approved_or_owner(spender, token_id),
                Err(e) => !self.spec_minted(token_id) && e == ContractError::NotFound,
            },
    {
        let owner = self.owner_of(token_id)?;
        if spender == owner {
            Ok(true)
        } else if self.get_approved_is(spender, token_id) {
            Ok(true)
        } else {
            Ok(self.is_approved_for_all(owner, spender))
        }
    }

    /// Whether `spender` is exactly the token's current delegate.
    fn get_approved_is(&self, spender: Identity, token_id: u128) -> (result: bool)
        ensures
            result == (self.spec_approved(token_id) == Some(spender)),
    {
        match self.get_approved(token_id) {
            Some(approved) => approved == spender,
            None => false,
        }
    }

    /// Number of tokens ever minted.
    pub fn total_count(&self) -> (result: u128)
        ensures
            result == self.spec_total_count(),
    {
        self.total_count
    }

    /// Number of users ever registered.
    pub fn user_count(&self) -> (result: u128)
        ensures
            result == self.spec_user_count(),
    {
        self.user_count
    }

    /// The single privileged identity fixed at initialization.
    pub fn contract_owner(&self) -> (result: Identity)
        ensures
            result == self.spec_contract_owner(),
    {
        self.contract_owner
    }

    /// The user id a wallet currently resolves to, if it is registered.
    pub fn wallet_user(&self, wallet: Identity) -> (result: Option<u128>)
        ensures
            result == self.spec_wallet_user(wallet),
    {
        match self.wallet_owner.get(&wallet.value) {
            Some(user_id) => Some(*user_id),
            None => None,
        }
    }

    /// The collection name chosen at initialization.
    pub fn name(&self) -> (result: &String)
        ensures
            result == self.spec_name(),
    {
        &self.name
    }

    /// The collection symbol chosen at initialization.
    pub fn symbol(&self) -> (result: &String)
        ensures
            result == self.spec_symbol(),
    {
        &self.symbol
    }

    /// The URI template chosen at initialization.
    pub fn uri_template(&self) -> (result: &String)
        ensures
            result == self.spec_uri_template(),
    {
        &self.uri_template
    }

    /// The product label chosen at initialization.
    pub fn product_id(&self) -> (result: &String)
        ensures
            result == self.spec_product_id(),
    {
        &self.product_id
    }

    /// The directory contract that outbound notifications are addressed
    /// to.
    pub fn user_contract_address(&self) -> (result: Identity)
        ensures
            result == self.spec_user_contract_address(),
    {
        self.user_contract_address
    }

    /// Whether the user currently holds this product reference.
    pub fn user_has_product(
        &self,
        user_id: u128,
        product_address: Identity,
        product_id: u128,
    ) -> (result: bool)
        ensures
            result == self.spec_user_products(user_id).contains(
                product_pair(product_address, product_id),
            ),
    {
        match self.user_product_list.get(&user_id) {
            Some(products) => products.contains(&(product_address.value, product_id)),
            None => false,
        }
    }
}

/// The fixed configuration is the same in both states: collection name and
/// symbol, URI template, product label, directory address, and contract
/// owner.
pub open spec fn config_unchanged(pre: NFTContractState, post: NFTContractState) -> bool {
    &&& post.spec_name() == pre.spec_name()
    &&& post.spec_symbol() == pre.spec_symbol()
    &&& post.spec_uri_template() == pre.spec_uri_template()
    &&& post.spec_product_id() == pre.spec_product_id()
    &&& post.spec_user_contract_address() == pre.spec_user_contract_address()
    &&& post.spec_contract_owner() == pre.spec_contract_owner()
}

/// The minted tokens are the same in both states: same owners, same
/// metadata, same count.
pub open spec fn tokens_unchanged(pre: NFTContractState, post: NFTContractState) -> bool {
    &&& post.spec_owners() == pre.spec_owners()
    &&& post.spec_metadata() == pre.spec_metadata()
    &&& post.spec_total_count() == pre.spec_total_count()
}

/// The per-token delegate map is the same in both states.
pub open spec fn approvals_unchanged(pre: NFTContractState, post: NFTContractState) -> bool {
    post.spec_approvals() == pre.spec_approvals()
}

/// The blanket operator grants are the same in both states.
pub open spec fn operators_unchanged(pre: NFTContractState, post: NFTContractState) -> bool {
    post.spec_operators() == pre.spec_operators()
}

/// The user/wallet directory is the same in both states: same users, same
/// wallet index, same count, and the same products for every user.
pub open spec fn directory_unchanged(pre: NFTContractState, post: NFTContractState) -> bool {
    &&& post.spec_users() == pre.spec_users()
    &&& post.spec_wallet_index() == pre.spec_wallet_index()
    &&& post.spec_user_count() == pre.spec_user_count()
    &&& post.spec_product_table() == pre.spec_product_table()
    &&& forall|u: u128| #[trigger] post.spec_user_products(u) == pre.spec_user_products(u)
    &&& forall|u: u128|
        #[trigger] post.spec_has_product_list(u) <==> pre.spec_has_product_list(u)
}

/// The whole token ledger is the same in both states.
pub open spec fn ledger_unchanged(pre: NFTContractState, post: NFTContractState) -> bool {
    &&& tokens_unchanged(pre, post)
    &&& approvals_unchanged(pre, post)
    &&& operators_unchanged(pre, post)
}

impl NFTContractState {
    /// Replace or clear the single-token delegate. No authorization check
    /// happens here; callers must have validated the caller identity.
    pub fn set_approval(&mut self, approved: Option<Identity>, token_id: u128)
        ensures
            final(self).spec_approvals() == (match approved {
                Some(delegate) => old(self).spec_approvals().insert(token_id, delegate),
                None => old(self).spec_approvals().remove(token_id),
            }),
            final(self).spec_approved(token_id) == approved,
            tokens_unchanged(*old(self), *final(self)),
            operators_unchanged(*old(self), *final(self)),
            directory_unchanged(*old(self), *final(self)),
            config_unchanged(*old(self), *final(self)),
    {
        match approved {
            Some(delegate) => {
                self.token_approvals.insert(token_id, delegate);
            },
            None => {
                self.token_approvals.remove(&token_id);
            },
        }
    }

    /// Rebind ownership of a token to `to`, clearing its delegate. Fails
    /// with `NotFound` if the token was never minted and with
    /// `OwnershipMismatch` if `from` is not its current owner; either way
    /// the state is untouched. The delegate is always cleared on success:
    /// a stale delegate never survives an ownership change.
    pub fn transfer(&mut self, from: Identity, to: Identity, token_id: u128) -> (result: Result<
        (),
        ContractError,
    >)
        ensures
            match result {
                Ok(()) => {
                    &&& old(self).spec_minted(token_id)
                    &&& old(self).spec_owner_of(token_id) == from
                    &&& final(self).spec_owners() == old(self).spec_owners().insert(token_id, to)
                    &&& final(self).spec_approvals() == old(self).spec_approvals().remove(token_id)
                    &&& final(self).spec_metadata() == old(self).spec_metadata()
                    &&& final(self).spec_total_count() == old(self).spec_total_count()
                    &&& operators_unchanged(*old(self), *final(self))
                    &&& directory_unchanged(*old(self), *final(self))
                    &&& config_unchanged(*old(self), *final(self))
                },
                Err(e) => {
                    &&& *final(self) == *old(self)
                    &&& (e == ContractError::NotFound && !old(self).spec_minted(token_id)) || (e
                        == ContractError::OwnershipMismatch && old(self).spec_minted(token_id)
                        && old(self).spec_owner_of(token_id) != from)
                },
            },
    {
        let owner = self.owner_of(token_id)?;
        if owner != from {
            return Err(ContractError::OwnershipMismatch);
        }
        self.set_approval(None, token_id);
        self.owners.insert(token_id, to);
        Ok(())
    }
}

/// Bootstrap a fresh state. The initializer becomes the contract owner: the
/// only identity that may mint, transfer on behalf of owners, or manage the
/// directory.
pub fn initialize(
    ctx: CallContext,
    name: String,
    symbol: String,
    product_id: String,
    user_contract_address: Identity,
    uri_template: String,
) -> (state: NFTContractState)
    ensures
        state.well_formed(),
        state.spec_contract_owner() == ctx.sender,
        state.spec_user_contract_address() == user_contract_address,
        state.spec_name() == name,
        state.spec_symbol() == symbol,
        state.spec_product_id() == product_id,
        state.spec_uri_template() == uri_template,
        state.spec_total_count() == 0,
        state.spec_user_count() == 0,
        state.spec_owners() == Map::<u128, Identity>::empty(),
        state.spec_approvals() == Map::<u128, Identity>::empty(),
        state.spec_operators() == Set::<(u128, u128)>::empty(),
        state.spec_metadata() == Map::<u128, TokenMetadata>::empty(),
        state.spec_users() == Map::<u128, UserRecord>::empty(),
        state.spec_wallet_index() == Map::<u128, u128>::empty(),
        forall|u: u128| #[trigger] state.spec_user_products(u) == Set::<(u128, u128)>::empty(),
{
    NFTContractState {
        name,
        symbol,
        user_contract_address,
        owners: BTreeMap::new(),
        token_approvals: BTreeMap::new(),
        operator_approvals: BTreeSet::new(),
        uri_template,
        token_uri_details: BTreeMap::new(),
        contract_owner: ctx.sender,
        product_id,
        total_count: 0,
        user_list: BTreeMap::new(),
        wallet_owner: BTreeMap::new(),
        user_product_list: BTreeMap::new(),
        user_count: 0,
    }
}

/// The invariant survives any edit that keeps both counters, keeps the
/// domains of the token, metadata, user, and product stores, only shrinks
/// the wallet index or keeps its entries, and only adds delegate entries
/// for minted tokens or operator pairs with distinct members.
proof fn lemma_wf_preserved(pre: NFTContractState, post: NFTContractState)
    requires
        pre.well_formed(),
        post.spec_total_count() == pre.spec_total_count(),
        post.spec_user_count() == pre.spec_user_count(),
        forall|t: u128|
            #[trigger] post.spec_owners().dom().contains(t) <==> pre.spec_owners().dom().contains(
                t,
            ),
        forall|t: u128|
            #[trigger] post.spec_metadata().dom().contains(t)
                <==> pre.spec_metadata().dom().contains(t),
        forall|t: u128|
            #[trigger] post.spec_approvals().dom().contains(t)
                ==> pre.spec_approvals().dom().contains(t) || post.spec_owners().dom().contains(t),
        forall|p: (u128, u128)|
            #[trigger] post.spec_operators().contains(p) ==> pre.spec_operators().contains(p)
                || p.0 != p.1,
        forall|u: u128|
            #[trigger] post.spec_users().dom().contains(u) <==> pre.spec_users().dom().contains(u),
        forall|u: u128|
            #[trigger] post.spec_product_table().dom().contains(u)
                <==> pre.spec_product_table().dom().contains(u),
        forall|w: u128|
            #[trigger] post.spec_wallet_index().dom().contains(w)
                ==> pre.spec_wallet_index().dom().contains(w) && post.spec_wallet_index()[w]
                == pre.spec_wallet_index()[w],
    ensures
        post.well_formed(),
{
}

/// The token-ledger clauses of the invariant survive any edit that leaves
/// the token ledger itself untouched.
proof fn lemma_tokens_wf_preserved(pre: NFTContractState, post: NFTContractState)
    requires
        pre.well_formed(),
        post.spec_total_count() == pre.spec_total_count(),
        post.spec_owners() == pre.spec_owners(),
        post.spec_metadata() == pre.spec_metadata(),
        post.spec_approvals() == pre.spec_approvals(),
        post.spec_operators() == pre.spec_operators(),
    ensures
        forall|t: u128|
            #[trigger] post.spec_owners().dom().contains(t) <==> 1 <= t
                <= post.spec_total_count(),
        forall|t: u128|
            #[trigger] post.spec_metadata().dom().contains(t) <==> 1 <= t
                <= post.spec_total_count(),
        forall|t: u128|
            #[trigger] post.spec_approvals().dom().contains(t) ==> post.spec_owners().dom().contains(
                t,
            ),
        forall|p: (u128, u128)| #[trigger] post.spec_operators().contains(p) ==> p.0 != p.1,
{
}

/// Whether `caller` may manage the delegate of `token_id`: it is the
/// token's owner or holds a blanket grant from the owner.
pub open spec fn spec_may_approve(state: NFTContractState, caller: Identity, token_id: u128) -> bool {
    ||| caller == state.spec_owner_of(token_id)
    ||| state.spec_is_operator(state.spec_owner_of(token_id), caller)
}

/// The operator grants after granting or revoking `operator` for `owner`.
pub open spec fn spec_set_operator(
    operators: Set<(u128, u128)>,
    owner: Identity,
    operator: Identity,
    approved: bool,
) -> Set<(u128, u128)> {
    if approved {
        operators.insert(operator_pair(owner, operator))
    } else {
        operators.remove(operator_pair(owner, operator))
    }
}

/// Change or reaffirm the approved delegate for a token; `None` clears it.
/// Succeeds exactly when the token is minted and the caller is its owner or
/// an operator of its owner; otherwise the state is untouched and the error
/// says why: `NotFound` for a token never minted, `Unauthorized` for a
/// caller without standing.
pub fn approve(
    ctx: CallContext,
    state: &mut NFTContractState,
    approved: Option<Identity>,
    token_id: u128,
) -> (result: Result<(), ContractError>)
    requires
        old(state).well_formed(),
    ensures
        final(state).well_formed(),
        match result {
            Ok(()) => {
                &&& old(state).spec_minted(token_id)
                &&& spec_may_approve(*old(state), ctx.sender, token_id)
                &&& final(state).spec_approvals() == (match approved {
                    Some(delegate) => old(state).spec_approvals().insert(token_id, delegate),
                    None => old(state).spec_approvals().remove(token_id),
                })
                &&& final(state).spec_approved(token_id) == approved
                &&& tokens_unchanged(*old(state), *final(state))
                &&& operators_unchanged(*old(state), *final(state))
                &&& directory_unchanged(*old(state), *final(state))
                &&& config_unchanged(*old(state), *final(state))
            },
            Err(e) => {
                &&& *final(state) == *old(state)
                &&& (e == ContractError::NotFound && !old(state).spec_minted(token_id)) || (e
                    == ContractError::Unauthorized && old(state).spec_minted(token_id)
                    && !spec_may_approve(*old(state), ctx.sender, token_id))
            },
        },
{
    let owner = state.owner_of(token_id)?;
    if ctx.sender != owner && !state.is_approved_for_all(owner, ctx.sender) {
        return Err(ContractError::Unauthorized);
    }
    state.set_approval(approved, token_id);
    Ok(())
}

/// Grant or revoke a blanket operator approval from the caller to
/// `operator`. A caller may never name itself: that fails with
/// `InvalidSelfReference` and leaves the state untouched. Grants live in a
/// set, so granting twice leaves the same single grant.
pub fn set_approval_for_all(
    ctx: CallContext,
    state: &mut NFTContractState,
    operator: Identity,
    approved: bool,
) -> (result: Result<(), ContractError>)
    requires
        old(state).well_formed(),
    ensures
        final(state).well_formed(),
        match result {
            Ok(()) => {
                &&& operator != ctx.sender
                &&& final(state).spec_operators() == spec_set_operator(
                    old(state).spec_operators(),
                    ctx.sender,
                    operator,
                    approved,
                )
                &&& final(state).spec_is_operator(ctx.sender, operator) == approved
                &&& tokens_unchanged(*old(state), *final(state))
                &&& approvals_unchanged(*old(state), *final(state))
                &&& directory_unchanged(*old(state), *final(state))
                &&& config_unchanged(*old(state), *final(state))
            },
            Err(e) => {
                &&& *final(state) == *old(state)
                &&& e == ContractError::InvalidSelfReference
                &&& operator == ctx.sender
            },
        },
{
    if operator == ctx.sender {
        return Err(ContractError::InvalidSelfReference);
    }
    if approved {
        state.operator_approvals.insert((ctx.sender.value, operator.value));
    } else {
        state.operator_approvals.remove(&(ctx.sender.value, operator.value));
    }
    proof {
        lemma_wf_preserved(*old(state), *state);
    }
    Ok(())
}

/// The argument list of the notification that a successful token transfer
/// emits: previous owner, new owner, this contract, the token, and the
/// product label — in exactly this order.
pub open spec fn spec_transfer_notification_args(
    from: Identity,
    to: Identity,
    nft_contract: Identity,
    token_id: u128,
    product_id: String,
) -> Seq<NotificationArg> {
    seq![
        NotificationArg::Party(from),
        NotificationArg::Party(to),
        NotificationArg::Party(nft_contract),
        NotificationArg::Number(token_id),
        NotificationArg::Text(product_id),
    ]
}

/// Transfer ownership of a token. Only the contract owner may call this:
/// transfers are centrally gated, not owner-or-delegate gated. On success
/// the token's delegate is cleared, ownership is rebound to `to`, and
/// exactly one notification for the directory contract is returned. On any
/// failure the state is untouched: `Unauthorized` when the caller is not
/// the contract owner, `NotFound` when the token was never minted,
/// `OwnershipMismatch` when `from` is not the current owner.
pub fn transfer_from(
    ctx: CallContext,
    state: &mut NFTContractState,
    from: Identity,
    to: Identity,
    token_id: u128,
) -> (result: Result<Vec<Notification>, ContractError>)
    requires
        old(state).well_formed(),
    ensures
        final(state).well_formed(),
        match result {
            Ok(notifications) => {
                &&& ctx.sender == old(state).spec_contract_owner()
                &&& old(state).spec_minted(token_id)
                &&& old(state).spec_owner_of(token_id) == from
                &&& final(state).spec_owners() == old(state).spec_owners().insert(token_id, to)
                &&& final(state).spec_approvals() == old(state).spec_approvals().remove(token_id)
                &&& final(state).spec_owner_of(token_id) == to
                &&& final(state).spec_approved(token_id) is None
                &&& final(state).spec_metadata() == old(state).spec_metadata()
                &&& final(state).spec_total_count() == old(state).spec_total_count()
                &&& operators_unchanged(*old(state), *final(state))
                &&& directory_unchanged(*old(state), *final(state))
                &&& config_unchanged(*old(state), *final(state))
                &&& notifications@.len() == 1
                &&& notifications@[0].target == old(state).spec_user_contract_address()
                &&& notifications@[0].operation == TRANSFER_PRODUCT_OP
                &&& notifications@[0].arguments@ == spec_transfer_notification_args(
                    from,
                    to,
                    ctx.contract_address,
                    token_id,
                    old(state).spec_product_id(),
                )
            },
            Err(e) => {
                &&& *final(state) == *old(state)
                &&& (e == ContractError::Unauthorized && ctx.sender != old(
                    state,
                ).spec_contract_owner()) || (ctx.sender == old(state).spec_contract_owner() && ((e
                    == ContractError::NotFound && !old(state).spec_minted(token_id)) || (e
                    == ContractError::OwnershipMismatch && old(state).spec_minted(token_id) && old(
                    state,
                ).spec_owner_of(token_id) != from)))
            },
        },
{
    if state.contract_owner != ctx.sender {
        return Err(ContractError::Unauthorized);
    }
    state.transfer(from, to, token_id)?;
    proof {
        lemma_wf_preserved(*old(state), *state);
    }
    let mut arguments: Vec<NotificationArg> = Vec::new();
    arguments.push(NotificationArg::Party(from));
    arguments.push(NotificationArg::Party(to));
    arguments.push(NotificationArg::Party(ctx.contract_address));
    arguments.push(NotificationArg::Number(token_id));
    arguments.push(NotificationArg::Text(state.product_id.clone()));
    let notification = Notification {
        target: state.user_contract_address,
        operation: TRANSFER_PRODUCT_OP,
        arguments,
    };
    let mut notifications: Vec<Notification> = Vec::new();
    notifications.push(notification);
    proof {
        assert(notifications@[0].arguments@ =~= spec_transfer_notification_args(
            from,
            to,
            ctx.contract_address,
            token_id,
            old(state).spec_product_id(),
        ));
    }
    Ok(notifications)
}

/// The first token id a batch assigns: one past the high-water mark before
/// the batch. An empty batch assigns nothing and reports the unchanged
/// high-water mark itself.
pub open spec fn spec_batch_start(total_before: u128, count: u128) -> u128 {
    if count == 0 {
        total_before
    } else {
        (total_before + 1) as u128
    }
}

/// The argument list of the notification that a batch mint emits: the new
/// owner, this contract, the first assigned id, the batch size, and the
/// product label — in exactly this order.
pub open spec fn spec_batch_mint_notification_args(
    to: Identity,
    nft_contract: Identity,
    start: u128,
    count: u128,
    product_id: String,
) -> Seq<NotificationArg> {
    seq![
        NotificationArg::Party(to),
        NotificationArg::Party(nft_contract),
        NotificationArg::Number(start),
        NotificationArg::Number(count),
        NotificationArg::Text(product_id),
    ]
}

/// Mint `count` tokens for `to` in one batch. Only the contract owner may
/// mint; any other caller fails with `Unauthorized` and changes nothing.
/// On success the high-water mark grows by exactly `count`, the new tokens
/// get the `count` consecutive ids after the old mark, every one owned by
/// `to` and carrying its own copy of the same metadata bundle, every
/// previously minted token is untouched, and exactly one notification
/// summarizing the whole batch is returned — one outbound call per batch,
/// never one per token.
pub fn batch_mint(
    ctx: CallContext,
    state: &mut NFTContractState,
    to: Identity,
    count: u128,
    status: String,
    mint_time: String,
    expiry_time: String,
) -> (result: Result<Vec<Notification>, ContractError>)
    requires
        old(state).well_formed(),
        old(state).spec_total_count() + count <= u128::MAX,
    ensures
        final(state).well_formed(),
        match result {
            Ok(notifications) => {
                let pre = *old(state);
                let post = *final(state);
                &&& ctx.sender == pre.spec_contract_owner()
                &&& post.spec_total_count() == pre.spec_total_count() + count
                &&& forall|t: u128|
                    #![trigger post.spec_owners().dom().contains(t)]
                    #![trigger post.spec_owners()[t]]
                    #![trigger post.spec_metadata()[t]]
                    pre.spec_owners().dom().contains(t) ==> post.spec_owners().dom().contains(t)
                        && post.spec_owners()[t] == pre.spec_owners()[t]
                        && post.spec_metadata()[t] == pre.spec_metadata()[t]
                &&& forall|t: u128|
                    #![trigger post.spec_owners().dom().contains(t)]
                    #![trigger post.spec_owners()[t]]
                    #![trigger post.spec_metadata()[t]]
                    pre.spec_total_count() < t <= pre.spec_total_count() + count
                        ==> post.spec_owners().dom().contains(t) && post.spec_owners()[t] == to
                        && post.spec_metadata()[t] == (TokenMetadata {
                        status,
                        mint_time,
                        expiry_time,
                    })
                &&& approvals_unchanged(*old(state), *final(state))
                &&& operators_unchanged(*old(state), *final(state))
                &&& directory_unchanged(*old(state), *final(state))
                &&& config_unchanged(*old(state), *final(state))
                &&& notifications@.len() == 1
                &&& notifications@[0].target == old(state).spec_user_contract_address()
                &&& notifications@[0].operation == MINT_PRODUCT_OP
                &&& notifications@[0].arguments@ == spec_batch_mint_notification_args(
                    to,
                    ctx.contract_address,
                    spec_batch_start(old(state).spec_total_count(), count),
                    count,
                    old(state).spec_product_id(),
                )
            },
            Err(e) => {
                &&& *final(state) == *old(state)
                &&& e == ContractError::Unauthorized
                &&& ctx.sender != old(state).spec_contract_owner()
            },
        },
{
    if ctx.sender != state.contract_owner {
        return Err(ContractError::Unauthorized);
    }
    let ghost pre = *state;
    let total_before = state.total_count;
    let mut i: u128 = 0;
    while i < count
        invariant
            pre.well_formed(),
            state.well_formed(),
            i <= count,
            total_before == pre.spec_total_count(),
            pre.spec_total_count() + count <= u128::MAX,
            state.spec_total_count() == pre.spec_total_count() + i,
            forall|t: u128|
                #[trigger] pre.spec_owners().dom().contains(t)
                    ==> state.spec_owners().dom().contains(t) && state.spec_owners()[t]
                    == pre.spec_owners()[t] && state.spec_metadata()[t] == pre.spec_metadata()[t],
            forall|t: u128|
                pre.spec_total_count() < t <= state.spec_total_count()
                    ==> #[trigger] state.spec_owners().dom().contains(t) && state.spec_owners()[t]
                    == to && state.spec_metadata()[t] == (TokenMetadata {
                    status,
                    mint_time,
                    expiry_time,
                }),
            approvals_unchanged(pre, *state),
            operators_unchanged(pre, *state),
            directory_unchanged(pre, *state),
            config_unchanged(pre, *state),
        decreases count - i,
    {
        let ghost before = *state;
        let token_id = state.total_count + 1;
        state.total_count = token_id;
        let token_uri = TokenMetadata {
            status: status.clone(),
            mint_time: mint_time.clone(),
            expiry_time: expiry_time.clone(),
        };
        proof {
            assert(token_uri == (TokenMetadata { status, mint_time, expiry_time }));
        }
        state.owners.insert(token_id, to);
        state.token_uri_details.insert(token_id, token_uri);
        proof {
            assert(state.spec_owners() == before.spec_owners().insert(token_id, to));
            assert(state.spec_metadata() == before.spec_metadata().insert(
                token_id,
                (TokenMetadata { status, mint_time, expiry_time }),
            ));
            assert forall|t: u128|
                pre.spec_total_count() < t <= state.spec_total_count()
                    implies #[trigger] state.spec_owners().dom().contains(t)
                && state.spec_owners()[t] == to && state.spec_metadata()[t] == (TokenMetadata {
                status,
                mint_time,
                expiry_time,
            }) by {
                if t != token_id {
                    assert(before.spec_owners().dom().contains(t));
                }
            }
            assert forall|t: u128|
                #[trigger] state.spec_owners().dom().contains(t) implies 1 <= t
                <= state.spec_total_count() by {
                if t != token_id {
                    assert(before.spec_owners().dom().contains(t));
                }
            }
            assert forall|t: u128| 1 <= t <= state.spec_total_count() implies #[trigger] state
                .spec_owners()
                .dom()
                .contains(t) by {
                if t != token_id {
                    assert(before.spec_owners().dom().contains(t));
                }
            }
            assert forall|t: u128|
                #[trigger] state.spec_metadata().dom().contains(t) <==> 1 <= t
                    <= state.spec_total_count() by {
                assert(state.spec_metadata().dom().contains(t) <==> t == token_id
                    || before.spec_metadata().dom().contains(t));
            }
        }
        i = i + 1;
    }
    let start = if count == 0 {
        total_before
    } else {
        total_before + 1
    };
    let mut arguments: Vec<NotificationArg> = Vec::new();
    arguments.push(NotificationArg::Party(to));
    arguments.push(NotificationArg::Party(ctx.contract_address));
    arguments.push(NotificationArg::Number(start));
    arguments.push(NotificationArg::Number(count));
    arguments.push(NotificationArg::Text(state.product_id.clone()));
    let notification = Notification {
        target: state.user_contract_address,
        operation: MINT_PRODUCT_OP,
        arguments,
    };
    let mut notifications: Vec<Notification> = Vec::new();
    notifications.push(notification);
    proof {
        assert(notifications@[0].arguments@ =~= spec_batch_mint_notification_args(
            to,
            ctx.contract_address,
            spec_batch_start(old(state).spec_total_count(), count),
            count,
            old(state).spec_product_id(),
        ));
    }
    Ok(notifications)
}

/// Acknowledge the runtime's report on an emitted outbound call. A failed
/// report is fatal for the invocation (`ExternalCallFailed`); the state is
/// never changed either way and no further notification is emitted.
pub fn mint_callback(
    ctx: CallContext,
    callback_ctx: CallbackContext,
    state: &mut NFTContractState,
) -> (result: Result<Vec<Notification>, ContractError>)
    ensures
        *final(state) == *old(state),
        match result {
            Ok(notifications) => callback_ctx.success && notifications@ == Seq::<
                Notification,
            >::empty(),
            Err(e) => !callback_ctx.success && e == ContractError::ExternalCallFailed,
        },
{
    if !callback_ctx.success {
        return Err(ContractError::ExternalCallFailed);
    }
    Ok(Vec::new())
}

/// Register a user: bind an external user id and a wallet to the next
/// sequential user id. Only the contract owner may register users; any
/// other caller fails with `Unauthorized` and changes nothing. Registering
/// a wallet again silently rebinds the wallet index to the new user id; no
/// collision check is made. The new user starts without products.
pub fn mint(
    ctx: CallContext,
    state: &mut NFTContractState,
    user_id: String,
    wallet: Identity,
) -> (result: Result<u128, ContractError>)
    requires
        old(state).well_formed(),
        old(state).spec_user_count() < u128::MAX,
    ensures
        final(state).well_formed(),
        match result {
            Ok(new_user) => {
                let pre = *old(state);
                let post = *final(state);
                &&& ctx.sender == pre.spec_contract_owner()
                &&& new_user == pre.spec_user_count() + 1
                &&& post.spec_user_count() == new_user
                &&& post.spec_users() == pre.spec_users().insert(
                    new_user,
                    (UserRecord { external_id: user_id, wallet }),
                )
                &&& post.spec_wallet_index() == pre.spec_wallet_index().insert(
                    wallet.value,
                    new_user,
                )
                &&& post.spec_wallet_user(wallet) == Some(new_user)
                &&& post.spec_user_products(new_user) == Set::<(u128, u128)>::empty()
                &&& forall|u: u128|
                    u != new_user ==> #[trigger] post.spec_user_products(u)
                        == pre.spec_user_products(u)
                &&& ledger_unchanged(pre, post)
                &&& config_unchanged(pre, post)
            },
            Err(e) => {
                &&& *final(state) == *old(state)
                &&& e == ContractError::Unauthorized
                &&& ctx.sender != old(state).spec_contract_owner()
            },
        },
{
    if ctx.sender != state.contract_owner {
        return Err(ContractError::Unauthorized);
    }
    let ghost pre = *state;
    let new_user = state.user_count + 1;
    state.user_count = new_user;
    let record = UserRecord { external_id: user_id, wallet };
    state.user_list.insert(new_user, record);
    state.wallet_owner.insert(wallet.value, new_user);
    state.user_product_list.insert(new_user, BTreeSet::new());
    proof {
        lemma_tokens_wf_preserved(pre, *state);
        assert forall|u: u128|
            #[trigger] state.spec_users().dom().contains(u) <==> 1 <= u
                <= state.spec_user_count() by {
            assert(state.spec_users().dom().contains(u) <==> u == new_user
                || pre.spec_users().dom().contains(u));
        }
        assert forall|u: u128|
            #[trigger] state.spec_product_table().dom().contains(u) <==> 1 <= u
                <= state.spec_user_count() by {
            assert(state.spec_product_table().dom().contains(u) <==> u == new_user
                || pre.spec_product_table().dom().contains(u));
        }
        assert forall|w: u128| #[trigger] state.spec_wallet_index().dom().contains(w) implies 1
            <= state.spec_wallet_index()[w] <= state.spec_user_count() by {
            if w != wallet.value {
                assert(pre.spec_wallet_index().dom().contains(w));
            }
        }
    }
    Ok(new_user)
}

/// Record a product reference for the user a wallet resolves to. Only the
/// contract owner may call this; `NotFound` reports an unregistered
/// wallet. On failure the state is untouched.
pub fn mint_product(
    ctx: CallContext,
    state: &mut NFTContractState,
    to: Identity,
    product_address: Identity,
    product_id: u128,
) -> (result: Result<(), ContractError>)
    requires
        old(state).well_formed(),
    ensures
        final(state).well_formed(),
        match result {
            Ok(()) => {
                let pre = *old(state);
                let post = *final(state);
                &&& ctx.sender == pre.spec_contract_owner()
                &&& pre.spec_wallet_user(to) matches Some(user) && {
                    &&& post.spec_user_products(user) == pre.spec_user_products(user).insert(
                        product_pair(product_address, product_id),
                    )
                    &&& forall|u: u128|
                        u != user ==> #[trigger] post.spec_user_products(u)
                            == pre.spec_user_products(u)
                }
                &&& post.spec_users() == pre.spec_users()
                &&& post.spec_wallet_index() == pre.spec_wallet_index()
                &&& post.spec_user_count() == pre.spec_user_count()
                &&& ledger_unchanged(pre, post)
                &&& config_unchanged(pre, post)
            },
            Err(e) => {
                &&& *final(state) == *old(state)
                &&& (e == ContractError::Unauthorized && ctx.sender != old(
                    state,
                ).spec_contract_owner()) || (e == ContractError::NotFound && ctx.sender == old(
                    state,
                ).spec_contract_owner() && old(state).spec_wallet_user(to) is None)
            },
        },
{
    if ctx.sender != state.contract_owner {
        return Err(ContractError::Unauthorized);
    }
    let to_user = match state.wallet_user(to) {
        Some(user) => user,
        None => {
            return Err(ContractError::NotFound);
        },
    };
    let ghost pre = *state;
    proof {
        assert(pre.spec_wallet_index().dom().contains(to.value));
        assert(pre.spec_product_table().dom().contains(to_user));
    }
    let mut products = match state.user_product_list.remove(&to_user) {
        Some(products) => products,
        None => {
            proof {
                assert(false);
            }
            BTreeSet::new()
        },
    };
    products.insert((product_address.value, product_id));
    state.user_product_list.insert(to_user, products);
    proof {
        lemma_wf_preserved(pre, *state);
        assert(state.spec_user_products(to_user) =~= pre.spec_user_products(to_user).insert(
            product_pair(product_address, product_id),
        ));
    }
    Ok(())
}

/// Every user's products after moving one product reference from one user
/// to another: the reference is first added to the receiver's set, then
/// removed from the sender's set. When sender and receiver are the same
/// user, the removal wins and the reference ends up absent.
pub open spec fn spec_products_after_move(
    pre: NFTContractState,
    from_user: u128,
    to_user: u128,
    product: (u128, u128),
    u: u128,
) -> Set<(u128, u128)> {
    let after_insert = if u == to_user {
        pre.spec_user_products(u).insert(product)
    } else {
        pre.spec_user_products(u)
    };
    if u == from_user {
        after_insert.remove(product)
    } else {
        after_insert
    }
}

/// Move a product reference between the users two wallets resolve to. Only
/// the contract owner may call this; `NotFound` reports an unregistered
/// wallet on either side, checked before anything changes. The reference
/// is added to the receiver unconditionally, then removed from the sender:
/// a sender that never held it is left unaffected, with the removal a
/// no-op. On failure the state is untouched.
pub fn transfer_product(
    ctx: CallContext,
    state: &mut NFTContractState,
    from: Identity,
    to: Identity,
    product_address: Identity,
    product_id: u128,
) -> (result: Result<(), ContractError>)
    requires
        old(state).well_formed(),
    ensures
        final(state).well_formed(),
        match result {
            Ok(()) => {
                let pre = *old(state);
                let post = *final(state);
                &&& ctx.sender == pre.spec_contract_owner()
                &&& match (pre.spec_wallet_user(from), pre.spec_wallet_user(to)) {
                    (Some(from_user), Some(to_user)) => forall|u: u128|
                        #[trigger] post.spec_user_products(u) == spec_products_after_move(
                            pre,
                            from_user,
                            to_user,
                            product_pair(product_address, product_id),
                            u,
                        ),
                    _ => false,
                }
                &&& post.spec_users() == pre.spec_users()
                &&& post.spec_wallet_index() == pre.spec_wallet_index()
                &&& post.spec_user_count() == pre.spec_user_count()
                &&& ledger_unchanged(pre, post)
                &&& config_unchanged(pre, post)
            },
            Err(e) => {
                &&& *final(state) == *old(state)
                &&& (e == ContractError::Unauthorized && ctx.sender != old(
                    state,
                ).spec_contract_owner()) || (e == ContractError::NotFound && ctx.sender == old(
                    state,
                ).spec_contract_owner() && (old(state).spec_wallet_user(to) is None || old(
                    state,
                ).spec_wallet_user(from) is None))
            },
        },
{
    if ctx.sender != state.contract_owner {
        return Err(ContractError::Unauthorized);
    }
    let to_user = match state.wallet_user(to) {
        Some(user) => user,
        None => {
            return Err(ContractError::NotFound);
        },
    };
    let from_user = match state.wallet_user(from) {
        Some(user) => user,
        None => {
            return Err(ContractError::NotFound);
        },
    };
    let ghost pre = *state;
    proof {
        assert(pre.spec_wallet_index().dom().contains(to.value));
        assert(pre.spec_wallet_index().dom().contains(from.value));
        assert(pre.spec_product_table().dom().contains(to_user));
        assert(pre.spec_product_table().dom().contains(from_user));
    }
    let mut to_products = match state.user_product_list.remove(&to_user) {
        Some(products) => products,
        None => {
            proof {
                assert(false);
            }
            BTreeSet::new()
        },
    };
    to_products.insert((product_address.value, product_id));
    state.user_product_list.insert(to_user, to_products);
    let ghost mid = *state;
    proof {
        assert(mid.spec_product_table().dom().contains(from_user));
    }
    let mut from_products = match state.user_product_list.remove(&from_user) {
        Some(products) => products,
        None => {
            proof {
                assert(false);
            }
            BTreeSet::new()
        },
    };
    from_products.remove(&(product_address.value, product_id));
    state.user_product_list.insert(from_user, from_products);
    proof {
        lemma_wf_preserved(pre, *state);
        let product = product_pair(product_address, product_id);
        assert forall|u: u128|
            #[trigger] state.spec_user_products(u) == spec_products_after_move(
                pre,
                from_user,
                to_user,
                product,
                u,
            ) by {
            assert(mid.spec_user_products(to_user) =~= pre.spec_user_products(to_user).insert(
                product,
            ));
            if u != to_user {
                assert(mid.spec_user_products(u) == pre.spec_user_products(u));
            }
            assert(state.spec_user_products(from_user) =~= mid.spec_user_products(
                from_user,
            ).remove(product));
            if u != from_user {
                assert(state.spec_user_products(u) == mid.spec_user_products(u));
            }
            assert(state.spec_user_products(u) =~= spec_products_after_move(
                pre,
                from_user,
                to_user,
                product,
                u,
            ));
        }
    }
    Ok(())
}

} // verus!
