use nft_registry::errors::ContractError;
use nft_registry::identity::CallContext;
use nft_registry::identity::CallbackContext;
use nft_registry::identity::Identity;
use nft_registry::ledger::approve;
use nft_registry::ledger::batch_mint;
use nft_registry::ledger::initialize;
use nft_registry::ledger::mint_callback;
use nft_registry::ledger::set_approval_for_all;
use nft_registry::ledger::transfer_from;
use nft_registry::ledger::NFTContractState;
use nft_registry::notifications::NotificationArg;
use nft_registry::notifications::MINT_PRODUCT_OP;
use nft_registry::notifications::TRANSFER_PRODUCT_OP;

fn admin() -> Identity {
    Identity { value: 1 }
}
fn holder() -> Identity {
    Identity { value: 2 }
}
fn receiver() -> Identity {
    Identity { value: 3 }
}
fn operator() -> Identity {
    Identity { value: 4 }
}
fn delegate() -> Identity {
    Identity { value: 5 }
}
fn stranger() -> Identity {
    Identity { value: 6 }
}
fn directory() -> Identity {
    Identity { value: 90 }
}
fn this_contract() -> Identity {
    Identity { value: 91 }
}

fn ctx_of(sender: Identity) -> CallContext {
    CallContext {
        sender,
        contract_address: this_contract(),
    }
}

fn fresh_state() -> NFTContractState {
    initialize(
        ctx_of(admin()),
        "Collection".to_string(),
        "COL".to_string(),
        "product-1".to_string(),
        directory(),
        "https://example.invalid/{}".to_string(),
    )
}

fn minted_state(count: u128) -> NFTContractState {
    let mut state = fresh_state();
    batch_mint(
        ctx_of(admin()),
        &mut state,
        holder(),
        count,
        "fresh".to_string(),
        "2024-01-01".to_string(),
        "2030-01-01".to_string(),
    )
    .expect("batch mint by the contract owner succeeds");
    state
}

#[test]
fn initialize_starts_empty() {
    let state = fresh_state();
    assert_eq!(state.contract_owner(), admin());
    assert_eq!(state.name(), "Collection");
    assert_eq!(state.symbol(), "COL");
    assert_eq!(state.product_id(), "product-1");
    assert_eq!(state.uri_template(), "https://example.invalid/{}");
    assert_eq!(state.user_contract_address(), directory());
    assert_eq!(state.total_count(), 0);
    assert_eq!(state.user_count(), 0);
    assert!(!state.token_exists(1));
    assert_eq!(state.owner_of(1), Err(ContractError::NotFound));
    assert_eq!(state.get_approved(1), None);
    assert!(!state.is_approved_for_all(holder(), operator()));
}

#[test]
fn batch_mint_assigns_consecutive_ids() {
    let mut state = fresh_state();
    let notifications = batch_mint(
        ctx_of(admin()),
        &mut state,
        holder(),
        3,
        "fresh".to_string(),
        "2024-01-01".to_string(),
        "2030-01-01".to_string(),
    )
    .expect("batch mint by the contract owner succeeds");
    assert_eq!(state.total_count(), 3);
    for token in 1..=3u128 {
        assert!(state.token_exists(token));
        assert_eq!(state.owner_of(token), Ok(holder()));
        assert_eq!(state.get_approved(token), None);
    }
    assert!(!state.token_exists(4));
    assert_eq!(notifications.len(), 1);
    assert_eq!(notifications[0].target, directory());
    assert_eq!(notifications[0].operation, MINT_PRODUCT_OP);
    assert_eq!(
        notifications[0].arguments,
        vec![
            NotificationArg::Party(holder()),
            NotificationArg::Party(this_contract()),
            NotificationArg::Number(1),
            NotificationArg::Number(3),
            NotificationArg::Text("product-1".to_string()),
        ]
    );
}

#[test]
fn batch_mint_emits_one_notification_regardless_of_size() {
    let mut state = fresh_state();
    let notifications = batch_mint(
        ctx_of(admin()),
        &mut state,
        holder(),
        25,
        "fresh".to_string(),
        "2024-01-01".to_string(),
        "2030-01-01".to_string(),
    )
    .expect("batch mint by the contract owner succeeds");
    assert_eq!(state.total_count(), 25);
    assert_eq!(notifications.len(), 1);
    assert_eq!(
        notifications[0].arguments[2],
        NotificationArg::Number(1),
        "the notification reports the first assigned id"
    );
    assert_eq!(notifications[0].arguments[3], NotificationArg::Number(25));
}

#[test]
fn batch_mint_rejects_other_callers() {
    let mut state = fresh_state();
    let result = batch_mint(
        ctx_of(stranger()),
        &mut state,
        holder(),
        3,
        "fresh".to_string(),
        "2024-01-01".to_string(),
        "2030-01-01".to_string(),
    );
    assert_eq!(result.unwrap_err(), ContractError::Unauthorized);
    assert_eq!(state.total_count(), 0);
    assert!(!state.token_exists(1));
}

#[test]
fn batch_mint_empty_batch_still_notifies() {
    let mut state = minted_state(2);
    let notifications = batch_mint(
        ctx_of(admin()),
        &mut state,
        holder(),
        0,
        "fresh".to_string(),
        "2024-01-01".to_string(),
        "2030-01-01".to_string(),
    )
    .expect("an empty batch is not an error");
    assert_eq!(state.total_count(), 2);
    assert_eq!(notifications.len(), 1);
    assert_eq!(notifications[0].arguments[2], NotificationArg::Number(2));
    assert_eq!(notifications[0].arguments[3], NotificationArg::Number(0));
}

#[test]
fn transfer_rebinds_owner_and_clears_delegate() {
    let mut state = minted_state(3);
    approve(ctx_of(holder()), &mut state, Some(delegate()), 2).expect("owner may approve");
    let notifications = transfer_from(ctx_of(admin()), &mut state, holder(), receiver(), 2)
        .expect("the contract owner may transfer");
    assert_eq!(state.owner_of(2), Ok(receiver()));
    assert_eq!(state.get_approved(2), None, "the delegate never survives a transfer");
    assert_eq!(state.owner_of(1), Ok(holder()));
    assert_eq!(state.owner_of(3), Ok(holder()));
    assert_eq!(state.total_count(), 3);
    assert_eq!(notifications.len(), 1);
    assert_eq!(notifications[0].target, directory());
    assert_eq!(notifications[0].operation, TRANSFER_PRODUCT_OP);
    assert_eq!(
        notifications[0].arguments,
        vec![
            NotificationArg::Party(holder()),
            NotificationArg::Party(receiver()),
            NotificationArg::Party(this_contract()),
            NotificationArg::Number(2),
            NotificationArg::Text("product-1".to_string()),
        ]
    );
}

#[test]
fn transfer_rejects_callers_other_than_contract_owner() {
    let mut state = minted_state(3);
    approve(ctx_of(holder()), &mut state, Some(delegate()), 2).expect("owner may approve");
    let result = transfer_from(ctx_of(holder()), &mut state, holder(), receiver(), 2);
    assert_eq!(result.unwrap_err(), ContractError::Unauthorized);
    assert_eq!(state.owner_of(2), Ok(holder()), "a rejected transfer changes nothing");
    assert_eq!(state.get_approved(2), Some(delegate()));
}

#[test]
fn transfer_rejects_wrong_claimed_owner() {
    let mut state = minted_state(1);
    let result = transfer_from(ctx_of(admin()), &mut state, receiver(), stranger(), 1);
    assert_eq!(result.unwrap_err(), ContractError::OwnershipMismatch);
    assert_eq!(state.owner_of(1), Ok(holder()));
}

#[test]
fn transfer_rejects_unknown_token() {
    let mut state = minted_state(1);
    let result = transfer_from(ctx_of(admin()), &mut state, holder(), receiver(), 7);
    assert_eq!(result.unwrap_err(), ContractError::NotFound);
}

#[test]
fn approve_by_owner_sets_and_clears_delegate() {
    let mut state = minted_state(1);
    approve(ctx_of(holder()), &mut state, Some(delegate()), 1).expect("owner may approve");
    assert_eq!(state.get_approved(1), Some(delegate()));
    approve(ctx_of(holder()), &mut state, None, 1).expect("owner may clear");
    assert_eq!(state.get_approved(1), None);
}

#[test]
fn approve_by_operator_succeeds() {
    let mut state = minted_state(1);
    set_approval_for_all(ctx_of(holder()), &mut state, operator(), true).expect("grant succeeds");
    approve(ctx_of(operator()), &mut state, Some(delegate()), 1)
        .expect("an operator of the owner may approve");
    assert_eq!(state.get_approved(1), Some(delegate()));
}

#[test]
fn approve_by_stranger_is_rejected() {
    let mut state = minted_state(1);
    let result = approve(ctx_of(stranger()), &mut state, Some(delegate()), 1);
    assert_eq!(result.unwrap_err(), ContractError::Unauthorized);
    assert_eq!(state.get_approved(1), None);
}

#[test]
fn approve_unknown_token_is_rejected() {
    let mut state = minted_state(1);
    let result = approve(ctx_of(holder()), &mut state, Some(delegate()), 9);
    assert_eq!(result.unwrap_err(), ContractError::NotFound);
}

#[test]
fn self_grant_is_always_rejected() {
    let mut state = fresh_state();
    let result = set_approval_for_all(ctx_of(holder()), &mut state, holder(), true);
    assert_eq!(result.unwrap_err(), ContractError::InvalidSelfReference);
    assert!(!state.is_approved_for_all(holder(), holder()));
    let result = set_approval_for_all(ctx_of(holder()), &mut state, holder(), false);
    assert_eq!(result.unwrap_err(), ContractError::InvalidSelfReference);
}

#[test]
fn repeated_grant_leaves_a_single_grant() {
    let mut state = fresh_state();
    set_approval_for_all(ctx_of(holder()), &mut state, operator(), true).expect("grant succeeds");
    set_approval_for_all(ctx_of(holder()), &mut state, operator(), true).expect("grant is idempotent");
    assert!(state.is_approved_for_all(holder(), operator()));
    set_approval_for_all(ctx_of(holder()), &mut state, operator(), false).expect("revoke succeeds");
    assert!(
        !state.is_approved_for_all(holder(), operator()),
        "one revocation undoes the grant: granting twice stored nothing extra"
    );
}

#[test]
fn grants_are_scoped_to_the_granting_owner() {
    let mut state = fresh_state();
    set_approval_for_all(ctx_of(holder()), &mut state, operator(), true).expect("grant succeeds");
    assert!(state.is_approved_for_all(holder(), operator()));
    assert!(!state.is_approved_for_all(operator(), holder()));
    assert!(!state.is_approved_for_all(receiver(), operator()));
}

#[test]
fn is_approved_or_owner_covers_all_three_paths() {
    let mut state = minted_state(1);
    set_approval_for_all(ctx_of(holder()), &mut state, operator(), true).expect("grant succeeds");
    approve(ctx_of(holder()), &mut state, Some(delegate()), 1).expect("owner may approve");
    assert_eq!(state.is_approved_or_owner(holder(), 1), Ok(true));
    assert_eq!(state.is_approved_or_owner(delegate(), 1), Ok(true));
    assert_eq!(state.is_approved_or_owner(operator(), 1), Ok(true));
    assert_eq!(state.is_approved_or_owner(stranger(), 1), Ok(false));
    assert_eq!(
        state.is_approved_or_owner(holder(), 2),
        Err(ContractError::NotFound)
    );
}

#[test]
fn callback_acknowledges_success() {
    let mut state = minted_state(1);
    let notifications = mint_callback(
        ctx_of(admin()),
        CallbackContext { success: true },
        &mut state,
    )
    .expect("a successful callback is accepted");
    assert!(notifications.is_empty());
    assert_eq!(state.total_count(), 1);
}

#[test]
fn callback_failure_is_fatal() {
    let mut state = minted_state(1);
    let result = mint_callback(
        ctx_of(admin()),
        CallbackContext { success: false },
        &mut state,
    );
    assert_eq!(result.unwrap_err(), ContractError::ExternalCallFailed);
    assert_eq!(state.total_count(), 1);
}
