//! Laws that relate several operations of the registry.

use vstd::prelude::*;

use crate::identity::Identity;
use crate::ledger::spec_set_operator;
use crate::ledger::NFTContractState;

verus! {

/// In every well-formed state, every token id up to the high-water mark is
/// minted, so a query for its owner succeeds; and no id above the mark is.
/// Together with the frame clauses of each operation — only a successful
/// token transfer rebinds an owner entry — this makes each minted token's
/// owner defined and stable between transfers.
pub proof fn lemma_minted_iff_within_high_water_mark(state: NFTContractState, token_id: u128)
    requires
        state.well_formed(),
    ensures
        state.spec_minted(token_id) <==> 1 <= token_id <= state.spec_total_count(),
{
}

/// Granting the same operator twice leaves exactly what one granting
/// leaves. Operator grants live in a set keyed by the `(owner, operator)`
/// pair, so a repeated `set_approval_for_all` with `approved` set neither
/// duplicates the grant nor changes anything else.
pub proof fn lemma_operator_grant_idempotent(
    operators: Set<(u128, u128)>,
    owner: Identity,
    operator: Identity,
)
    ensures
        spec_set_operator(
            spec_set_operator(operators, owner, operator, true),
            owner,
            operator,
            true,
        ) == spec_set_operator(operators, owner, operator, true),
{
    assert(spec_set_operator(
        spec_set_operator(operators, owner, operator, true),
        owner,
        operator,
        true,
    ) =~= spec_set_operator(operators, owner, operator, true));
}

/// Revoking is idempotent in the same way: a second revocation of the same
/// operator changes nothing further.
pub proof fn lemma_operator_revoke_idempotent(
    operators: Set<(u128, u128)>,
    owner: Identity,
    operator: Identity,
)
    ensures
        spec_set_operator(
            spec_set_operator(operators, owner, operator, false),
            owner,
            operator,
            false,
        ) == spec_set_operator(operators, owner, operator, false),
{
    assert(spec_set_operator(
        spec_set_operator(operators, owner, operator, false),
        owner,
        operator,
        false,
    ) =~= spec_set_operator(operators, owner, operator, false));
}

} // verus!
