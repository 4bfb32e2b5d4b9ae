//! The operations on ckSepoliaUSDC.

use crate::amount::Amount;
use crate::canister_id::{Asset, Identities};
use crate::principal::PrincipalId;
use crate::strings::texts;
use crate::transaction_hash::HashRegistry;
use crate::withdraw::{
    approval, approve, balance_of, balance_query, start, withdraw, Call, Caller,
    WithdrawalRequest, WithdrawalRequestView, WithdrawalStep,
};
use vstd::prelude::*;

verus! {

/// The query for the balance of ckSepoliaUSDC that `principal_id` holds.
pub fn check_ckusdc_balance(ids: &Identities, principal_id: PrincipalId) -> (call: Call)
    ensures
        call@ == balance_query(ids@, Asset::FungibleWrappedAsset, principal_id@),
{
    balance_of(ids, Asset::FungibleWrappedAsset, principal_id)
}

/// The approval by which `caller` lets the minter burn `amount` of its
/// ckSepoliaETH.
pub fn approve_cketh_burning(ids: &Identities, caller: &PrincipalId, amount: Amount) -> (call:
    Call)
    ensures
        call@ == approval(ids@, caller@, amount@),
{
    approve(ids, caller, amount)
}

/// The approval that comes before a withdrawal of ckSepoliaUSDC: `caller`
/// lets the minter move `amount`.
pub fn approve_usdc_burning(ids: &Identities, caller: &PrincipalId, amount: Amount) -> (call: Call)
    ensures
        call@ == approval(ids@, caller@, amount@),
{
    approve(ids, caller, amount)
}

/// Begins the withdrawal of `amount` of the caller's ckSepoliaUSDC to the
/// Ethereum address `eth_address`: the approval comes first, and the minter
/// is only asked once the ledger has given it.
pub fn withdraw_ckusdc_to_ethereum(
    ids: &Identities,
    amount: Amount,
    eth_address: String,
    caller: &Caller,
) -> (step: WithdrawalStep)
    ensures
        step@ == start(
            ids@,
            WithdrawalRequestView {
                asset: Asset::FungibleWrappedAsset,
                amount: amount@,
                recipient: eth_address@,
            },
            caller@,
        ),
{
    withdraw(
        ids,
        WithdrawalRequest { asset: Asset::FungibleWrappedAsset, amount, recipient: eth_address },
        caller,
    )
}

/// Records a transaction hash for ckSepoliaUSDC.
pub fn store_ck_sepolia_usdc_hash(registry: &mut HashRegistry, hash: String)
    ensures
        final(registry)@ == old(registry)@.record(Asset::FungibleWrappedAsset, hash@),
{
    registry.record(Asset::FungibleWrappedAsset, hash);
}

/// All transaction hashes recorded for ckSepoliaUSDC, oldest first.
pub fn get_ck_sepolia_usdc_hashes(registry: &HashRegistry) -> (hashes: Vec<String>)
    ensures
        texts(hashes@) == registry@.list(Asset::FungibleWrappedAsset),
{
    registry.list(Asset::FungibleWrappedAsset)
}

} // verus!
