//! The operations on ckSepoliaETH.

use crate::amount::Amount;
use crate::canister_id::{Asset, Identities};
use crate::principal::{account_of_text, PrincipalId};
use crate::strings::texts;
use crate::transaction_hash::HashRegistry;
use crate::withdraw::{
    balance_of, balance_query, start, transfer, transfer_order, withdraw, Call, Caller,
    WithdrawalRequest, WithdrawalRequestView, WithdrawalStep,
};
use vstd::prelude::*;

verus! {

/// The query for the balance of ckSepoliaETH that `principal_id` holds.
pub fn ck_sepolia_eth_balance(ids: &Identities, principal_id: PrincipalId) -> (call: Call)
    ensures
        call@ == balance_query(ids@, Asset::NativeWrappedAsset, principal_id@),
{
    balance_of(ids, Asset::NativeWrappedAsset, principal_id)
}

/// The transfer of `amount` of ckSepoliaETH to the account that `to` denotes,
/// or `None` where it denotes none.
pub fn ck_sepolia_eth_transfer(ids: &Identities, to: &str, amount: Amount) -> (call: Option<Call>)
    ensures
        match account_of_text(to@) {
            Some(account) => call matches Some(c) && c@ == transfer_order(
                ids@,
                Asset::NativeWrappedAsset,
                account,
                amount@,
            ),
            None => call is None,
        },
{
    transfer(ids, Asset::NativeWrappedAsset, to, amount)
}

/// Begins the withdrawal of `amount` of the canister's ckSepoliaETH to the
/// Ethereum address `recipient`. Only a controller is served.
pub fn ck_sepolia_eth_withdraw(
    ids: &Identities,
    amount: Amount,
    recipient: String,
    caller: &Caller,
) -> (step: WithdrawalStep)
    ensures
        step@ == start(
            ids@,
            WithdrawalRequestView {
                asset: Asset::NativeWrappedAsset,
                amount: amount@,
                recipient: recipient@,
            },
            caller@,
        ),
{
    withdraw(ids, WithdrawalRequest { asset: Asset::NativeWrappedAsset, amount, recipient }, caller)
}

/// Records a transaction hash for ckSepoliaETH.
pub fn store_ck_sepolia_eth_hash(registry: &mut HashRegistry, hash: String)
    ensures
        final(registry)@ == old(registry)@.record(Asset::NativeWrappedAsset, hash@),
{
    registry.record(Asset::NativeWrappedAsset, hash);
}

/// All transaction hashes recorded for ckSepoliaETH, oldest first.
pub fn get_ck_sepolia_eth_hashes(registry: &HashRegistry) -> (hashes: Vec<String>)
    ensures
        texts(hashes@) == registry@.list(Asset::NativeWrappedAsset),
{
    registry.list(Asset::NativeWrappedAsset)
}

} // verus!
