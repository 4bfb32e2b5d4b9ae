//! What is sent to the minter and what it answers.

use crate::amount::Amount;
use vstd::prelude::*;

verus! {

/// The arguments of a withdrawal of ckSepoliaETH: the amount to burn, in wei,
/// and the Ethereum address that receives it.
#[derive(Debug, PartialEq, Eq)]
pub struct WithdrawalArg {
    pub amount: Amount,
    pub recipient: String,
}

/// A [`WithdrawalArg`] as plain data.
pub struct WithdrawalArgView {
    pub amount: nat,
    pub recipient: Seq<char>,
}

impl View for WithdrawalArg {
    type V = WithdrawalArgView;

    open spec fn view(&self) -> WithdrawalArgView {
        WithdrawalArgView { amount: self.amount@, recipient: self.recipient@ }
    }
}

/// Why the minter refused a withdrawal.
#[derive(Debug, PartialEq, Eq)]
pub enum WithdrawalError {
    AmountTooLow { min_withdrawal_amount: Amount },
    InsufficientFunds { balance: Amount },
    InsufficientAllowance { allowance: Amount },
    RecipientAddressBlocked { address: String },
    TemporarilyUnavailable(String),
}

} // verus!
