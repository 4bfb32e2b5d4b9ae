//! What is sent to an ICRC ledger and what it answers.

use crate::amount::Amount;
use crate::principal::{optional_subaccount, Account, AccountView, Subaccount};
use vstd::prelude::*;

verus! {

/// The view of an optional amount.
pub open spec fn optional_amount(amount: Option<Amount>) -> Option<nat> {
    match amount {
        Some(a) => Some(a@),
        None => None,
    }
}

/// The view of an optional byte string.
pub open spec fn optional_memo(memo: Option<Vec<u8>>) -> Option<Seq<u8>> {
    match memo {
        Some(m) => Some(m@),
        None => None,
    }
}

/// The arguments of a transfer on a ledger.
#[derive(Debug, PartialEq, Eq)]
pub struct ICRC1TransferArgs {
    pub to: Account,
    pub amount: Amount,
    pub fee: Option<Amount>,
    pub memo: Option<Vec<u8>>,
    pub created_at_time: Option<u64>,
    pub from_subaccount: Option<Subaccount>,
}

/// [`ICRC1TransferArgs`] as plain data.
pub struct ICRC1TransferArgsView {
    pub to: AccountView,
    pub amount: nat,
    pub fee: Option<nat>,
    pub memo: Option<Seq<u8>>,
    pub created_at_time: Option<u64>,
    pub from_subaccount: Option<Seq<u8>>,
}

impl View for ICRC1TransferArgs {
    type V = ICRC1TransferArgsView;

    open spec fn view(&self) -> ICRC1TransferArgsView {
        ICRC1TransferArgsView {
            to: self.to@,
            amount: self.amount@,
            fee: optional_amount(self.fee),
            memo: optional_memo(self.memo),
            created_at_time: self.created_at_time,
            from_subaccount: optional_subaccount(self.from_subaccount),
        }
    }
}

/// The arguments of an approval on a ledger: the owner's subaccount lets
/// `spender` move up to `amount`.
#[derive(Debug, PartialEq, Eq)]
pub struct ICRC2ApproveArgs {
    pub from_subaccount: Option<Subaccount>,
    pub spender: Account,
    pub amount: Amount,
    pub expected_allowance: Option<Amount>,
    pub expires_at: Option<u64>,
    pub fee: Option<Amount>,
    pub memo: Option<Vec<u8>>,
    pub created_at_time: Option<u64>,
}

/// [`ICRC2ApproveArgs`] as plain data.
pub struct ICRC2ApproveArgsView {
    pub from_subaccount: Option<Seq<u8>>,
    pub spender: AccountView,
    pub amount: nat,
    pub expected_allowance: Option<nat>,
    pub expires_at: Option<u64>,
    pub fee: Option<nat>,
    pub memo: Option<Seq<u8>>,
    pub created_at_time: Option<u64>,
}

impl View for ICRC2ApproveArgs {
    type V = ICRC2ApproveArgsView;

    open spec fn view(&self) -> ICRC2ApproveArgsView {
        ICRC2ApproveArgsView {
            from_subaccount: optional_subaccount(self.from_subaccount),
            spender: self.spender@,
            amount: self.amount@,
            expected_allowance: optional_amount(self.expected_allowance),
            expires_at: self.expires_at,
            fee: optional_amount(self.fee),
            memo: optional_memo(self.memo),
            created_at_time: self.created_at_time,
        }
    }
}

/// Why a ledger refused an approval.
#[derive(Debug, PartialEq, Eq)]
pub enum ICRC2ApproveError {
    BadFee { expected_fee: Amount },
    InsufficientFunds { balance: Amount },
    AllowanceChanged { current_allowance: Amount },
    Expired { ledger_time: u64 },
    TooOld,
    CreatedInFuture { ledger_time: u64 },
    Duplicate { duplicate_of: Amount },
    TemporarilyUnavailable,
    GenericError { error_code: Amount, message: String },
}

} // verus!
