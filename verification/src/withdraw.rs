//! Moving assets: the calls that the bridge makes to the ledgers and to the
//! minter, and the order in which a withdrawal makes them.
//!
//! Nothing here performs a call. A function returns the call to make; the
//! caller makes it and hands the reply to [`on_reply`], which returns the
//! next call or the outcome. No balance and no allowance is kept between
//! calls: the ledgers alone know them.

use crate::amount::Amount;
use crate::canister_id::{Asset, Identities, IdentitiesView};
use crate::ledger::{
    ICRC1TransferArgs, ICRC1TransferArgsView, ICRC2ApproveArgs, ICRC2ApproveArgsView,
    ICRC2ApproveError,
};
use crate::minter::{WithdrawalArg, WithdrawalArgView, WithdrawalError};
use crate::principal::{principal_subaccount, Account, AccountView, PrincipalId, Subaccount};
use vstd::prelude::*;

verus! {

/// The arguments of a withdrawal of a ckERC20 token: the ledger of the token,
/// the Ethereum address that receives it, and the amount to burn.
#[derive(Debug, PartialEq, Eq)]
pub struct WithdrawErc20Args {
    pub ckerc20_ledger_id: PrincipalId,
    pub recipient: String,
    pub amount: Amount,
}

/// [`WithdrawErc20Args`] as plain data.
pub struct WithdrawErc20ArgsView {
    pub ckerc20_ledger_id: Seq<u8>,
    pub recipient: Seq<char>,
    pub amount: nat,
}

impl View for WithdrawErc20Args {
    type V = WithdrawErc20ArgsView;

    open spec fn view(&self) -> WithdrawErc20ArgsView {
        WithdrawErc20ArgsView {
            ckerc20_ledger_id: self.ckerc20_ledger_id@,
            recipient: self.recipient@,
            amount: self.amount@,
        }
    }
}

/// What the minter answers to an accepted withdrawal of a ckERC20 token.
#[derive(Debug, PartialEq, Eq)]
pub struct WithdrawErc20Result {
    pub block_index: Amount,
}

/// An amount and the account that is to receive it.
#[derive(Debug, PartialEq, Eq)]
pub struct TransferArgs {
    pub amount: Amount,
    pub to_account: Account,
}

/// A call to make to a ledger or to the minter.
#[derive(Debug, PartialEq, Eq)]
#[allow(inconsistent_fields)]
pub enum Call {
    /// `icrc1_balance_of` on `ledger`.
    BalanceOf { ledger: PrincipalId, account: Account },
    /// `icrc1_transfer` on `ledger`.
    Transfer { ledger: PrincipalId, args: ICRC1TransferArgs },
    /// `icrc2_approve` on `ledger`.
    Approve { ledger: PrincipalId, args: ICRC2ApproveArgs },
    /// `withdraw_eth` on `minter`.
    WithdrawEth { minter: PrincipalId, args: WithdrawalArg },
    /// `withdraw_erc20` on `minter`.
    WithdrawErc20 { minter: PrincipalId, args: WithdrawErc20Args },
}

/// A [`Call`] as plain data.
#[allow(inconsistent_fields)]
pub enum CallView {
    BalanceOf { ledger: Seq<u8>, account: AccountView },
    Transfer { ledger: Seq<u8>, args: ICRC1TransferArgsView },
    Approve { ledger: Seq<u8>, args: ICRC2ApproveArgsView },
    WithdrawEth { minter: Seq<u8>, args: WithdrawalArgView },
    WithdrawErc20 { minter: Seq<u8>, args: WithdrawErc20ArgsView },
}

impl View for Call {
    type V = CallView;

    open spec fn view(&self) -> CallView {
        match self {
            Call::BalanceOf { ledger, account } => CallView::BalanceOf {
                ledger: ledger@,
                account: account@,
            },
            Call::Transfer { ledger, args } => CallView::Transfer { ledger: ledger@, args: args@ },
            Call::Approve { ledger, args } => CallView::Approve { ledger: ledger@, args: args@ },
            Call::WithdrawEth { minter, args } => CallView::WithdrawEth {
                minter: minter@,
                args: args@,
            },
            Call::WithdrawErc20 { minter, args } => CallView::WithdrawErc20 {
                minter: minter@,
                args: args@,
            },
        }
    }
}

impl CallView {
    /// The canister that the call goes to.
    pub open spec fn canister(self) -> Seq<u8> {
        match self {
            CallView::BalanceOf { ledger, .. } => ledger,
            CallView::Transfer { ledger, .. } => ledger,
            CallView::Approve { ledger, .. } => ledger,
            CallView::WithdrawEth { minter, .. } => minter,
            CallView::WithdrawErc20 { minter, .. } => minter,
        }
    }

    /// The method that is called.
    pub open spec fn method(self) -> Seq<char> {
        match self {
            CallView::BalanceOf { .. } => "icrc1_balance_of"@,
            CallView::Transfer { .. } => "icrc1_transfer"@,
            CallView::Approve { .. } => "icrc2_approve"@,
            CallView::WithdrawEth { .. } => "withdraw_eth"@,
            CallView::WithdrawErc20 { .. } => "withdraw_erc20"@,
        }
    }

    /// Whether the call asks the minter to withdraw.
    pub open spec fn is_withdrawal(self) -> bool {
        self is WithdrawEth || self is WithdrawErc20
    }
}

impl Call {
    /// The canister that the call goes to.
    pub fn canister(&self) -> (canister: PrincipalId)
        ensures
            canister@ == self@.canister(),
    {
        match self {
            Call::BalanceOf { ledger, .. } => ledger.clone(),
            Call::Transfer { ledger, .. } => ledger.clone(),
            Call::Approve { ledger, .. } => ledger.clone(),
            Call::WithdrawEth { minter, .. } => minter.clone(),
            Call::WithdrawErc20 { minter, .. } => minter.clone(),
        }
    }

    /// The method that is called.
    pub fn method(&self) -> (method: &'static str)
        ensures
            method@ == self@.method(),
    {
        match self {
            Call::BalanceOf { .. } => "icrc1_balance_of",
            Call::Transfer { .. } => "icrc1_transfer",
            Call::Approve { .. } => "icrc2_approve",
            Call::WithdrawEth { .. } => "withdraw_eth",
            Call::WithdrawErc20 { .. } => "withdraw_erc20",
        }
    }

    /// Whether the call asks the minter to withdraw.
    pub fn is_withdrawal(&self) -> (yes: bool)
        ensures
            yes == self@.is_withdrawal(),
    {
        match self {
            Call::WithdrawEth { .. } => true,
            Call::WithdrawErc20 { .. } => true,
            _ => false,
        }
    }
}

/// The query for the balance that `owner` holds of `asset`: the owner's
/// account without a subaccount, on the asset's ledger.
pub open spec fn balance_query(ids: IdentitiesView, asset: Asset, owner: Seq<u8>) -> CallView {
    CallView::BalanceOf {
        ledger: ids.ledger(asset),
        account: AccountView { owner, subaccount: None },
    }
}

/// The transfer of `amount` of `asset` to the account `to`. Fee, memo and
/// time are left to the ledger, and the amount leaves the caller's account
/// without a subaccount.
pub open spec fn transfer_order(
    ids: IdentitiesView,
    asset: Asset,
    to: AccountView,
    amount: nat,
) -> CallView {
    CallView::Transfer {
        ledger: ids.ledger(asset),
        args: ICRC1TransferArgsView {
            to,
            amount,
            fee: None,
            memo: None,
            created_at_time: None,
            from_subaccount: None,
        },
    }
}

/// The approval by which `caller` lets the minter move `amount`: given on the
/// ckSepoliaETH ledger, from the subaccount that stands for `caller`, to the
/// minter's account without a subaccount, with nothing else set.
pub open spec fn approval(ids: IdentitiesView, caller: Seq<u8>, amount: nat) -> CallView {
    CallView::Approve {
        ledger: ids.eth_ledger,
        args: ICRC2ApproveArgsView {
            from_subaccount: Some(principal_subaccount(caller)),
            spender: AccountView { owner: ids.minter, subaccount: None },
            amount,
            expected_allowance: None,
            expires_at: None,
            fee: None,
            memo: None,
            created_at_time: None,
        },
    }
}

/// The withdrawal of `amount` of ckSepoliaETH to `recipient`.
pub open spec fn native_withdrawal(
    ids: IdentitiesView,
    amount: nat,
    recipient: Seq<char>,
) -> CallView {
    CallView::WithdrawEth { minter: ids.minter, args: WithdrawalArgView { amount, recipient } }
}

/// The withdrawal of `amount` of ckSepoliaUSDC to `recipient`.
pub open spec fn fungible_withdrawal(
    ids: IdentitiesView,
    amount: nat,
    recipient: Seq<char>,
) -> CallView {
    CallView::WithdrawErc20 {
        minter: ids.minter,
        args: WithdrawErc20ArgsView { ckerc20_ledger_id: ids.usdc_ledger, recipient, amount },
    }
}

/// The query for the balance that `owner` holds of `asset`. The balance is
/// read from the ledger each time it is needed: none is kept here.
pub fn balance_of(ids: &Identities, asset: Asset, owner: PrincipalId) -> (call: Call)
    ensures
        call@ == balance_query(ids@, asset, owner@),
{
    Call::BalanceOf { ledger: ids.ledger(asset), account: Account::new(owner, None) }
}

/// The transfer of `amount` of `asset` to the account that `to` denotes, or
/// `None` where `to` denotes no account.
pub fn transfer(ids: &Identities, asset: Asset, to: &str, amount: Amount) -> (call: Option<Call>)
    ensures
        match crate::principal::account_of_text(to@) {
            Some(account) => call matches Some(c) && c@ == transfer_order(
                ids@,
                asset,
                account,
                amount@,
            ),
            None => call is None,
        },
{
    match Account::from_text(to) {
        Some(to_account) => Some(
            transfer_to_account(ids, asset, TransferArgs { amount, to_account }),
        ),
        None => None,
    }
}

/// The transfer of what `order` names to the account it names.
pub fn transfer_to_account(ids: &Identities, asset: Asset, order: TransferArgs) -> (call: Call)
    ensures
        call@ == transfer_order(ids@, asset, order.to_account@, order.amount@),
{
    Call::Transfer {
        ledger: ids.ledger(asset),
        args: ICRC1TransferArgs {
            to: order.to_account,
            amount: order.amount,
            fee: None,
            memo: None,
            created_at_time: None,
            from_subaccount: None,
        },
    }
}

/// The approval by which `caller` lets the minter move `amount`. The
/// subaccount is derived from `caller`, the identity that makes the request:
/// nobody can approve for somebody else.
pub fn approve(ids: &Identities, caller: &PrincipalId, amount: Amount) -> (call: Call)
    ensures
        call@ == approval(ids@, caller@, amount@),
{
    let from_subaccount = Subaccount::from_principal(caller);
    let spender = Account::new(ids.minter.clone(), None);
    Call::Approve {
        ledger: ids.eth_ledger.clone(),
        args: ICRC2ApproveArgs {
            from_subaccount: Some(from_subaccount),
            spender,
            amount,
            expected_allowance: None,
            expires_at: None,
            fee: None,
            memo: None,
            created_at_time: None,
        },
    }
}

/// What is to be withdrawn, and to which Ethereum address.
#[derive(Debug, PartialEq, Eq)]
pub struct WithdrawalRequest {
    pub asset: Asset,
    pub amount: Amount,
    pub recipient: String,
}

/// A [`WithdrawalRequest`] as plain data.
pub struct WithdrawalRequestView {
    pub asset: Asset,
    pub amount: nat,
    pub recipient: Seq<char>,
}

impl View for WithdrawalRequest {
    type V = WithdrawalRequestView;

    open spec fn view(&self) -> WithdrawalRequestView {
        WithdrawalRequestView {
            asset: self.asset,
            amount: self.amount@,
            recipient: self.recipient@,
        }
    }
}

/// Who asks: the calling identity, and whether it is a controller of the
/// canister.
#[derive(Debug, PartialEq, Eq)]
pub struct Caller {
    pub principal: PrincipalId,
    pub is_controller: bool,
}

/// A [`Caller`] as plain data.
pub struct CallerView {
    pub principal: Seq<u8>,
    pub is_controller: bool,
}

impl View for Caller {
    type V = CallerView;

    open spec fn view(&self) -> CallerView {
        CallerView { principal: self.principal@, is_controller: self.is_controller }
    }
}

/// What a finished withdrawal leaves: the block in which the minter burned
/// the amount and, where an approval came first, the block of the approval.
#[derive(Debug, PartialEq, Eq)]
pub struct WithdrawalReceipt {
    pub asset: Asset,
    pub block_index: Amount,
    pub approval_block_index: Option<Amount>,
}

/// A [`WithdrawalReceipt`] as plain data.
pub struct WithdrawalReceiptView {
    pub asset: Asset,
    pub block_index: nat,
    pub approval_block_index: Option<nat>,
}

impl View for WithdrawalReceipt {
    type V = WithdrawalReceiptView;

    open spec fn view(&self) -> WithdrawalReceiptView {
        WithdrawalReceiptView {
            asset: self.asset,
            block_index: self.block_index@,
            approval_block_index: crate::ledger::optional_amount(self.approval_block_index),
        }
    }
}

/// Why a withdrawal did not come about.
#[derive(Debug, PartialEq, Eq)]
pub enum OrchestrationError {
    /// The caller may not withdraw from the canister's own balance.
    NotAuthorized,
    /// The ledger refused the approval; its error is passed on as it came.
    ApprovalFailed(ICRC2ApproveError),
    /// The minter refused the withdrawal; its error is passed on as it came.
    WithdrawalFailed(WithdrawalError),
    /// A call failed, or the reply was not the reply to the call made.
    TransportFailure(String),
}

/// An [`OrchestrationError`] with its text as plain data. The errors of the
/// ledger and of the minter are kept as they are.
pub enum OrchestrationErrorView {
    NotAuthorized,
    ApprovalFailed(ICRC2ApproveError),
    WithdrawalFailed(WithdrawalError),
    TransportFailure(Seq<char>),
}

impl View for OrchestrationError {
    type V = OrchestrationErrorView;

    open spec fn view(&self) -> OrchestrationErrorView {
        match self {
            OrchestrationError::NotAuthorized => OrchestrationErrorView::NotAuthorized,
            OrchestrationError::ApprovalFailed(e) => OrchestrationErrorView::ApprovalFailed(*e),
            OrchestrationError::WithdrawalFailed(e) => OrchestrationErrorView::WithdrawalFailed(*e),
            OrchestrationError::TransportFailure(r) => OrchestrationErrorView::TransportFailure(r@),
        }
    }
}

/// What a withdrawal waits for.
#[derive(Debug, PartialEq, Eq)]
pub enum WithdrawalState {
    /// The approval was asked for; `minter` and `args` are the withdrawal to
    /// ask for once it is given.
    AwaitingApproval { minter: PrincipalId, args: WithdrawErc20Args },
    /// The withdrawal was asked for.
    AwaitingWithdrawal { asset: Asset, approval: Option<Amount> },
}

/// A [`WithdrawalState`] as plain data.
pub enum WithdrawalStateView {
    AwaitingApproval { minter: Seq<u8>, args: WithdrawErc20ArgsView },
    AwaitingWithdrawal { asset: Asset, approval: Option<nat> },
}

impl View for WithdrawalState {
    type V = WithdrawalStateView;

    open spec fn view(&self) -> WithdrawalStateView {
        match self {
            WithdrawalState::AwaitingApproval { minter, args } =>
                WithdrawalStateView::AwaitingApproval { minter: minter@, args: args@ },
            WithdrawalState::AwaitingWithdrawal { asset, approval } =>
                WithdrawalStateView::AwaitingWithdrawal {
                asset: *asset,
                approval: crate::ledger::optional_amount(*approval),
            },
        }
    }
}

/// What came back from a call.
#[derive(Debug, PartialEq, Eq)]
pub enum WithdrawalReply {
    /// The ledger's answer to an approval: the block of the approval, or its
    /// refusal.
    Approved(Result<Amount, ICRC2ApproveError>),
    /// The minter's answer to a withdrawal: the block of the burn, or its
    /// refusal.
    Withdrawn(Result<Amount, WithdrawalError>),
    /// The call did not get through; the text says why.
    CallFailed(String),
}

/// A [`WithdrawalReply`] with its numbers and text as plain data.
pub enum WithdrawalReplyView {
    Approved(Result<nat, ICRC2ApproveError>),
    Withdrawn(Result<nat, WithdrawalError>),
    CallFailed(Seq<char>),
}

impl View for WithdrawalReply {
    type V = WithdrawalReplyView;

    open spec fn view(&self) -> WithdrawalReplyView {
        match self {
            WithdrawalReply::Approved(Ok(index)) => WithdrawalReplyView::Approved(Ok(index@)),
            WithdrawalReply::Approved(Err(e)) => WithdrawalReplyView::Approved(Err(*e)),
            WithdrawalReply::Withdrawn(Ok(index)) => WithdrawalReplyView::Withdrawn(Ok(index@)),
            WithdrawalReply::Withdrawn(Err(e)) => WithdrawalReplyView::Withdrawn(Err(*e)),
            WithdrawalReply::CallFailed(reason) => WithdrawalReplyView::CallFailed(reason@),
        }
    }
}

/// The next thing to do in a withdrawal.
#[derive(Debug, PartialEq, Eq)]
pub enum WithdrawalStep {
    /// Make the call, then hand its reply and the state to [`on_reply`].
    Call(Call, WithdrawalState),
    /// The withdrawal is over.
    Done(Result<WithdrawalReceipt, OrchestrationError>),
}

/// A [`WithdrawalStep`] as plain data.
pub enum WithdrawalStepView {
    Call(CallView, WithdrawalStateView),
    Done(Result<WithdrawalReceiptView, OrchestrationErrorView>),
}

impl View for WithdrawalStep {
    type V = WithdrawalStepView;

    open spec fn view(&self) -> WithdrawalStepView {
        match self {
            WithdrawalStep::Call(call, state) => WithdrawalStepView::Call(call@, state@),
            WithdrawalStep::Done(Ok(receipt)) => WithdrawalStepView::Done(Ok(receipt@)),
            WithdrawalStep::Done(Err(e)) => WithdrawalStepView::Done(Err(e@)),
        }
    }
}

/// The text of the failure that reports a reply to a call that was not made.
pub const UNEXPECTED_REPLY: &'static str = "Unexpected reply";

/// How a withdrawal begins.
///
/// ckSepoliaETH is withdrawn from the canister's own balance, so only a
/// controller may ask, and the minter is called at once. ckSepoliaUSDC is
/// withdrawn for the caller, by anyone: first the approval from the caller's
/// own subaccount, and the withdrawal only once the approval is given.
pub open spec fn start(
    ids: IdentitiesView,
    request: WithdrawalRequestView,
    caller: CallerView,
) -> WithdrawalStepView {
    match request.asset {
        Asset::NativeWrappedAsset => if caller.is_controller {
            WithdrawalStepView::Call(
                native_withdrawal(ids, request.amount, request.recipient),
                WithdrawalStateView::AwaitingWithdrawal {
                    asset: Asset::NativeWrappedAsset,
                    approval: None,
                },
            )
        } else {
            WithdrawalStepView::Done(Err(OrchestrationErrorView::NotAuthorized))
        },
        Asset::FungibleWrappedAsset => WithdrawalStepView::Call(
            approval(ids, caller.principal, request.amount),
            WithdrawalStateView::AwaitingApproval {
                minter: ids.minter,
                args: WithdrawErc20ArgsView {
                    ckerc20_ledger_id: ids.usdc_ledger,
                    recipient: request.recipient,
                    amount: request.amount,
                },
            },
        ),
    }
}

/// How a withdrawal goes on after a reply.
///
/// A given approval is followed by the withdrawal that was waiting for it. A
/// refused approval ends the withdrawal with the ledger's error, a refused
/// withdrawal with the minter's, a failed call with its reason; nothing is
/// tried again. An accepted withdrawal ends it with the receipt.
pub open spec fn next(state: WithdrawalStateView, reply: WithdrawalReplyView) -> WithdrawalStepView {
    match (state, reply) {
        (
            WithdrawalStateView::AwaitingApproval { minter, args },
            WithdrawalReplyView::Approved(Ok(index)),
        ) => WithdrawalStepView::Call(
            CallView::WithdrawErc20 { minter, args },
            WithdrawalStateView::AwaitingWithdrawal {
                asset: Asset::FungibleWrappedAsset,
                approval: Some(index),
            },
        ),
        (
            WithdrawalStateView::AwaitingApproval { .. },
            WithdrawalReplyView::Approved(Err(e)),
        ) => WithdrawalStepView::Done(Err(OrchestrationErrorView::ApprovalFailed(e))),
        (
            WithdrawalStateView::AwaitingWithdrawal { asset, approval },
            WithdrawalReplyView::Withdrawn(Ok(index)),
        ) => WithdrawalStepView::Done(
            Ok(WithdrawalReceiptView { asset, block_index: index, approval_block_index: approval }),
        ),
        (
            WithdrawalStateView::AwaitingWithdrawal { .. },
            WithdrawalReplyView::Withdrawn(Err(e)),
        ) => WithdrawalStepView::Done(Err(OrchestrationErrorView::WithdrawalFailed(e))),
        (_, WithdrawalReplyView::CallFailed(reason)) => WithdrawalStepView::Done(
            Err(OrchestrationErrorView::TransportFailure(reason)),
        ),
        _ => WithdrawalStepView::Done(
            Err(OrchestrationErrorView::TransportFailure(UNEXPECTED_REPLY@)),
        ),
    }
}

/// Begins a withdrawal: returns its first call, or its end where nothing may
/// be called.
pub fn withdraw(ids: &Identities, request: WithdrawalRequest, caller: &Caller) -> (step:
    WithdrawalStep)
    ensures
        step@ == start(ids@, request@, caller@),
{
    match request.asset {
        Asset::NativeWrappedAsset => {
            if !caller.is_controller {
                return WithdrawalStep::Done(Err(OrchestrationError::NotAuthorized));
            }
            WithdrawalStep::Call(
                Call::WithdrawEth {
                    minter: ids.minter.clone(),
                    args: WithdrawalArg { amount: request.amount, recipient: request.recipient },
                },
                WithdrawalState::AwaitingWithdrawal {
                    asset: Asset::NativeWrappedAsset,
                    approval: None,
                },
            )
        },
        Asset::FungibleWrappedAsset => {
            let approval = approve(ids, &caller.principal, request.amount.clone());
            WithdrawalStep::Call(
                approval,
                WithdrawalState::AwaitingApproval {
                    minter: ids.minter.clone(),
                    args: WithdrawErc20Args {
                        ckerc20_ledger_id: ids.usdc_ledger.clone(),
                        recipient: request.recipient,
                        amount: request.amount,
                    },
                },
            )
        },
    }
}

/// Goes on with a withdrawal after the reply to its last call: returns the
/// next call, or the end.
pub fn on_reply(state: WithdrawalState, reply: WithdrawalReply) -> (step: WithdrawalStep)
    ensures
        step@ == next(state@, reply@),
{
    match (state, reply) {
        (
            WithdrawalState::AwaitingApproval { minter, args },
            WithdrawalReply::Approved(Ok(index)),
        ) => WithdrawalStep::Call(
            Call::WithdrawErc20 { minter, args },
            WithdrawalState::AwaitingWithdrawal {
                asset: Asset::FungibleWrappedAsset,
                approval: Some(index),
            },
        ),
        (WithdrawalState::AwaitingApproval { .. }, WithdrawalReply::Approved(Err(e))) => {
            WithdrawalStep::Done(Err(OrchestrationError::ApprovalFailed(e)))
        },
        (
            WithdrawalState::AwaitingWithdrawal { asset, approval },
            WithdrawalReply::Withdrawn(Ok(index)),
        ) => WithdrawalStep::Done(
            Ok(WithdrawalReceipt { asset, block_index: index, approval_block_index: approval }),
        ),
        (WithdrawalState::AwaitingWithdrawal { .. }, WithdrawalReply::Withdrawn(Err(e))) => {
            WithdrawalStep::Done(Err(OrchestrationError::WithdrawalFailed(e)))
        },
        (_, WithdrawalReply::CallFailed(reason)) => WithdrawalStep::Done(
            Err(OrchestrationError::TransportFailure(reason)),
        ),
        _ => WithdrawalStep::Done(
            Err(OrchestrationError::TransportFailure(UNEXPECTED_REPLY.to_owned())),
        ),
    }
}

/// What an approval that was asked for on its own came to: the block of the
/// approval, or why there is none.
pub open spec fn approval_result(reply: WithdrawalReplyView) -> Result<
    nat,
    OrchestrationErrorView,
> {
    match reply {
        WithdrawalReplyView::Approved(Ok(index)) => Ok(index),
        WithdrawalReplyView::Approved(Err(e)) => Err(OrchestrationErrorView::ApprovalFailed(e)),
        WithdrawalReplyView::CallFailed(reason) => Err(
            OrchestrationErrorView::TransportFailure(reason),
        ),
        WithdrawalReplyView::Withdrawn(_) => Err(
            OrchestrationErrorView::TransportFailure(UNEXPECTED_REPLY@),
        ),
    }
}

/// The view of a block index or an error.
pub open spec fn index_or_error(result: Result<Amount, OrchestrationError>) -> Result<
    nat,
    OrchestrationErrorView,
> {
    match result {
        Ok(index) => Ok(index@),
        Err(e) => Err(e@),
    }
}

/// Reads the reply to an approval that was asked for on its own, with no
/// withdrawal waiting for it.
pub fn approved(reply: WithdrawalReply) -> (result: Result<Amount, OrchestrationError>)
    ensures
        index_or_error(result) == approval_result(reply@),
{
    match reply {
        WithdrawalReply::Approved(Ok(index)) => Ok(index),
        WithdrawalReply::Approved(Err(e)) => Err(OrchestrationError::ApprovalFailed(e)),
        WithdrawalReply::CallFailed(reason) => Err(OrchestrationError::TransportFailure(reason)),
        WithdrawalReply::Withdrawn(_) => Err(
            OrchestrationError::TransportFailure(UNEXPECTED_REPLY.to_owned()),
        ),
    }
}

/// The calls that are made, in order, by a withdrawal that stands at `step`
/// and then receives `replies`, one for each call it makes.
pub open spec fn calls_made(
    step: WithdrawalStepView,
    replies: Seq<WithdrawalReplyView>,
) -> Seq<CallView>
    decreases replies.len(),
{
    match step {
        WithdrawalStepView::Done(_) => Seq::empty(),
        WithdrawalStepView::Call(call, state) => if replies.len() == 0 {
            seq![call]
        } else {
            seq![call] + calls_made(next(state, replies.first()), replies.drop_first())
        },
    }
}

/// How a withdrawal that stands at `step` and then receives `replies` ends,
/// if the replies take it to its end.
pub open spec fn outcome(
    step: WithdrawalStepView,
    replies: Seq<WithdrawalReplyView>,
) -> Option<Result<WithdrawalReceiptView, OrchestrationErrorView>>
    decreases replies.len(),
{
    match step {
        WithdrawalStepView::Done(result) => Some(result),
        WithdrawalStepView::Call(_, state) => if replies.len() == 0 {
            None
        } else {
            outcome(next(state, replies.first()), replies.drop_first())
        },
    }
}

/// A withdrawal of ckSepoliaUSDC whose approval is not given makes no call to
/// the minter: whatever replies follow, the approval is the only call made.
/// Where the ledger refused the approval, the withdrawal ends with the
/// ledger's error.
pub proof fn no_withdrawal_without_approval(
    ids: IdentitiesView,
    request: WithdrawalRequestView,
    caller: CallerView,
    replies: Seq<WithdrawalReplyView>,
)
    requires
        request.asset == Asset::FungibleWrappedAsset,
        replies.len() >= 1,
        !(replies[0] matches WithdrawalReplyView::Approved(Ok(_))),
    ensures
        calls_made(start(ids, request, caller), replies) == seq![
            approval(ids, caller.principal, request.amount),
        ],
        forall|i: int|
            0 <= i < calls_made(start(ids, request, caller), replies).len() ==> !(
            #[trigger] calls_made(start(ids, request, caller), replies)[i]).is_withdrawal(),
        replies[0] matches WithdrawalReplyView::Approved(Err(e)) ==> outcome(
            start(ids, request, caller),
            replies,
        ) == Some(
            Err::<WithdrawalReceiptView, OrchestrationErrorView>(
                OrchestrationErrorView::ApprovalFailed(e),
            ),
        ),
{
    let first = start(ids, request, caller);
    let state = first->Call_1;
    let second = next(state, replies.first());
    assert(second is Done);
    assert(calls_made(second, replies.drop_first()) =~= Seq::empty());
    assert(calls_made(first, replies) =~= seq![approval(ids, caller.principal, request.amount)]);
    assert(outcome(first, replies) == outcome(second, replies.drop_first()));
    assert(outcome(second, replies.drop_first()) == Some(second->Done_0));
}

/// A withdrawal of ckSepoliaUSDC makes at most two calls: the approval and,
/// only after the ledger gave it, the one withdrawal that was asked for.
pub proof fn withdrawal_follows_approval(
    ids: IdentitiesView,
    request: WithdrawalRequestView,
    caller: CallerView,
    replies: Seq<WithdrawalReplyView>,
)
    requires
        request.asset == Asset::FungibleWrappedAsset,
    ensures
        calls_made(start(ids, request, caller), replies).len() <= 2,
        calls_made(start(ids, request, caller), replies)[0] == approval(
            ids,
            caller.principal,
            request.amount,
        ),
        calls_made(start(ids, request, caller), replies).len() == 2 ==> {
            &&& replies[0] is Approved
            &&& replies[0]->Approved_0 is Ok
            &&& calls_made(start(ids, request, caller), replies)[1] == fungible_withdrawal(
                ids,
                request.amount,
                request.recipient,
            )
        },
{
    let first = start(ids, request, caller);
    let state = first->Call_1;
    if replies.len() > 0 {
        let second = next(state, replies.first());
        let rest = replies.drop_first();
        match second {
            WithdrawalStepView::Done(_) => {
                assert(calls_made(second, rest) =~= Seq::empty());
            },
            WithdrawalStepView::Call(call, waiting) => {
                if rest.len() > 0 {
                    let third = next(waiting, rest.first());
                    assert(third is Done);
                    assert(calls_made(third, rest.drop_first()) =~= Seq::empty());
                }
                assert(calls_made(second, rest) =~= seq![call]);
            },
        }
    }
}

/// A withdrawal of ckSepoliaETH is begun for controllers alone: for anyone
/// else it ends at once, and no call is made.
pub proof fn pooled_withdrawal_is_for_controllers(
    ids: IdentitiesView,
    request: WithdrawalRequestView,
    caller: CallerView,
    replies: Seq<WithdrawalReplyView>,
)
    requires
        request.asset == Asset::NativeWrappedAsset,
        !caller.is_controller,
    ensures
        calls_made(start(ids, request, caller), replies) == Seq::<CallView>::empty(),
        outcome(start(ids, request, caller), replies) == Some(
            Err::<WithdrawalReceiptView, OrchestrationErrorView>(
                OrchestrationErrorView::NotAuthorized,
            ),
        ),
{
}

} // verus!
