use cketh_bridge::amount::Amount;
use cketh_bridge::canister_id::{
    Asset, Identities, CK_SEPOLIA_ETH_LEDGER, CK_SEPOLIA_ETH_MINTER,
    CK_SEPOLIA_USDC_LEDGER_CANISTER,
};
use cketh_bridge::ck_sepolia_eth::{
    ck_sepolia_eth_balance, ck_sepolia_eth_transfer, ck_sepolia_eth_withdraw,
};
use cketh_bridge::ck_sepolia_usdc::{
    approve_cketh_burning, approve_usdc_burning, check_ckusdc_balance, withdraw_ckusdc_to_ethereum,
};
use cketh_bridge::ledger::{ICRC1TransferArgs, ICRC2ApproveArgs, ICRC2ApproveError};
use cketh_bridge::minter::{WithdrawalArg, WithdrawalError};
use cketh_bridge::principal::{Account, PrincipalId, Subaccount};
use cketh_bridge::withdraw::{
    approved, on_reply, transfer_to_account, withdraw, Call, Caller, OrchestrationError, TransferArgs,
    WithdrawErc20Args, WithdrawalReceipt, WithdrawalReply, WithdrawalRequest, WithdrawalState,
    WithdrawalStep, UNEXPECTED_REPLY,
};

const RECIPIENT: &str = "0x1789F79e95324A47c5Fd6693071188e82E9a3558";

fn ids() -> Identities {
    Identities::resolve().unwrap()
}

fn principal(text: &str) -> PrincipalId {
    PrincipalId::from_slice(candid::Principal::from_text(text).unwrap().as_slice()).unwrap()
}

fn user() -> Caller {
    Caller { principal: principal("2chl6-4hpzw-vqaaa-aaaaa-c"), is_controller: false }
}

fn controller() -> Caller {
    Caller { principal: principal("b7pqa-qqaaa-aaaap-abdva-cai"), is_controller: true }
}

fn request(asset: Asset, amount: u128) -> WithdrawalRequest {
    WithdrawalRequest { asset, amount: Amount::from_u128(amount), recipient: RECIPIENT.to_string() }
}

fn expected_approval(caller: &PrincipalId, amount: u128) -> Call {
    Call::Approve {
        ledger: principal(CK_SEPOLIA_ETH_LEDGER),
        args: ICRC2ApproveArgs {
            from_subaccount: Some(Subaccount::from_principal(caller)),
            spender: Account { owner: principal(CK_SEPOLIA_ETH_MINTER), subaccount: None },
            amount: Amount::from_u128(amount),
            expected_allowance: None,
            expires_at: None,
            fee: None,
            memo: None,
            created_at_time: None,
        },
    }
}

fn expected_erc20_withdrawal(amount: u128) -> Call {
    Call::WithdrawErc20 {
        minter: principal(CK_SEPOLIA_ETH_MINTER),
        args: WithdrawErc20Args {
            ckerc20_ledger_id: principal(CK_SEPOLIA_USDC_LEDGER_CANISTER),
            recipient: RECIPIENT.to_string(),
            amount: Amount::from_u128(amount),
        },
    }
}

/// Runs a withdrawal against scripted replies and returns the calls it made
/// and how it ended, if it did.
fn run(
    mut step: WithdrawalStep,
    replies: Vec<WithdrawalReply>,
) -> (Vec<Call>, Option<Result<WithdrawalReceipt, OrchestrationError>>) {
    let mut calls = Vec::new();
    let mut replies = replies.into_iter();
    loop {
        match step {
            WithdrawalStep::Done(result) => return (calls, Some(result)),
            WithdrawalStep::Call(call, state) => {
                calls.push(call);
                match replies.next() {
                    Some(reply) => step = on_reply(state, reply),
                    None => return (calls, None),
                }
            }
        }
    }
}

fn approve_errors() -> Vec<ICRC2ApproveError> {
    vec![
        ICRC2ApproveError::BadFee { expected_fee: Amount::from_u128(10) },
        ICRC2ApproveError::InsufficientFunds { balance: Amount::from_u128(99) },
        ICRC2ApproveError::AllowanceChanged { current_allowance: Amount::from_u128(1) },
        ICRC2ApproveError::Expired { ledger_time: 7 },
        ICRC2ApproveError::TooOld,
        ICRC2ApproveError::CreatedInFuture { ledger_time: 8 },
        ICRC2ApproveError::Duplicate { duplicate_of: Amount::from_u128(3) },
        ICRC2ApproveError::TemporarilyUnavailable,
        ICRC2ApproveError::GenericError { error_code: Amount::from_u128(5), message: "no".to_string() },
    ]
}

#[test]
fn registry_resolves_the_canister_ids() {
    let ids = ids();
    assert_eq!(ids.minter, principal("jzenf-aiaaa-aaaar-qaa7q-cai"));
    assert_eq!(ids.eth_ledger, principal("apia6-jaaaa-aaaar-qabma-cai"));
    assert_eq!(ids.usdc_ledger, principal("yfumr-cyaaa-aaaar-qaela-cai"));
    assert_eq!(ids.evm_rpc, principal("7hfb6-caaaa-aaaar-qadga-cai"));
    assert_eq!(ids.ledger(Asset::NativeWrappedAsset), ids.eth_ledger);
    assert_eq!(ids.ledger(Asset::FungibleWrappedAsset), ids.usdc_ledger);
}

#[test]
fn fungible_withdrawal_with_refused_approval_fails_without_withdrawal() {
    let step = withdraw(&ids(), request(Asset::FungibleWrappedAsset, 100), &user());
    let refusal = ICRC2ApproveError::InsufficientFunds { balance: Amount::from_u128(99) };
    let (calls, outcome) = run(step, vec![WithdrawalReply::Approved(Err(refusal))]);
    assert_eq!(calls, vec![expected_approval(&user().principal, 100)]);
    assert_eq!(
        outcome,
        Some(Err(OrchestrationError::ApprovalFailed(ICRC2ApproveError::InsufficientFunds {
            balance: Amount::from_u128(99)
        })))
    );
}

#[test]
fn no_approve_failure_is_followed_by_a_withdrawal() {
    for error in approve_errors() {
        let step = withdraw(&ids(), request(Asset::FungibleWrappedAsset, 100), &user());
        let replies = vec![
            WithdrawalReply::Approved(Err(error)),
            WithdrawalReply::Approved(Ok(Amount::from_u128(1))),
            WithdrawalReply::Withdrawn(Ok(Amount::from_u128(2))),
        ];
        let (calls, outcome) = run(step, replies);
        assert_eq!(calls.iter().filter(|c| c.is_withdrawal()).count(), 0);
        assert_eq!(calls.len(), 1);
        assert!(matches!(outcome, Some(Err(OrchestrationError::ApprovalFailed(_)))));
    }
}

#[test]
fn failed_approve_call_is_followed_by_no_withdrawal() {
    let step = withdraw(&ids(), request(Asset::FungibleWrappedAsset, 100), &user());
    let (calls, outcome) = run(step, vec![WithdrawalReply::CallFailed("timeout".to_string())]);
    assert_eq!(calls.len(), 1);
    assert!(!calls[0].is_withdrawal());
    assert_eq!(outcome, Some(Err(OrchestrationError::TransportFailure("timeout".to_string()))));
}

#[test]
fn fungible_withdrawal_approves_then_withdraws() {
    let step = withdraw(&ids(), request(Asset::FungibleWrappedAsset, 100), &user());
    let replies = vec![
        WithdrawalReply::Approved(Ok(Amount::from_u128(41))),
        WithdrawalReply::Withdrawn(Ok(Amount::from_u128(42))),
    ];
    let (calls, outcome) = run(step, replies);
    assert_eq!(calls, vec![expected_approval(&user().principal, 100), expected_erc20_withdrawal(100)]);
    assert_eq!(
        outcome,
        Some(Ok(WithdrawalReceipt {
            asset: Asset::FungibleWrappedAsset,
            block_index: Amount::from_u128(42),
            approval_block_index: Some(Amount::from_u128(41)),
        }))
    );
}

#[test]
fn fungible_withdrawal_waits_for_the_approval() {
    let step = withdraw(&ids(), request(Asset::FungibleWrappedAsset, 100), &user());
    let (calls, outcome) = run(step, vec![]);
    assert_eq!(calls, vec![expected_approval(&user().principal, 100)]);
    assert_eq!(outcome, None);
}

#[test]
fn refused_withdrawal_passes_the_minters_error_on() {
    let step = withdraw(&ids(), request(Asset::FungibleWrappedAsset, 100), &user());
    let replies = vec![
        WithdrawalReply::Approved(Ok(Amount::from_u128(41))),
        WithdrawalReply::Withdrawn(Err(WithdrawalError::RecipientAddressBlocked {
            address: RECIPIENT.to_string(),
        })),
    ];
    let (calls, outcome) = run(step, replies);
    assert_eq!(calls.len(), 2);
    assert_eq!(
        outcome,
        Some(Err(OrchestrationError::WithdrawalFailed(WithdrawalError::RecipientAddressBlocked {
            address: RECIPIENT.to_string()
        })))
    );
}

#[test]
fn native_withdrawal_calls_the_minter_at_once() {
    let step = withdraw(&ids(), request(Asset::NativeWrappedAsset, 30_000_000_000_000_000), &controller());
    let (calls, outcome) = run(step, vec![WithdrawalReply::Withdrawn(Ok(Amount::from_u128(7)))]);
    assert_eq!(
        calls,
        vec![Call::WithdrawEth {
            minter: principal(CK_SEPOLIA_ETH_MINTER),
            args: WithdrawalArg {
                amount: Amount::from_u128(30_000_000_000_000_000),
                recipient: RECIPIENT.to_string()
            },
        }]
    );
    assert_eq!(calls[0].method(), "withdraw_eth");
    assert_eq!(
        outcome,
        Some(Ok(WithdrawalReceipt {
            asset: Asset::NativeWrappedAsset,
            block_index: Amount::from_u128(7),
            approval_block_index: None,
        }))
    );
}

#[test]
fn native_withdrawal_is_for_controllers() {
    let step = withdraw(&ids(), request(Asset::NativeWrappedAsset, 1), &user());
    assert_eq!(step, WithdrawalStep::Done(Err(OrchestrationError::NotAuthorized)));
    let step = ck_sepolia_eth_withdraw(&ids(), Amount::from_u128(1), RECIPIENT.to_string(), &user());
    assert_eq!(step, WithdrawalStep::Done(Err(OrchestrationError::NotAuthorized)));
}

#[test]
fn native_withdrawal_failure_is_passed_on() {
    let step = ck_sepolia_eth_withdraw(&ids(), Amount::from_u128(1), RECIPIENT.to_string(), &controller());
    let refusal = WithdrawalError::AmountTooLow { min_withdrawal_amount: Amount::from_u128(10) };
    let (_, outcome) = run(step, vec![WithdrawalReply::Withdrawn(Err(refusal))]);
    assert_eq!(
        outcome,
        Some(Err(OrchestrationError::WithdrawalFailed(WithdrawalError::AmountTooLow {
            min_withdrawal_amount: Amount::from_u128(10)
        })))
    );
}

#[test]
fn reply_to_another_call_is_a_transport_failure() {
    let state = WithdrawalState::AwaitingWithdrawal { asset: Asset::NativeWrappedAsset, approval: None };
    assert_eq!(
        on_reply(state, WithdrawalReply::Approved(Ok(Amount::from_u128(1)))),
        WithdrawalStep::Done(Err(OrchestrationError::TransportFailure(UNEXPECTED_REPLY.to_string())))
    );
    let step = withdraw(&ids(), request(Asset::FungibleWrappedAsset, 100), &user());
    let (calls, outcome) = run(step, vec![WithdrawalReply::Withdrawn(Ok(Amount::from_u128(1)))]);
    assert_eq!(calls.len(), 1);
    assert_eq!(
        outcome,
        Some(Err(OrchestrationError::TransportFailure("Unexpected reply".to_string())))
    );
}

#[test]
fn withdraw_ckusdc_begins_with_the_approval() {
    let step = withdraw_ckusdc_to_ethereum(&ids(), Amount::from_u128(5), RECIPIENT.to_string(), &user());
    match step {
        WithdrawalStep::Call(call, WithdrawalState::AwaitingApproval { minter, args }) => {
            assert_eq!(call, expected_approval(&user().principal, 5));
            assert_eq!(call.method(), "icrc2_approve");
            assert_eq!(call.canister(), principal(CK_SEPOLIA_ETH_LEDGER));
            assert_eq!(Call::WithdrawErc20 { minter, args }, expected_erc20_withdrawal(5));
        }
        other => panic!("unexpected step {:?}", other),
    }
}

#[test]
fn approvals_come_from_the_callers_own_subaccount() {
    let caller = principal("b7pqa-qqaaa-aaaap-abdva-cai");
    let call = approve_usdc_burning(&ids(), &caller, Amount::from_u128(100));
    assert_eq!(call, expected_approval(&caller, 100));
    assert_eq!(approve_cketh_burning(&ids(), &caller, Amount::from_u128(100)), call);
    match call {
        Call::Approve { args, .. } => assert_eq!(
            args.from_subaccount.unwrap().0,
            [
                10, 0, 0, 0, 0, 1, 224, 8, 234, 1, 1, 0, 0, 0, 0, 0, 0, 0, 0, 0, 0, 0, 0, 0, 0, 0,
                0, 0, 0, 0, 0, 0
            ]
        ),
        other => panic!("unexpected call {:?}", other),
    }
}

#[test]
fn balance_queries_name_the_owner_without_subaccount() {
    let owner = principal("2chl6-4hpzw-vqaaa-aaaaa-c");
    assert_eq!(
        ck_sepolia_eth_balance(&ids(), owner.clone()),
        Call::BalanceOf {
            ledger: principal(CK_SEPOLIA_ETH_LEDGER),
            account: Account { owner: owner.clone(), subaccount: None }
        }
    );
    let call = check_ckusdc_balance(&ids(), owner.clone());
    assert_eq!(call.method(), "icrc1_balance_of");
    assert_eq!(
        call,
        Call::BalanceOf {
            ledger: principal(CK_SEPOLIA_USDC_LEDGER_CANISTER),
            account: Account { owner, subaccount: None }
        }
    );
}

#[test]
fn transfer_leaves_fee_memo_and_time_to_the_ledger() {
    let call = ck_sepolia_eth_transfer(&ids(), "b7pqa-qqaaa-aaaap-abdva-cai", Amount::from_u128(12));
    let expected = Call::Transfer {
        ledger: principal(CK_SEPOLIA_ETH_LEDGER),
        args: ICRC1TransferArgs {
            to: Account { owner: principal("b7pqa-qqaaa-aaaap-abdva-cai"), subaccount: None },
            amount: Amount::from_u128(12),
            fee: None,
            memo: None,
            created_at_time: None,
            from_subaccount: None,
        },
    };
    assert_eq!(call, Some(expected));
    let order = TransferArgs {
        amount: Amount::from_u128(12),
        to_account: Account { owner: principal("b7pqa-qqaaa-aaaap-abdva-cai"), subaccount: None },
    };
    let direct = transfer_to_account(&ids(), Asset::NativeWrappedAsset, order);
    assert_eq!(direct.method(), "icrc1_transfer");
    assert_eq!(Some(direct), call);
}

#[test]
fn transfer_to_no_account_is_not_made() {
    assert_eq!(ck_sepolia_eth_transfer(&ids(), "nobody", Amount::from_u128(12)), None);
    assert_eq!(ck_sepolia_eth_transfer(&ids(), "", Amount::from_u128(12)), None);
}

#[test]
fn approval_on_its_own_gives_the_block_or_the_refusal() {
    assert_eq!(approved(WithdrawalReply::Approved(Ok(Amount::from_u128(9)))), Ok(Amount::from_u128(9)));
    assert_eq!(
        approved(WithdrawalReply::Approved(Err(ICRC2ApproveError::TooOld))),
        Err(OrchestrationError::ApprovalFailed(ICRC2ApproveError::TooOld))
    );
    assert_eq!(
        approved(WithdrawalReply::CallFailed("down".to_string())),
        Err(OrchestrationError::TransportFailure("down".to_string()))
    );
    assert_eq!(
        approved(WithdrawalReply::Withdrawn(Ok(Amount::from_u128(9)))),
        Err(OrchestrationError::TransportFailure("Unexpected reply".to_string()))
    );
}
