//! Transaction receipts and their verification.
//!
//! A receipt is fetched from several independent providers through the EVM RPC
//! canister. This module says which request is sent, how the reply is
//! classified, and which receipts count as a verified deposit.

use crate::amount::{display_text, lemma_display_one, Amount};
use crate::canister_id::{Asset, CK_SEPOLIA_ETH_MINTER_ADDRESS};
use crate::strings::texts;
use vstd::prelude::*;
use vstd::string::StringExecFns;

verus! {

/// One log entry of a receipt: the contract that emitted it and its topics in
/// the order of emission.
#[derive(Debug, PartialEq, Eq)]
pub struct LogEntry {
    pub address: String,
    pub topics: Vec<String>,
}

/// A [`LogEntry`] as plain data.
pub struct LogEntryView {
    pub address: Seq<char>,
    pub topics: Seq<Seq<char>>,
}

impl View for LogEntry {
    type V = LogEntryView;

    open spec fn view(&self) -> LogEntryView {
        LogEntryView { address: self.address@, topics: texts(self.topics@) }
    }
}

/// The views of a sequence of log entries, in the same order.
pub open spec fn log_views(logs: Seq<LogEntry>) -> Seq<LogEntryView> {
    logs.map_values(|log: LogEntry| log@)
}

/// A receipt as the providers report it.
#[derive(Debug, PartialEq, Eq)]
pub struct TransactionReceipt {
    pub to: String,
    pub status: Amount,
    pub transaction_hash: String,
    pub block_number: Amount,
    pub from: String,
    pub logs: Vec<LogEntry>,
}

/// A [`TransactionReceipt`] as plain data.
pub struct TransactionReceiptView {
    pub to: Seq<char>,
    pub status: nat,
    pub transaction_hash: Seq<char>,
    pub block_number: nat,
    pub from: Seq<char>,
    pub logs: Seq<LogEntryView>,
}

impl View for TransactionReceipt {
    type V = TransactionReceiptView;

    open spec fn view(&self) -> TransactionReceiptView {
        TransactionReceiptView {
            to: self.to@,
            status: self.status@,
            transaction_hash: self.transaction_hash@,
            block_number: self.block_number@,
            from: self.from@,
            logs: log_views(self.logs@),
        }
    }
}

/// What a receipt says, with its numbers written out as text.
#[derive(Debug, PartialEq, Eq)]
pub struct TransactionReceiptData {
    pub to: String,
    pub status: String,
    pub transaction_hash: String,
    pub block_number: String,
    pub from: String,
    pub logs: Vec<LogEntry>,
}

/// The details of a verified transaction. A value of this type is only made
/// by [`verify_transaction`], from a receipt that all providers agreed on,
/// that reports success and that went to the minter's address.
#[derive(Debug, PartialEq, Eq)]
pub struct VerifiedTransactionDetails {
    data: TransactionReceiptData,
}

/// A [`TransactionReceiptData`] or a [`VerifiedTransactionDetails`] as plain
/// data.
pub struct ReceiptDataView {
    pub to: Seq<char>,
    pub status: Seq<char>,
    pub transaction_hash: Seq<char>,
    pub block_number: Seq<char>,
    pub from: Seq<char>,
    pub logs: Seq<LogEntryView>,
}

impl View for TransactionReceiptData {
    type V = ReceiptDataView;

    open spec fn view(&self) -> ReceiptDataView {
        ReceiptDataView {
            to: self.to@,
            status: self.status@,
            transaction_hash: self.transaction_hash@,
            block_number: self.block_number@,
            from: self.from@,
            logs: log_views(self.logs@),
        }
    }
}

impl View for VerifiedTransactionDetails {
    type V = ReceiptDataView;

    closed spec fn view(&self) -> ReceiptDataView {
        self.data@
    }
}

impl VerifiedTransactionDetails {
    #[verifier::type_invariant]
    spec fn verified(&self) -> bool {
        &&& self.data.status@ == seq!['1']
        &&& self.data.to@ == CK_SEPOLIA_ETH_MINTER_ADDRESS@
    }

    /// What the verified transaction says. Its status reads `1`, and it went
    /// to the minter's address.
    pub fn data(&self) -> (data: &TransactionReceiptData)
        ensures
            data@ == self@,
            data.status@ == seq!['1'],
            data.to@ == CK_SEPOLIA_ETH_MINTER_ADDRESS@,
    {
        proof {
            use_type_invariant(self);
        }
        &self.data
    }

    /// Hands out what the verified transaction says as plain data.
    pub fn into_data(self) -> (data: TransactionReceiptData)
        ensures
            data@ == self@,
            data.status@ == seq!['1'],
            data.to@ == CK_SEPOLIA_ETH_MINTER_ADDRESS@,
    {
        proof {
            use_type_invariant(&self);
        }
        self.data
    }
}

/// The projection of a receipt: every field as it is, the two numbers printed.
pub open spec fn project(receipt: TransactionReceiptView) -> ReceiptDataView {
    ReceiptDataView {
        to: receipt.to,
        status: display_text(receipt.status),
        transaction_hash: receipt.transaction_hash,
        block_number: display_text(receipt.block_number),
        from: receipt.from,
        logs: receipt.logs,
    }
}

/// The view of what the providers agreed on.
pub open spec fn agreed_view(agreed: Result<Option<TransactionReceipt>, String>) -> Result<
    Option<TransactionReceiptView>,
    Seq<char>,
> {
    match agreed {
        Ok(Some(receipt)) => Ok(Some(receipt@)),
        Ok(None) => Ok(None),
        Err(e) => Err(e@),
    }
}

/// The answer of the EVM RPC canister: either what all providers agreed on (a
/// receipt, no receipt, or an error, given as the text that describes it), or
/// the fact that they did not agree, with a description of their answers.
#[derive(Debug, PartialEq, Eq)]
pub enum MultiGetTransactionReceiptResult {
    Consistent(Result<Option<TransactionReceipt>, String>),
    Inconsistent(String),
}

/// A [`MultiGetTransactionReceiptResult`] as plain data.
pub enum MultiGetTransactionReceiptResultView {
    Consistent(Result<Option<TransactionReceiptView>, Seq<char>>),
    Inconsistent(Seq<char>),
}

impl View for MultiGetTransactionReceiptResult {
    type V = MultiGetTransactionReceiptResultView;

    open spec fn view(&self) -> MultiGetTransactionReceiptResultView {
        match self {
            MultiGetTransactionReceiptResult::Consistent(agreed) =>
                MultiGetTransactionReceiptResultView::Consistent(agreed_view(*agreed)),
            MultiGetTransactionReceiptResult::Inconsistent(d) =>
                MultiGetTransactionReceiptResultView::Inconsistent(d@),
        }
    }
}

/// The outcome of one attempt to fetch a receipt.
#[derive(Debug, PartialEq, Eq)]
pub enum ReceiptQueryResult {
    /// All providers gave the same answer: the receipt, or that there is none.
    Agreed(Option<TransactionReceipt>),
    /// The providers gave different answers.
    Disagreement(String),
    /// No answer was had: the call failed, or the providers reported an error.
    TransportFailure(String),
}

/// A [`ReceiptQueryResult`] as plain data.
pub enum ReceiptQueryResultView {
    Agreed(Option<TransactionReceiptView>),
    Disagreement(Seq<char>),
    TransportFailure(Seq<char>),
}

impl View for ReceiptQueryResult {
    type V = ReceiptQueryResultView;

    open spec fn view(&self) -> ReceiptQueryResultView {
        match self {
            ReceiptQueryResult::Agreed(Some(receipt)) => ReceiptQueryResultView::Agreed(
                Some(receipt@),
            ),
            ReceiptQueryResult::Agreed(None) => ReceiptQueryResultView::Agreed(None),
            ReceiptQueryResult::Disagreement(d) => ReceiptQueryResultView::Disagreement(d@),
            ReceiptQueryResult::TransportFailure(r) => ReceiptQueryResultView::TransportFailure(r@),
        }
    }
}

/// The providers of Sepolia data that the EVM RPC canister can ask.
#[derive(Clone, Copy, Debug, PartialEq, Eq, Structural)]
pub enum EthSepoliaService {
    Alchemy,
    BlockPi,
    PublicNode,
    Ankr,
}

/// The cycles attached to one request for a receipt.
pub const RECEIPT_REQUEST_CYCLES: u128 = 10_000_000_000;

/// A request for the receipt of one transaction.
#[derive(Debug, PartialEq, Eq)]
pub struct ReceiptRequest {
    /// The providers to ask, each independently of the others.
    pub services: Vec<EthSepoliaService>,
    /// The hash of the transaction. It is not checked here: a malformed hash
    /// is for the providers to reject.
    pub hash: String,
    /// The cycles to attach to the call.
    pub cycles: u128,
}

/// The providers that every request goes to.
pub open spec fn queried_services() -> Seq<EthSepoliaService> {
    seq![EthSepoliaService::PublicNode, EthSepoliaService::BlockPi, EthSepoliaService::Ankr]
}

/// The request for the receipt of the transaction `hash`: always the same
/// three providers and the same cycles.
pub fn receipt_request(hash: String) -> (request: ReceiptRequest)
    ensures
        request.services@ == queried_services(),
        request.hash@ == hash@,
        request.cycles == RECEIPT_REQUEST_CYCLES,
{
    let mut services: Vec<EthSepoliaService> = Vec::new();
    services.push(EthSepoliaService::PublicNode);
    services.push(EthSepoliaService::BlockPi);
    services.push(EthSepoliaService::Ankr);
    assert(services@ =~= queried_services());
    ReceiptRequest { services, hash, cycles: RECEIPT_REQUEST_CYCLES }
}

/// Every request asks at least three providers, and no provider twice.
pub proof fn queried_services_are_redundant()
    ensures
        queried_services().len() >= 3,
        queried_services().no_duplicates(),
{
}

/// The view of what a call to the EVM RPC canister gave.
pub open spec fn reply_view(reply: Result<MultiGetTransactionReceiptResult, String>) -> Result<
    MultiGetTransactionReceiptResultView,
    Seq<char>,
> {
    match reply {
        Ok(answer) => Ok(answer@),
        Err(e) => Err(e@),
    }
}

/// How a reply is classified. Agreement on a receipt, or on there being
/// none, is passed on; disagreement is passed on as such; a failed call and
/// an error that the providers agree on are failures of transport.
pub open spec fn classification(
    reply: Result<MultiGetTransactionReceiptResultView, Seq<char>>,
) -> ReceiptQueryResultView {
    match reply {
        Ok(MultiGetTransactionReceiptResultView::Consistent(Ok(receipt))) =>
            ReceiptQueryResultView::Agreed(receipt),
        Ok(MultiGetTransactionReceiptResultView::Consistent(Err(e))) =>
            ReceiptQueryResultView::TransportFailure(
            "Error on Get transaction receipt result: "@ + e,
        ),
        Ok(MultiGetTransactionReceiptResultView::Inconsistent(details)) =>
            ReceiptQueryResultView::Disagreement(details),
        Err(e) => ReceiptQueryResultView::TransportFailure("Error calling EVM_RPC: "@ + e),
    }
}

/// Classifies what the call for a receipt gave: `Err` where the call itself
/// failed, with the reason as text, else the answer of the EVM RPC canister.
pub fn eth_get_transaction_receipt(
    reply: Result<MultiGetTransactionReceiptResult, String>,
) -> (query: ReceiptQueryResult)
    ensures
        query@ == classification(reply_view(reply)),
{
    match reply {
        Ok(MultiGetTransactionReceiptResult::Consistent(Ok(receipt))) => {
            ReceiptQueryResult::Agreed(receipt)
        },
        Ok(MultiGetTransactionReceiptResult::Consistent(Err(e))) => {
            let reason = "Error on Get transaction receipt result: ".to_owned().concat(e.as_str());
            ReceiptQueryResult::TransportFailure(reason)
        },
        Ok(MultiGetTransactionReceiptResult::Inconsistent(details)) => {
            ReceiptQueryResult::Disagreement(details)
        },
        Err(e) => {
            let reason = "Error calling EVM_RPC: ".to_owned().concat(e.as_str());
            ReceiptQueryResult::TransportFailure(reason)
        },
    }
}

/// Why a transaction could not be verified.
#[derive(Debug, PartialEq, Eq)]
pub enum VerificationError {
    /// The receipt could not be fetched.
    TransportFailure(String),
    /// The providers disagree about the receipt.
    InconsistentSources(String),
    /// No provider knows the transaction.
    ReceiptNotFound,
    /// The transaction did not succeed.
    TransactionFailed,
    /// The transaction did not go to the minter.
    DestinationMismatch,
}

/// A [`VerificationError`] as plain data.
pub enum VerificationErrorView {
    TransportFailure(Seq<char>),
    InconsistentSources(Seq<char>),
    ReceiptNotFound,
    TransactionFailed,
    DestinationMismatch,
}

impl View for VerificationError {
    type V = VerificationErrorView;

    open spec fn view(&self) -> VerificationErrorView {
        match self {
            VerificationError::TransportFailure(r) => VerificationErrorView::TransportFailure(r@),
            VerificationError::InconsistentSources(d) => VerificationErrorView::InconsistentSources(
                d@,
            ),
            VerificationError::ReceiptNotFound => VerificationErrorView::ReceiptNotFound,
            VerificationError::TransactionFailed => VerificationErrorView::TransactionFailed,
            VerificationError::DestinationMismatch => VerificationErrorView::DestinationMismatch,
        }
    }
}

/// The rule of verification: disagreement and failure to fetch end it at
/// once; an agreed receipt must exist, report status one and name the asset's
/// counterpart address as its destination, and is then projected unchanged.
pub open spec fn verification(asset: Asset, query: ReceiptQueryResultView) -> Result<
    ReceiptDataView,
    VerificationErrorView,
> {
    match query {
        ReceiptQueryResultView::TransportFailure(reason) => Err(
            VerificationErrorView::TransportFailure(reason),
        ),
        ReceiptQueryResultView::Disagreement(details) => Err(
            VerificationErrorView::InconsistentSources(details),
        ),
        ReceiptQueryResultView::Agreed(None) => Err(VerificationErrorView::ReceiptNotFound),
        ReceiptQueryResultView::Agreed(Some(receipt)) => if receipt.status != 1 {
            Err(VerificationErrorView::TransactionFailed)
        } else if receipt.to != asset.spec_counterpart_address() {
            Err(VerificationErrorView::DestinationMismatch)
        } else {
            Ok(project(receipt))
        },
    }
}

/// The view of the outcome of a verification.
pub open spec fn outcome_view(
    outcome: Result<VerifiedTransactionDetails, VerificationError>,
) -> Result<ReceiptDataView, VerificationErrorView> {
    match outcome {
        Ok(details) => Ok(details@),
        Err(e) => Err(e@),
    }
}

/// Decides whether a fetched receipt proves a deposit of `asset`.
///
/// Nothing is retried and no provider is preferred: when the providers
/// disagree the transaction is not verified, whatever any of them says.
pub fn verify_transaction(asset: Asset, query: ReceiptQueryResult) -> (outcome: Result<
    VerifiedTransactionDetails,
    VerificationError,
>)
    ensures
        outcome_view(outcome) == verification(asset, query@),
{
    let receipt = match query {
        ReceiptQueryResult::TransportFailure(reason) => {
            return Err(VerificationError::TransportFailure(reason));
        },
        ReceiptQueryResult::Disagreement(details) => {
            return Err(VerificationError::InconsistentSources(details));
        },
        ReceiptQueryResult::Agreed(None) => {
            return Err(VerificationError::ReceiptNotFound);
        },
        ReceiptQueryResult::Agreed(Some(receipt)) => receipt,
    };
    if !receipt.status.is_one() {
        return Err(VerificationError::TransactionFailed);
    }
    let expected: String = asset.counterpart_address().to_owned();
    if receipt.to != expected {
        return Err(VerificationError::DestinationMismatch);
    }
    let status = receipt.status.to_string();
    let block_number = receipt.block_number.to_string();
    proof {
        lemma_display_one();
    }
    Ok(
        VerifiedTransactionDetails {
            data: TransactionReceiptData {
                to: receipt.to,
                status,
                transaction_hash: receipt.transaction_hash,
                block_number,
                from: receipt.from,
                logs: receipt.logs,
            },
        },
    )
}

impl VerificationErrorView {
    /// The error in words.
    pub open spec fn message(self) -> Seq<char> {
        match self {
            VerificationErrorView::TransportFailure(reason) => "Failed to get receipt: "@ + reason,
            VerificationErrorView::InconsistentSources(details) =>
                "Failed to get receipt: EVM_RPC returned inconsistent results: "@ + details,
            VerificationErrorView::ReceiptNotFound => "Receipt is None"@,
            VerificationErrorView::TransactionFailed => "Transaction failed"@,
            VerificationErrorView::DestinationMismatch => "Minter address does not match"@,
        }
    }
}

impl VerificationError {
    /// The error in words.
    pub fn message(&self) -> (text: String)
        ensures
            text@ == self@.message(),
    {
        match self {
            VerificationError::TransportFailure(reason) => {
                "Failed to get receipt: ".to_owned().concat(reason.as_str())
            },
            VerificationError::InconsistentSources(details) => {
                "Failed to get receipt: EVM_RPC returned inconsistent results: ".to_owned().concat(
                    details.as_str(),
                )
            },
            VerificationError::ReceiptNotFound => "Receipt is None".to_owned(),
            VerificationError::TransactionFailed => "Transaction failed".to_owned(),
            VerificationError::DestinationMismatch => "Minter address does not match".to_owned(),
        }
    }
}

/// A receipt made ready for display, or the reason why there is none.
#[derive(Debug, PartialEq, Eq)]
pub enum ReceiptWrapper {
    Receipt(TransactionReceiptData),
    Failure(String),
}

/// A [`ReceiptWrapper`] as plain data.
pub enum ReceiptWrapperView {
    Receipt(ReceiptDataView),
    Failure(Seq<char>),
}

impl View for ReceiptWrapper {
    type V = ReceiptWrapperView;

    open spec fn view(&self) -> ReceiptWrapperView {
        match self {
            ReceiptWrapper::Receipt(data) => ReceiptWrapperView::Receipt(data@),
            ReceiptWrapper::Failure(e) => ReceiptWrapperView::Failure(e@),
        }
    }
}

/// How an agreed answer is wrapped: a receipt is projected, the lack of one
/// and an error are put in words.
pub open spec fn wrapping(
    agreed: Result<Option<TransactionReceiptView>, Seq<char>>,
) -> ReceiptWrapperView {
    match agreed {
        Ok(Some(receipt)) => ReceiptWrapperView::Receipt(project(receipt)),
        Ok(None) => ReceiptWrapperView::Failure("Receipt is None"@),
        Err(e) => ReceiptWrapperView::Failure("Error on Get transaction receipt result: "@ + e),
    }
}

impl ReceiptWrapper {
    /// Wraps what the providers agreed on.
    pub fn from_result(agreed: Result<Option<TransactionReceipt>, String>) -> (wrapper:
        ReceiptWrapper)
        ensures
            wrapper@ == wrapping(agreed_view(agreed)),
    {
        match agreed {
            Ok(Some(receipt)) => {
                let status = receipt.status.to_string();
                let block_number = receipt.block_number.to_string();
                ReceiptWrapper::Receipt(
                    TransactionReceiptData {
                        to: receipt.to,
                        status,
                        transaction_hash: receipt.transaction_hash,
                        block_number,
                        from: receipt.from,
                        logs: receipt.logs,
                    },
                )
            },
            Ok(None) => ReceiptWrapper::Failure("Receipt is None".to_owned()),
            Err(e) => ReceiptWrapper::Failure(
                "Error on Get transaction receipt result: ".to_owned().concat(e.as_str()),
            ),
        }
    }
}

/// What is shown for a reply: an answer that the providers agreed on is
/// wrapped, a receipt whatever it says; disagreement and a failed call are
/// errors, as they are for verification.
pub open spec fn shown(
    reply: Result<MultiGetTransactionReceiptResultView, Seq<char>>,
) -> Result<ReceiptWrapperView, VerificationErrorView> {
    match reply {
        Ok(MultiGetTransactionReceiptResultView::Consistent(agreed)) => Ok(wrapping(agreed)),
        Ok(MultiGetTransactionReceiptResultView::Inconsistent(details)) => Err(
            VerificationErrorView::InconsistentSources(details),
        ),
        Err(e) => Err(VerificationErrorView::TransportFailure("Error calling EVM_RPC: "@ + e)),
    }
}

/// The view of a wrapper or an error.
pub open spec fn shown_view(result: Result<ReceiptWrapper, VerificationError>) -> Result<
    ReceiptWrapperView,
    VerificationErrorView,
> {
    match result {
        Ok(wrapper) => Ok(wrapper@),
        Err(e) => Err(e@),
    }
}

/// The receipt of a transaction, wrapped for display. Nothing is verified
/// here: the receipt of a failed transaction is shown like any other.
pub fn get_receipt(reply: Result<MultiGetTransactionReceiptResult, String>) -> (result: Result<
    ReceiptWrapper,
    VerificationError,
>)
    ensures
        shown_view(result) == shown(reply_view(reply)),
{
    match reply {
        Ok(MultiGetTransactionReceiptResult::Consistent(agreed)) => Ok(
            ReceiptWrapper::from_result(agreed),
        ),
        Ok(MultiGetTransactionReceiptResult::Inconsistent(details)) => Err(
            VerificationError::InconsistentSources(details),
        ),
        Err(e) => Err(
            VerificationError::TransportFailure(
                "Error calling EVM_RPC: ".to_owned().concat(e.as_str()),
            ),
        ),
    }
}

/// Where the providers disagree, the transaction is not verified: the outcome
/// is the error that reports the disagreement, whatever the providers said.
pub proof fn disagreement_is_never_verified(asset: Asset, details: Seq<char>)
    ensures
        classification(Ok(MultiGetTransactionReceiptResultView::Inconsistent(details)))
            == ReceiptQueryResultView::Disagreement(details),
        verification(asset, ReceiptQueryResultView::Disagreement(details)) == Err::<
            ReceiptDataView,
            VerificationErrorView,
        >(VerificationErrorView::InconsistentSources(details)),
{
}

/// An agreed receipt whose status is not one is rejected as a failed
/// transaction, wherever it went.
pub proof fn failed_transaction_is_rejected(asset: Asset, receipt: TransactionReceiptView)
    requires
        receipt.status != 1,
    ensures
        verification(asset, ReceiptQueryResultView::Agreed(Some(receipt))) == Err::<
            ReceiptDataView,
            VerificationErrorView,
        >(VerificationErrorView::TransactionFailed),
{
}

/// An agreed, successful receipt that did not go to the asset's counterpart
/// address is rejected for its destination.
pub proof fn wrong_destination_is_rejected(asset: Asset, receipt: TransactionReceiptView)
    requires
        receipt.status == 1,
        receipt.to != asset.spec_counterpart_address(),
    ensures
        verification(asset, ReceiptQueryResultView::Agreed(Some(receipt))) == Err::<
            ReceiptDataView,
            VerificationErrorView,
        >(VerificationErrorView::DestinationMismatch),
{
}

/// An agreed, successful receipt that went to the asset's counterpart address
/// is verified, and the verified transaction has the receipt's log entries,
/// the same entries in the same order. Its status reads `1`.
pub proof fn verified_transaction_keeps_logs(asset: Asset, receipt: TransactionReceiptView)
    requires
        receipt.status == 1,
        receipt.to == asset.spec_counterpart_address(),
    ensures
        verification(asset, ReceiptQueryResultView::Agreed(Some(receipt))) matches Ok(details)
            && details.logs == receipt.logs && details.to == receipt.to && details.status
            == seq!['1'],
{
    lemma_display_one();
}

/// A transaction is verified only on an agreed receipt that reports success
/// and went to the asset's counterpart address.
pub proof fn verified_only_on_agreed_success(asset: Asset, query: ReceiptQueryResultView)
    requires
        verification(asset, query) is Ok,
    ensures
        query matches ReceiptQueryResultView::Agreed(Some(receipt)) && receipt.status == 1
            && receipt.to == asset.spec_counterpart_address() && verification(asset, query)
            == Ok::<ReceiptDataView, VerificationErrorView>(project(receipt)),
{
}

} // verus!
