//! From a contract call to its answer: what is told to the caller when a
//! transaction is sent, when its receipt arrives, and when either fails.

use crate::ctf::calls::{GetCollectionId, GetConditionId, GetPositionId, TransactionCall};
use crate::ctf::error::{answers, CtfError};
use crate::ctf::types::{
    Address, B256, CollectionIdResponse, ConditionIdResponse, MergePositionsResponse,
    PositionIdResponse, Receipt, RedeemNegRiskResponse, RedeemPositionsResponse,
    SplitPositionResponse, U256,
};
use crate::text::{hex, hex_string, join};
use std::marker::PhantomData;
use vstd::prelude::*;

verus! {

/// A hash as messages show it.
pub open spec fn hash_text(hash: B256) -> Seq<char> {
    "0x"@ + hex(hash.bytes@)
}

/// Writes a hash as messages show it.
pub fn hash_string(hash: &B256) -> (r: String)
    ensures
        r@ == hash_text(*hash),
{
    join("0x", hex_string(&hash.bytes).as_str())
}

/// An operation that takes a transaction: the words of its failures, and its
/// answer to a receipt.
pub trait Operation: Sized {
    /// What the operation answers when it went through.
    type Response;

    /// The words before the error of a transaction that could not be sent.
    spec fn send_failure() -> Seq<char>;

    /// The words before the error of a receipt that could not be had.
    spec fn receipt_failure() -> Seq<char>;

    /// The answer to `receipt`, for the transaction that was sent as `sent`.
    spec fn answer(sent: B256, receipt: Receipt) -> Result<Self::Response, Seq<char>>;

    fn send_failure_text() -> (r: &'static str)
        ensures
            r@ == Self::send_failure(),
    ;

    fn receipt_failure_text() -> (r: &'static str)
        ensures
            r@ == Self::receipt_failure(),
    ;

    fn respond(sent: B256, receipt: Receipt) -> (r: Result<Self::Response, CtfError>)
        ensures
            answers(r, Self::answer(sent, receipt)),
    ;
}

/// The hash and block of a transaction that took effect. A receipt without a block
/// number is an error. So is a transaction that was mined and reverted, be it for
/// want of tokens or because the condition is not in the state that it needs.
pub open spec fn confirmed(sent: B256, receipt: Receipt, reverted: Seq<char>) -> Result<
    (B256, u64),
    Seq<char>,
> {
    match receipt.block_number {
        None => Err("Block number not available in receipt"@),
        Some(block_number) => if receipt.status {
            Ok((sent, block_number))
        } else {
            Err(reverted + hash_text(receipt.transaction_hash))
        },
    }
}

/// Decides whether a transaction took effect; `reverted` opens the error of one that
/// was reverted.
fn confirm(sent: B256, receipt: Receipt, reverted: &str) -> (r: Result<(B256, u64), CtfError>)
    ensures
        answers(r, confirmed(sent, receipt, reverted@)),
{
    match receipt.block_number {
        None => Err(CtfError::ContractCall("Block number not available in receipt".to_owned())),
        Some(block_number) => if receipt.status {
            Ok((sent, block_number))
        } else {
            let hash = hash_string(&receipt.transaction_hash);
            Err(CtfError::contract_call(reverted, hash.as_str()))
        },
    }
}

/// Splitting collateral into outcome tokens.
pub struct SplitPosition;

impl Operation for SplitPosition {
    type Response = SplitPositionResponse;

    open spec fn send_failure() -> Seq<char> {
        "Failed to send split transaction: "@
    }

    open spec fn receipt_failure() -> Seq<char> {
        "Failed to get split receipt: "@
    }

    open spec fn answer(sent: B256, receipt: Receipt) -> Result<SplitPositionResponse, Seq<char>> {
        match confirmed(sent, receipt, "splitPosition tx reverted: "@) {
            Ok((transaction_hash, block_number)) => Ok(
                SplitPositionResponse { transaction_hash, block_number },
            ),
            Err(text) => Err(text),
        }
    }

    fn send_failure_text() -> (r: &'static str) {
        "Failed to send split transaction: "
    }

    fn receipt_failure_text() -> (r: &'static str) {
        "Failed to get split receipt: "
    }

    fn respond(sent: B256, receipt: Receipt) -> (r: Result<SplitPositionResponse, CtfError>) {
        match confirm(sent, receipt, "splitPosition tx reverted: ") {
            Ok((transaction_hash, block_number)) => Ok(
                SplitPositionResponse { transaction_hash, block_number },
            ),
            Err(error) => Err(error),
        }
    }
}

/// Merging outcome tokens back into collateral.
pub struct MergePositions;

impl Operation for MergePositions {
    type Response = MergePositionsResponse;

    open spec fn send_failure() -> Seq<char> {
        "Failed to send merge transaction: "@
    }

    open spec fn receipt_failure() -> Seq<char> {
        "Failed to get merge receipt: "@
    }

    open spec fn answer(sent: B256, receipt: Receipt) -> Result<MergePositionsResponse, Seq<char>> {
        match confirmed(sent, receipt, "mergePositions tx reverted: "@) {
            Ok((transaction_hash, block_number)) => Ok(
                MergePositionsResponse { transaction_hash, block_number },
            ),
            Err(text) => Err(text),
        }
    }

    fn send_failure_text() -> (r: &'static str) {
        "Failed to send merge transaction: "
    }

    fn receipt_failure_text() -> (r: &'static str) {
        "Failed to get merge receipt: "
    }

    fn respond(sent: B256, receipt: Receipt) -> (r: Result<MergePositionsResponse, CtfError>) {
        match confirm(sent, receipt, "mergePositions tx reverted: ") {
            Ok((transaction_hash, block_number)) => Ok(
                MergePositionsResponse { transaction_hash, block_number },
            ),
            Err(error) => Err(error),
        }
    }
}

/// Redeeming the winning outcome tokens of a resolved condition.
pub struct RedeemPositions;

impl Operation for RedeemPositions {
    type Response = RedeemPositionsResponse;

    open spec fn send_failure() -> Seq<char> {
        "Failed to send redeem transaction: "@
    }

    open spec fn receipt_failure() -> Seq<char> {
        "Failed to get redeem receipt: "@
    }

    open spec fn answer(sent: B256, receipt: Receipt) -> Result<
        RedeemPositionsResponse,
        Seq<char>,
    > {
        match confirmed(sent, receipt, "redeemPositions tx reverted: "@) {
            Ok((transaction_hash, block_number)) => Ok(
                RedeemPositionsResponse { transaction_hash, block_number },
            ),
            Err(text) => Err(text),
        }
    }

    fn send_failure_text() -> (r: &'static str) {
        "Failed to send redeem transaction: "
    }

    fn receipt_failure_text() -> (r: &'static str) {
        "Failed to get redeem receipt: "
    }

    fn respond(sent: B256, receipt: Receipt) -> (r: Result<RedeemPositionsResponse, CtfError>) {
        match confirm(sent, receipt, "redeemPositions tx reverted: ") {
            Ok((transaction_hash, block_number)) => Ok(
                RedeemPositionsResponse { transaction_hash, block_number },
            ),
            Err(error) => Err(error),
        }
    }
}

/// Redeeming outcome tokens of a negative-risk market by amount.
pub struct RedeemNegRisk;

impl Operation for RedeemNegRisk {
    type Response = RedeemNegRiskResponse;

    open spec fn send_failure() -> Seq<char> {
        "Failed to send NegRisk redeem transaction: "@
    }

    open spec fn receipt_failure() -> Seq<char> {
        "Failed to get NegRisk redeem receipt: "@
    }

    open spec fn answer(sent: B256, receipt: Receipt) -> Result<RedeemNegRiskResponse, Seq<char>> {
        match confirmed(sent, receipt, "NegRisk redeemPositions tx reverted: "@) {
            Ok((transaction_hash, block_number)) => Ok(
                RedeemNegRiskResponse { transaction_hash, block_number },
            ),
            Err(text) => Err(text),
        }
    }

    fn send_failure_text() -> (r: &'static str) {
        "Failed to send NegRisk redeem transaction: "
    }

    fn receipt_failure_text() -> (r: &'static str) {
        "Failed to get NegRisk redeem receipt: "
    }

    fn respond(sent: B256, receipt: Receipt) -> (r: Result<RedeemNegRiskResponse, CtfError>) {
        match confirm(sent, receipt, "NegRisk redeemPositions tx reverted: ") {
            Ok((transaction_hash, block_number)) => Ok(
                RedeemNegRiskResponse { transaction_hash, block_number },
            ),
            Err(error) => Err(error),
        }
    }
}

/// Converting a negative-risk position into the one on the complementary outcomes.
/// It answers with the hash in the receipt, and needs no block number.
pub struct ConvertPositions;

impl Operation for ConvertPositions {
    type Response = B256;

    open spec fn send_failure() -> Seq<char> {
        "convertPositions send: "@
    }

    open spec fn receipt_failure() -> Seq<char> {
        "convertPositions receipt: "@
    }

    open spec fn answer(sent: B256, receipt: Receipt) -> Result<B256, Seq<char>> {
        if receipt.status {
            Ok(receipt.transaction_hash)
        } else {
            Err("convertPositions tx reverted: "@ + hash_text(receipt.transaction_hash))
        }
    }

    fn send_failure_text() -> (r: &'static str) {
        "convertPositions send: "
    }

    fn receipt_failure_text() -> (r: &'static str) {
        "convertPositions receipt: "
    }

    fn respond(sent: B256, receipt: Receipt) -> (r: Result<B256, CtfError>) {
        if !receipt.status {
            let hash = hash_string(&receipt.transaction_hash);
            return Err(CtfError::contract_call("convertPositions tx reverted: ", hash.as_str()));
        }
        Ok(receipt.transaction_hash)
    }
}

/// A transaction that is yet to be sent to the contract at `to`.
pub struct Transaction<O> {
    pub to: Address,
    pub call: TransactionCall,
    pub operation: PhantomData<O>,
}

impl<O: Operation> Transaction<O> {
    pub(crate) fn new(to: Address, call: TransactionCall) -> (r: Self)
        ensures
            r.to == to,
            r.call == call,
    {
        Transaction { to, call, operation: PhantomData }
    }

    /// Takes what came of sending the transaction: its hash, with a handle `H` on the
    /// transaction to wait for its receipt by, or an error.
    pub fn sent<H>(self, sent: Result<(B256, H), String>) -> (r: Result<
        (SentTransaction<O>, H),
        CtfError,
    >)
        ensures
            match sent {
                Ok((hash, handle)) => r is Ok && r->Ok_0.0@ == hash && r->Ok_0.1 == handle,
                Err(error) => answers(r, Err(O::send_failure() + error@)),
            },
    {
        match sent {
            Ok((transaction_hash, handle)) => Ok(
                (SentTransaction { transaction_hash, operation: PhantomData }, handle),
            ),
            Err(error) => Err(CtfError::contract_call(O::send_failure_text(), error.as_str())),
        }
    }
}

/// A transaction that has been sent, and whose receipt is awaited. Its view is the
/// hash that it was sent as.
pub struct SentTransaction<O> {
    transaction_hash: B256,
    operation: PhantomData<O>,
}

impl<O> View for SentTransaction<O> {
    type V = B256;

    closed spec fn view(&self) -> B256 {
        self.transaction_hash
    }
}

impl<O: Operation> SentTransaction<O> {
    /// The hash that the transaction was sent as.
    pub fn transaction_hash(&self) -> (r: B256)
        ensures
            r == self@,
    {
        self.transaction_hash
    }

    /// Takes what came of waiting for the receipt: the receipt, or an error.
    pub fn mined(self, receipt: Result<Receipt, String>) -> (r: Result<O::Response, CtfError>)
        ensures
            match receipt {
                Ok(receipt) => answers(r, O::answer(self@, receipt)),
                Err(error) => answers(r, Err(O::receipt_failure() + error@)),
            },
    {
        match receipt {
            Ok(receipt) => O::respond(self.transaction_hash, receipt),
            Err(error) => Err(CtfError::contract_call(O::receipt_failure_text(), error.as_str())),
        }
    }
}

impl GetConditionId {
    /// Takes what the contract returned, or the error of the call.
    pub fn returned(self, reply: Result<B256, String>) -> (r: Result<ConditionIdResponse, CtfError>)
        ensures
            match reply {
                Ok(condition_id) => answers(r, Ok(ConditionIdResponse { condition_id })),
                Err(error) => answers(r, Err("Failed to get condition ID: "@ + error@)),
            },
    {
        match reply {
            Ok(condition_id) => Ok(ConditionIdResponse { condition_id }),
            Err(error) => Err(
                CtfError::contract_call("Failed to get condition ID: ", error.as_str()),
            ),
        }
    }
}

impl GetCollectionId {
    /// Takes what the contract returned, or the error of the call.
    pub fn returned(self, reply: Result<B256, String>) -> (r: Result<
        CollectionIdResponse,
        CtfError,
    >)
        ensures
            match reply {
                Ok(collection_id) => answers(r, Ok(CollectionIdResponse { collection_id })),
                Err(error) => answers(r, Err("Failed to get collection ID: "@ + error@)),
            },
    {
        match reply {
            Ok(collection_id) => Ok(CollectionIdResponse { collection_id }),
            Err(error) => Err(
                CtfError::contract_call("Failed to get collection ID: ", error.as_str()),
            ),
        }
    }
}

impl GetPositionId {
    /// Takes what the contract returned, or the error of the call.
    pub fn returned(self, reply: Result<U256, String>) -> (r: Result<PositionIdResponse, CtfError>)
        ensures
            match reply {
                Ok(position_id) => answers(r, Ok(PositionIdResponse { position_id })),
                Err(error) => answers(r, Err("Failed to get position ID: "@ + error@)),
            },
    {
        match reply {
            Ok(position_id) => Ok(PositionIdResponse { position_id }),
            Err(error) => Err(
                CtfError::contract_call("Failed to get position ID: ", error.as_str()),
            ),
        }
    }
}

} // verus!
