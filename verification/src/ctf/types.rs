//! Chain values, and the requests and responses of the client.

use vstd::prelude::*;

verus! {

/// The address of an account or a contract.
#[derive(Debug, Clone, Copy, PartialEq, Eq, Hash)]
pub struct Address {
    pub bytes: [u8; 20],
}

/// A 32-byte word: a hash or an identifier.
#[derive(Debug, Clone, Copy, PartialEq, Eq, Hash)]
pub struct B256 {
    pub bytes: [u8; 32],
}

/// A 256-bit unsigned integer, most significant byte first.
#[derive(Debug, Clone, Copy, PartialEq, Eq, Hash)]
pub struct U256 {
    pub bytes: [u8; 32],
}

/// What makes up a condition ID.
#[derive(Debug, Clone)]
pub struct ConditionIdRequest {
    pub oracle: Address,
    pub question_id: B256,
    pub outcome_slot_count: U256,
}

/// What makes up a collection ID.
#[derive(Debug, Clone)]
pub struct CollectionIdRequest {
    pub parent_collection_id: B256,
    pub condition_id: B256,
    pub index_set: U256,
}

/// What makes up a position ID.
#[derive(Debug, Clone)]
pub struct PositionIdRequest {
    pub collateral_token: Address,
    pub collection_id: B256,
}

/// Collateral to split, and the outcome sets to split it into.
#[derive(Debug, Clone)]
pub struct SplitPositionRequest {
    pub collateral_token: Address,
    pub parent_collection_id: B256,
    pub condition_id: B256,
    pub partition: Vec<U256>,
    pub amount: U256,
}

/// Outcome sets to merge, and how much of each.
#[derive(Debug, Clone)]
pub struct MergePositionsRequest {
    pub collateral_token: Address,
    pub parent_collection_id: B256,
    pub condition_id: B256,
    pub partition: Vec<U256>,
    pub amount: U256,
}

/// Outcome sets to redeem after a condition has resolved.
#[derive(Debug, Clone)]
pub struct RedeemPositionsRequest {
    pub collateral_token: Address,
    pub parent_collection_id: B256,
    pub condition_id: B256,
    pub index_sets: Vec<U256>,
}

/// How much of each outcome token of a negative-risk market to redeem.
#[derive(Debug, Clone)]
pub struct RedeemNegRiskRequest {
    pub condition_id: B256,
    pub amounts: Vec<U256>,
}

#[derive(Debug, Clone, Copy, PartialEq, Eq)]
pub struct ConditionIdResponse {
    pub condition_id: B256,
}

#[derive(Debug, Clone, Copy, PartialEq, Eq)]
pub struct CollectionIdResponse {
    pub collection_id: B256,
}

#[derive(Debug, Clone, Copy, PartialEq, Eq)]
pub struct PositionIdResponse {
    pub position_id: U256,
}

#[derive(Debug, Clone, Copy, PartialEq, Eq)]
pub struct SplitPositionResponse {
    pub transaction_hash: B256,
    pub block_number: u64,
}

#[derive(Debug, Clone, Copy, PartialEq, Eq)]
pub struct MergePositionsResponse {
    pub transaction_hash: B256,
    pub block_number: u64,
}

#[derive(Debug, Clone, Copy, PartialEq, Eq)]
pub struct RedeemPositionsResponse {
    pub transaction_hash: B256,
    pub block_number: u64,
}

#[derive(Debug, Clone, Copy, PartialEq, Eq)]
pub struct RedeemNegRiskResponse {
    pub transaction_hash: B256,
    pub block_number: u64,
}

/// What the node reports of a mined transaction.
#[derive(Debug, Clone, Copy, PartialEq, Eq)]
pub struct Receipt {
    pub transaction_hash: B256,
    /// Whether the transaction ran to its end, rather than being reverted.
    pub status: bool,
    pub block_number: Option<u64>,
}

/// A copy of `words`.
pub(crate) fn copied(words: &Vec<U256>) -> (r: Vec<U256>)
    ensures
        r@ == words@,
{
    let mut r: Vec<U256> = Vec::new();
    let mut i: usize = 0;
    while i < words.len()
        invariant
            i <= words@.len(),
            r@ == words@.take(i as int),
        decreases words@.len() - i,
    {
        r.push(words[i]);
        i += 1;
        assert(r@ =~= words@.take(i as int));
    }
    assert(words@.take(i as int) =~= words@);
    r
}

} // verus!
