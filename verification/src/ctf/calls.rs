//! The contract calls that the client makes.

use crate::ctf::types::{Address, B256, U256};
use vstd::prelude::*;

verus! {

/// A transaction of one of the three contract interfaces, with its arguments.
#[derive(Debug, Clone)]
pub enum TransactionCall {
    /// `IConditionalTokens.splitPosition`
    SplitPosition {
        collateral_token: Address,
        parent_collection_id: B256,
        condition_id: B256,
        partition: Vec<U256>,
        amount: U256,
    },
    /// `IConditionalTokens.mergePositions`
    MergePositions {
        collateral_token: Address,
        parent_collection_id: B256,
        condition_id: B256,
        partition: Vec<U256>,
        amount: U256,
    },
    /// `IConditionalTokens.redeemPositions`
    RedeemPositions {
        collateral_token: Address,
        parent_collection_id: B256,
        condition_id: B256,
        index_sets: Vec<U256>,
    },
    /// `INegRiskAdapter.redeemPositions`
    RedeemNegRisk { condition_id: B256, amounts: Vec<U256> },
    /// `IV2NegRiskWrapper.convertPositions`
    ConvertPositions { market_id: B256, index_set: U256, amount: U256 },
}

/// A [`TransactionCall`], with sequences for its lists.
#[verifier::ext_equal]
pub enum TransactionCallView {
    SplitPosition {
        collateral_token: Address,
        parent_collection_id: B256,
        condition_id: B256,
        partition: Seq<U256>,
        amount: U256,
    },
    MergePositions {
        collateral_token: Address,
        parent_collection_id: B256,
        condition_id: B256,
        partition: Seq<U256>,
        amount: U256,
    },
    RedeemPositions {
        collateral_token: Address,
        parent_collection_id: B256,
        condition_id: B256,
        index_sets: Seq<U256>,
    },
    RedeemNegRisk { condition_id: B256, amounts: Seq<U256> },
    ConvertPositions { market_id: B256, index_set: U256, amount: U256 },
}

impl View for TransactionCall {
    type V = TransactionCallView;

    open spec fn view(&self) -> TransactionCallView {
        match *self {
            TransactionCall::SplitPosition {
                collateral_token,
                parent_collection_id,
                condition_id,
                partition,
                amount,
            } => TransactionCallView::SplitPosition {
                collateral_token,
                parent_collection_id,
                condition_id,
                partition: partition@,
                amount,
            },
            TransactionCall::MergePositions {
                collateral_token,
                parent_collection_id,
                condition_id,
                partition,
                amount,
            } => TransactionCallView::MergePositions {
                collateral_token,
                parent_collection_id,
                condition_id,
                partition: partition@,
                amount,
            },
            TransactionCall::RedeemPositions {
                collateral_token,
                parent_collection_id,
                condition_id,
                index_sets,
            } => TransactionCallView::RedeemPositions {
                collateral_token,
                parent_collection_id,
                condition_id,
                index_sets: index_sets@,
            },
            TransactionCall::RedeemNegRisk { condition_id, amounts } => {
                TransactionCallView::RedeemNegRisk { condition_id, amounts: amounts@ }
            },
            TransactionCall::ConvertPositions { market_id, index_set, amount } => {
                TransactionCallView::ConvertPositions { market_id, index_set, amount }
            },
        }
    }
}

/// `IConditionalTokens.getConditionId`, asked of the contract at `to`.
#[derive(Debug, Clone, Copy, PartialEq, Eq)]
pub struct GetConditionId {
    pub to: Address,
    pub oracle: Address,
    pub question_id: B256,
    pub outcome_slot_count: U256,
}

/// `IConditionalTokens.getCollectionId`, asked of the contract at `to`.
#[derive(Debug, Clone, Copy, PartialEq, Eq)]
pub struct GetCollectionId {
    pub to: Address,
    pub parent_collection_id: B256,
    pub condition_id: B256,
    pub index_set: U256,
}

/// `IConditionalTokens.getPositionId`, asked of the contract at `to`.
#[derive(Debug, Clone, Copy, PartialEq, Eq)]
pub struct GetPositionId {
    pub to: Address,
    pub collateral_token: Address,
    pub collection_id: B256,
}

} // verus!
