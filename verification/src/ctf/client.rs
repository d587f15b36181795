//! The client of the conditional tokens contract and of the contracts around it.

use crate::ctf::calls::{
    GetCollectionId, GetConditionId, GetPositionId, TransactionCall, TransactionCallView,
};
use crate::ctf::config::{contract_config, deployed, ContractConfig, Deployment};
use crate::ctf::error::CtfError;
use crate::ctf::transaction::{
    ConvertPositions, MergePositions, RedeemNegRisk, RedeemPositions, SplitPosition, Transaction,
};
use crate::ctf::types::{
    copied, Address, CollectionIdRequest, ConditionIdRequest, MergePositionsRequest,
    PositionIdRequest, RedeemNegRiskRequest, RedeemPositionsRequest, SplitPositionRequest, B256,
    U256,
};
use crate::text::{decimal, decimal_string};
use vstd::prelude::*;

verus! {

/// A client of the conditional tokens contract, which holds market outcomes as tokens.
///
/// It is bound to the contract that takes splits, merges and redemptions, and, where
/// it was made for negative-risk markets, to the adapter or the wrapper of those.
#[derive(Debug)]
pub struct Client<P> {
    contract: Address,
    neg_risk_adapter: Option<Address>,
    v2_neg_risk_wrapper: Option<Address>,
    provider: P,
}

/// What a [`Client`] is bound to.
pub struct ClientView<P> {
    /// The contract that takes splits, merges and redemptions.
    pub contract: Address,
    /// The adapter that redeems negative-risk positions by amount.
    pub neg_risk_adapter: Option<Address>,
    /// The wrapper that converts negative-risk positions.
    pub v2_neg_risk_wrapper: Option<Address>,
    pub provider: P,
}

impl<P: Clone> Clone for Client<P> {
    fn clone(&self) -> (r: Self)
        ensures
            r@.contract == self@.contract,
            r@.neg_risk_adapter == self@.neg_risk_adapter,
            r@.v2_neg_risk_wrapper == self@.v2_neg_risk_wrapper,
            cloned(self@.provider, r@.provider),
    {
        Client {
            contract: self.contract,
            neg_risk_adapter: self.neg_risk_adapter,
            v2_neg_risk_wrapper: self.v2_neg_risk_wrapper,
            provider: self.provider.clone(),
        }
    }
}

impl<P> View for Client<P> {
    type V = ClientView<P>;

    closed spec fn view(&self) -> ClientView<P> {
        ClientView {
            contract: self.contract,
            neg_risk_adapter: self.neg_risk_adapter,
            v2_neg_risk_wrapper: self.v2_neg_risk_wrapper,
            provider: self.provider,
        }
    }
}

/// What [`Client::new`] binds to, given the contracts of the chain.
pub open spec fn plain_client<P>(
    provider: P,
    chain_id: u64,
    config: Option<ContractConfig>,
) -> Result<ClientView<P>, Seq<char>> {
    match config {
        None => Err("CTF contract configuration not found for chain ID "@ + decimal(chain_id as nat)),
        Some(config) => Ok(
            ClientView {
                contract: config.conditional_tokens,
                neg_risk_adapter: None,
                v2_neg_risk_wrapper: None,
                provider,
            },
        ),
    }
}

/// What [`Client::with_neg_risk`] binds to, given the negative-risk contracts of the chain.
pub open spec fn neg_risk_client<P>(
    provider: P,
    chain_id: u64,
    config: Option<ContractConfig>,
) -> Result<ClientView<P>, Seq<char>> {
    match config {
        None => Err(
            "NegRisk contract configuration not found for chain ID "@ + decimal(chain_id as nat),
        ),
        Some(config) => if config.neg_risk_adapter is None {
            Err("NegRisk adapter not configured for chain ID "@ + decimal(chain_id as nat))
        } else {
            Ok(
                ClientView {
                    contract: config.conditional_tokens,
                    neg_risk_adapter: config.neg_risk_adapter,
                    v2_neg_risk_wrapper: None,
                    provider,
                },
            )
        },
    }
}

/// What [`Client::with_v2_wrapper`] binds to.
pub open spec fn v2_client<P>(provider: P, wrapper_address: Address) -> ClientView<P> {
    ClientView {
        contract: wrapper_address,
        neg_risk_adapter: None,
        v2_neg_risk_wrapper: None,
        provider,
    }
}

/// What [`Client::with_v2_neg_risk_wrapper`] binds to.
pub open spec fn v2_neg_risk_client<P>(provider: P, wrapper_address: Address) -> ClientView<P> {
    ClientView {
        contract: wrapper_address,
        neg_risk_adapter: None,
        v2_neg_risk_wrapper: Some(wrapper_address),
        provider,
    }
}

/// A transaction, as the contract that takes it and the call that it makes.
pub type CallTo = (Address, TransactionCallView);

impl<P> ClientView<P> {
    pub open spec fn split(self, request: SplitPositionRequest) -> CallTo {
        (
            self.contract,
            TransactionCallView::SplitPosition {
                collateral_token: request.collateral_token,
                parent_collection_id: request.parent_collection_id,
                condition_id: request.condition_id,
                partition: request.partition@,
                amount: request.amount,
            },
        )
    }

    pub open spec fn merge(self, request: MergePositionsRequest) -> CallTo {
        (
            self.contract,
            TransactionCallView::MergePositions {
                collateral_token: request.collateral_token,
                parent_collection_id: request.parent_collection_id,
                condition_id: request.condition_id,
                partition: request.partition@,
                amount: request.amount,
            },
        )
    }

    pub open spec fn redeem(self, request: RedeemPositionsRequest) -> CallTo {
        (
            self.contract,
            TransactionCallView::RedeemPositions {
                collateral_token: request.collateral_token,
                parent_collection_id: request.parent_collection_id,
                condition_id: request.condition_id,
                index_sets: request.index_sets@,
            },
        )
    }

    pub open spec fn redeem_by_amount(self, request: RedeemNegRiskRequest) -> Result<
        CallTo,
        Seq<char>,
    > {
        match self.neg_risk_adapter {
            None => Err(
                "NegRisk adapter not available. Use Client::with_neg_risk() to enable NegRisk support"@,
            ),
            Some(adapter) => Ok(
                (
                    adapter,
                    TransactionCallView::RedeemNegRisk {
                        condition_id: request.condition_id,
                        amounts: request.amounts@,
                    },
                ),
            ),
        }
    }

    pub open spec fn convert(self, market_id: B256, index_set: U256, amount: U256) -> Result<
        CallTo,
        Seq<char>,
    > {
        match self.v2_neg_risk_wrapper {
            None => Err(
                "convert_positions requires a V2 neg-risk wrapper client; construct with Client::with_v2_neg_risk_wrapper(provider, address)"@,
            ),
            Some(wrapper) => Ok(
                (wrapper, TransactionCallView::ConvertPositions { market_id, index_set, amount }),
            ),
        }
    }
}

/// `result` is a client bound as `expected` says, or an error of that text.
pub open spec fn binds<P>(
    result: Result<Client<P>, CtfError>,
    expected: Result<ClientView<P>, Seq<char>>,
) -> bool {
    match expected {
        Ok(view) => result is Ok && result->Ok_0@ == view,
        Err(text) => result is Err && result->Err_0 is ContractCall && result->Err_0.text() == text,
    }
}

/// `transaction` makes the call `expected`.
pub open spec fn makes<O>(transaction: Transaction<O>, expected: CallTo) -> bool {
    transaction.to == expected.0 && transaction.call@ == expected.1
}

/// `result` is a transaction that makes the call `expected`, or an error of that text.
pub open spec fn offers<O>(
    result: Result<Transaction<O>, CtfError>,
    expected: Result<CallTo, Seq<char>>,
) -> bool {
    match expected {
        Ok(call) => result is Ok && makes(result->Ok_0, call),
        Err(text) => result is Err && result->Err_0 is ContractCall && result->Err_0.text() == text,
    }
}

impl<P> Client<P> {
    /// Creates a client for the conditional tokens contract of a chain.
    ///
    /// It is an error if the chain is not Polygon and no contracts are listed for it.
    pub fn new(provider: P, chain_id: u64, deployments: &Vec<Deployment>) -> (r: Result<
        Self,
        CtfError,
    >)
        ensures
            binds(r, plain_client(provider, chain_id, deployed(deployments@, chain_id, false))),
    {
        match contract_config(deployments, chain_id, false) {
            None => Err(
                CtfError::contract_call(
                    "CTF contract configuration not found for chain ID ",
                    decimal_string(chain_id).as_str(),
                ),
            ),
            Some(config) => Ok(
                Client {
                    contract: config.conditional_tokens,
                    neg_risk_adapter: None,
                    v2_neg_risk_wrapper: None,
                    provider,
                },
            ),
        }
    }

    /// Creates a client that can also redeem positions of negative-risk markets.
    ///
    /// It is an error if no negative-risk contracts are listed for the chain, or if
    /// those that are listed have no adapter.
    pub fn with_neg_risk(provider: P, chain_id: u64, deployments: &Vec<Deployment>) -> (r: Result<
        Self,
        CtfError,
    >)
        ensures
            binds(r, neg_risk_client(provider, chain_id, deployed(deployments@, chain_id, true))),
    {
        match contract_config(deployments, chain_id, true) {
            None => Err(
                CtfError::contract_call(
                    "NegRisk contract configuration not found for chain ID ",
                    decimal_string(chain_id).as_str(),
                ),
            ),
            Some(config) => match config.neg_risk_adapter {
                None => Err(
                    CtfError::contract_call(
                        "NegRisk adapter not configured for chain ID ",
                        decimal_string(chain_id).as_str(),
                    ),
                ),
                Some(adapter) => Ok(
                    Client {
                        contract: config.conditional_tokens,
                        neg_risk_adapter: Some(adapter),
                        v2_neg_risk_wrapper: None,
                        provider,
                    },
                ),
            },
        }
    }

    /// Creates a client for a V2 collateral wrapper, which takes splits, merges and
    /// redemptions at its own address.
    #[must_use]
    pub fn with_v2_wrapper(provider: P, wrapper_address: Address) -> (r: Self)
        ensures
            r@ == v2_client(provider, wrapper_address),
    {
        Client {
            contract: wrapper_address,
            neg_risk_adapter: None,
            v2_neg_risk_wrapper: None,
            provider,
        }
    }

    /// Creates a client for the V2 negative-risk wrapper, which takes conversions
    /// besides splits, merges and redemptions.
    #[must_use]
    pub fn with_v2_neg_risk_wrapper(provider: P, wrapper_address: Address) -> (r: Self)
        ensures
            r@ == v2_neg_risk_client(provider, wrapper_address),
    {
        Client {
            contract: wrapper_address,
            neg_risk_adapter: None,
            v2_neg_risk_wrapper: Some(wrapper_address),
            provider,
        }
    }

    /// Converts a position on the outcomes in `index_set` into the one on the others.
    ///
    /// It is an error if the client was not made for the V2 negative-risk wrapper.
    pub fn convert_positions(&self, market_id: B256, index_set: U256, amount: U256) -> (r: Result<
        Transaction<ConvertPositions>,
        CtfError,
    >)
        ensures
            offers(r, self@.convert(market_id, index_set, amount)),
            r is Ok <==> self@.v2_neg_risk_wrapper is Some,
            r matches Ok(transaction) ==> {
                &&& transaction.to == self@.v2_neg_risk_wrapper->0
                &&& transaction.call == (TransactionCall::ConvertPositions {
                    market_id,
                    index_set,
                    amount,
                })
            },
    {
        match self.v2_neg_risk_wrapper {
            None => Err(
                CtfError::ContractCall(
                    "convert_positions requires a V2 neg-risk wrapper client; construct with Client::with_v2_neg_risk_wrapper(provider, address)".to_owned(),
                ),
            ),
            Some(wrapper) => Ok(
                Transaction::new(
                    wrapper,
                    TransactionCall::ConvertPositions { market_id, index_set, amount },
                ),
            ),
        }
    }

    /// Asks for the ID of the condition of an oracle, a question and a number of outcomes.
    pub fn condition_id(&self, request: &ConditionIdRequest) -> (r: GetConditionId)
        ensures
            r == (GetConditionId {
                to: self@.contract,
                oracle: request.oracle,
                question_id: request.question_id,
                outcome_slot_count: request.outcome_slot_count,
            }),
    {
        GetConditionId {
            to: self.contract,
            oracle: request.oracle,
            question_id: request.question_id,
            outcome_slot_count: request.outcome_slot_count,
        }
    }

    /// Asks for the ID of a collection of outcomes of a condition.
    pub fn collection_id(&self, request: &CollectionIdRequest) -> (r: GetCollectionId)
        ensures
            r == (GetCollectionId {
                to: self@.contract,
                parent_collection_id: request.parent_collection_id,
                condition_id: request.condition_id,
                index_set: request.index_set,
            }),
    {
        GetCollectionId {
            to: self.contract,
            parent_collection_id: request.parent_collection_id,
            condition_id: request.condition_id,
            index_set: request.index_set,
        }
    }

    /// Asks for the ID of the token of a collection, backed by a collateral token.
    pub fn position_id(&self, request: &PositionIdRequest) -> (r: GetPositionId)
        ensures
            r == (GetPositionId {
                to: self@.contract,
                collateral_token: request.collateral_token,
                collection_id: request.collection_id,
            }),
    {
        GetPositionId {
            to: self.contract,
            collateral_token: request.collateral_token,
            collection_id: request.collection_id,
        }
    }

    /// Splits collateral into outcome tokens.
    pub fn split_position(&self, request: &SplitPositionRequest) -> (r: Transaction<SplitPosition>)
        ensures
            makes(r, self@.split(*request)),
            r.to == self@.contract,
            r.call matches TransactionCall::SplitPosition {
                collateral_token,
                parent_collection_id,
                condition_id,
                partition,
                amount,
            } && collateral_token == request.collateral_token && parent_collection_id
                == request.parent_collection_id && condition_id == request.condition_id
                && partition@ == request.partition@ && amount == request.amount,
    {
        Transaction::new(
            self.contract,
            TransactionCall::SplitPosition {
                collateral_token: request.collateral_token,
                parent_collection_id: request.parent_collection_id,
                condition_id: request.condition_id,
                partition: copied(&request.partition),
                amount: request.amount,
            },
        )
    }

    /// Merges outcome tokens back into collateral.
    pub fn merge_positions(&self, request: &MergePositionsRequest) -> (r: Transaction<
        MergePositions,
    >)
        ensures
            makes(r, self@.merge(*request)),
            r.to == self@.contract,
            r.call matches TransactionCall::MergePositions {
                collateral_token,
                parent_collection_id,
                condition_id,
                partition,
                amount,
            } && collateral_token == request.collateral_token && parent_collection_id
                == request.parent_collection_id && condition_id == request.condition_id
                && partition@ == request.partition@ && amount == request.amount,
    {
        Transaction::new(
            self.contract,
            TransactionCall::MergePositions {
                collateral_token: request.collateral_token,
                parent_collection_id: request.parent_collection_id,
                condition_id: request.condition_id,
                partition: copied(&request.partition),
                amount: request.amount,
            },
        )
    }

    /// Redeems the winning outcome tokens of a resolved condition.
    pub fn redeem_positions(&self, request: &RedeemPositionsRequest) -> (r: Transaction<
        RedeemPositions,
    >)
        ensures
            makes(r, self@.redeem(*request)),
            r.to == self@.contract,
            r.call matches TransactionCall::RedeemPositions {
                collateral_token,
                parent_collection_id,
                condition_id,
                index_sets,
            } && collateral_token == request.collateral_token && parent_collection_id
                == request.parent_collection_id && condition_id == request.condition_id
                && index_sets@ == request.index_sets@,
    {
        Transaction::new(
            self.contract,
            TransactionCall::RedeemPositions {
                collateral_token: request.collateral_token,
                parent_collection_id: request.parent_collection_id,
                condition_id: request.condition_id,
                index_sets: copied(&request.index_sets),
            },
        )
    }

    /// Redeems given amounts of the outcome tokens of a negative-risk market.
    ///
    /// It is an error if the client was not made with [`Client::with_neg_risk`].
    pub fn redeem_neg_risk(&self, request: &RedeemNegRiskRequest) -> (r: Result<
        Transaction<RedeemNegRisk>,
        CtfError,
    >)
        ensures
            offers(r, self@.redeem_by_amount(*request)),
            r is Ok <==> self@.neg_risk_adapter is Some,
            r matches Ok(transaction) ==> {
                &&& transaction.to == self@.neg_risk_adapter->0
                &&& transaction.call matches TransactionCall::RedeemNegRisk {
                    condition_id,
                    amounts,
                } && condition_id == request.condition_id && amounts@ == request.amounts@
            },
    {
        match self.neg_risk_adapter {
            None => Err(
                CtfError::ContractCall(
                    "NegRisk adapter not available. Use Client::with_neg_risk() to enable NegRisk support".to_owned(),
                ),
            ),
            Some(adapter) => Ok(
                Transaction::new(
                    adapter,
                    TransactionCall::RedeemNegRisk {
                        condition_id: request.condition_id,
                        amounts: copied(&request.amounts),
                    },
                ),
            ),
        }
    }

    /// The provider that the client was made with.
    #[must_use]
    pub fn provider(&self) -> (r: &P)
        ensures
            *r == self@.provider,
    {
        &self.provider
    }
}

} // verus!
