//! What holds of the client as a whole.

use crate::ctf::calls::{TransactionCall, TransactionCallView};
use crate::ctf::client::{
    binds, makes, neg_risk_client, offers, plain_client, v2_client, v2_neg_risk_client, Client,
    ClientView,
};
use crate::ctf::config::{deployed, ContractConfig, Deployment};
use crate::ctf::error::{answers, CtfError};
use crate::ctf::transaction::{
    hash_text, ConvertPositions, MergePositions, Operation, RedeemNegRisk, RedeemPositions,
    SplitPosition, Transaction,
};
use crate::ctf::types::{
    Address, B256, MergePositionsRequest, Receipt, RedeemNegRiskRequest, RedeemPositionsRequest,
    SplitPositionRequest, U256,
};
use crate::text::{decimal, hex};
use vstd::prelude::*;

verus! {

/// What an operation answers, from what came of sending its transaction and what came
/// of waiting for the receipt.
pub open spec fn outcome<O: Operation>(
    sent: Result<B256, Seq<char>>,
    receipt: Result<Receipt, Seq<char>>,
) -> Result<O::Response, Seq<char>> {
    match sent {
        Err(error) => Err(O::send_failure() + error),
        Ok(hash) => match receipt {
            Err(error) => Err(O::receipt_failure() + error),
            Ok(receipt) => O::answer(hash, receipt),
        },
    }
}

/// A transaction was sent, and was mined, in a known block, without being reverted.
pub open spec fn took_effect(
    sent: Result<B256, Seq<char>>,
    receipt: Result<Receipt, Seq<char>>,
) -> bool {
    &&& sent is Ok
    &&& receipt is Ok
    &&& receipt->Ok_0.status
    &&& receipt->Ok_0.block_number is Some
}

/// Splits, merges and both redemptions succeed exactly when their transaction took
/// effect, and then answer with the hash that it was sent as and the block of its
/// receipt.
pub proof fn law_success_is_effect(
    sent: Result<B256, Seq<char>>,
    receipt: Result<Receipt, Seq<char>>,
)
    ensures
        outcome::<SplitPosition>(sent, receipt) is Ok <==> took_effect(sent, receipt),
        outcome::<MergePositions>(sent, receipt) is Ok <==> took_effect(sent, receipt),
        outcome::<RedeemPositions>(sent, receipt) is Ok <==> took_effect(sent, receipt),
        outcome::<RedeemNegRisk>(sent, receipt) is Ok <==> took_effect(sent, receipt),
        took_effect(sent, receipt) ==> {
            let hash = sent->Ok_0;
            let block = receipt->Ok_0.block_number->0;
            let split = outcome::<SplitPosition>(sent, receipt)->Ok_0;
            let merge = outcome::<MergePositions>(sent, receipt)->Ok_0;
            let redeem = outcome::<RedeemPositions>(sent, receipt)->Ok_0;
            let neg_risk = outcome::<RedeemNegRisk>(sent, receipt)->Ok_0;
            &&& split.transaction_hash == hash && split.block_number == block
            &&& merge.transaction_hash == hash && merge.block_number == block
            &&& redeem.transaction_hash == hash && redeem.block_number == block
            &&& neg_risk.transaction_hash == hash && neg_risk.block_number == block
        },
{
}

/// On Polygon, which is chain 137, a plain client is bound to the conditional tokens contract at
/// 0x4D97DCd97eC945f40cF65F87097ACe5EA0476045, whatever other contracts are listed.
pub proof fn law_the_contract_on_polygon<P>(provider: P, deployments: Seq<Deployment>)
    ensures
        ({
            let client = plain_client(provider, 137, deployed(deployments, 137, false));
            &&& client is Ok
            &&& hex(client->Ok_0.contract.bytes@) == "4d97dcd97ec945f40cf65f87097ace5ea0476045"@
            &&& client->Ok_0.provider == provider
        }),
{
    reveal_strlit("4d97dcd97ec945f40cf65f87097ace5ea0476045");
}

/// A conversion succeeds exactly when its transaction was sent and was mined without
/// being reverted, and then answers with the hash of the receipt.
pub proof fn law_conversion_success(
    sent: Result<B256, Seq<char>>,
    receipt: Result<Receipt, Seq<char>>,
)
    ensures
        outcome::<ConvertPositions>(sent, receipt) is Ok <==> {
            sent is Ok && receipt is Ok && receipt->Ok_0.status
        },
        outcome::<ConvertPositions>(sent, receipt) is Ok ==> outcome::<ConvertPositions>(
            sent,
            receipt,
        ) == Ok::<B256, Seq<char>>(receipt->Ok_0.transaction_hash),
{
}

/// Only a client of the V2 negative-risk wrapper converts positions, and it does so at
/// that wrapper. Every other client refuses.
pub proof fn law_conversion_needs_the_neg_risk_wrapper<P>(
    provider: P,
    chain_id: u64,
    config: Option<ContractConfig>,
    address: Address,
    market_id: B256,
    index_set: U256,
    amount: U256,
)
    ensures
        plain_client(provider, chain_id, config) matches Ok(client) ==> client.convert(
            market_id,
            index_set,
            amount,
        ) is Err,
        neg_risk_client(provider, chain_id, config) matches Ok(client) ==> client.convert(
            market_id,
            index_set,
            amount,
        ) is Err,
        v2_client(provider, address).convert(market_id, index_set, amount) is Err,
        v2_neg_risk_client(provider, address).convert(market_id, index_set, amount) == Ok::<
            (Address, TransactionCallView),
            Seq<char>,
        >((address, TransactionCallView::ConvertPositions { market_id, index_set, amount })),
{
}

/// Only a client made for negative-risk markets redeems by amount, and it does so at the
/// adapter of its chain. Every other client refuses.
pub proof fn law_redeeming_by_amount_needs_the_adapter<P>(
    provider: P,
    chain_id: u64,
    config: Option<ContractConfig>,
    address: Address,
    request: RedeemNegRiskRequest,
)
    ensures
        plain_client(provider, chain_id, config) matches Ok(client) ==> client.redeem_by_amount(
            request,
        ) is Err,
        neg_risk_client(provider, chain_id, config) matches Ok(client) ==> {
            &&& config is Some
            &&& config->0.neg_risk_adapter is Some
            &&& client.redeem_by_amount(request) is Ok
            &&& client.redeem_by_amount(request)->Ok_0.0 == config->0.neg_risk_adapter->0
        },
        v2_client(provider, address).redeem_by_amount(request) is Err,
        v2_neg_risk_client(provider, address).redeem_by_amount(request) is Err,
{
}

/// The clients of the two V2 wrappers do the same with splits, merges, redemptions and
/// the contract that IDs are asked of.
pub proof fn law_v2_clients_agree<P>(
    provider: P,
    address: Address,
    split: SplitPositionRequest,
    merge: MergePositionsRequest,
    redeem: RedeemPositionsRequest,
)
    ensures
        v2_client(provider, address).split(split) == v2_neg_risk_client(provider, address).split(
            split,
        ),
        v2_client(provider, address).merge(merge) == v2_neg_risk_client(provider, address).merge(
            merge,
        ),
        v2_client(provider, address).redeem(redeem) == v2_neg_risk_client(
            provider,
            address,
        ).redeem(redeem),
        v2_client(provider, address).contract == v2_neg_risk_client(provider, address).contract,
        v2_client(provider, address).contract == address,
{
}

/// A client made for negative-risk markets differs from a plain one of the same contract
/// in nothing but its adapter.
pub proof fn law_neg_risk_client_splits_as_the_plain_one<P>(
    provider: P,
    chain_id: u64,
    config: ContractConfig,
    split: SplitPositionRequest,
    merge: MergePositionsRequest,
    redeem: RedeemPositionsRequest,
)
    requires
        config.neg_risk_adapter is Some,
    ensures
        plain_client(provider, chain_id, Some(config)) is Ok,
        neg_risk_client(provider, chain_id, Some(config)) is Ok,
        ({
            let plain = plain_client(provider, chain_id, Some(config))->Ok_0;
            let neg_risk = neg_risk_client(provider, chain_id, Some(config))->Ok_0;
            &&& plain.split(split) == neg_risk.split(split)
            &&& plain.merge(merge) == neg_risk.merge(merge)
            &&& plain.redeem(redeem) == neg_risk.redeem(redeem)
            &&& plain.contract == neg_risk.contract
        }),
{
}

/// Merging what was split makes the opposite call at the same contract, with the same
/// collateral, collection, condition, partition and amount.
pub proof fn law_merge_mirrors_split<P>(
    client: ClientView<P>,
    split: SplitPositionRequest,
    merge: MergePositionsRequest,
)
    requires
        merge.collateral_token == split.collateral_token,
        merge.parent_collection_id == split.parent_collection_id,
        merge.condition_id == split.condition_id,
        merge.partition@ == split.partition@,
        merge.amount == split.amount,
    ensures
        client.merge(merge).0 == client.split(split).0,
        client.split(split).1 matches TransactionCallView::SplitPosition {
            collateral_token,
            parent_collection_id,
            condition_id,
            partition,
            amount,
        } && client.merge(merge).1 == (TransactionCallView::MergePositions {
            collateral_token,
            parent_collection_id,
            condition_id,
            partition,
            amount,
        }),
{
}

// ---- What a call carries ----

/// The call of a split goes to the contract of the client, and carries the collateral token,
/// the parent collection, the condition, the partition and the amount of the request, each as
/// it is.
pub proof fn law_split_carries_its_request<P, O>(
    client: ClientView<P>,
    request: SplitPositionRequest,
    transaction: Transaction<O>,
)
    requires
        makes(transaction, client.split(request)),
    ensures
        transaction.to == client.contract,
        transaction.call matches TransactionCall::SplitPosition {
            collateral_token,
            parent_collection_id,
            condition_id,
            partition,
            amount,
        } && {
            &&& collateral_token == request.collateral_token
            &&& parent_collection_id == request.parent_collection_id
            &&& condition_id == request.condition_id
            &&& partition@ == request.partition@
            &&& amount == request.amount
        },
{
}

/// The call of a merge goes to the contract of the client, and carries the collateral token,
/// the parent collection, the condition, the partition and the amount of the request, each as
/// it is.
pub proof fn law_merge_carries_its_request<P, O>(
    client: ClientView<P>,
    request: MergePositionsRequest,
    transaction: Transaction<O>,
)
    requires
        makes(transaction, client.merge(request)),
    ensures
        transaction.to == client.contract,
        transaction.call matches TransactionCall::MergePositions {
            collateral_token,
            parent_collection_id,
            condition_id,
            partition,
            amount,
        } && {
            &&& collateral_token == request.collateral_token
            &&& parent_collection_id == request.parent_collection_id
            &&& condition_id == request.condition_id
            &&& partition@ == request.partition@
            &&& amount == request.amount
        },
{
}

/// The call of a redemption goes to the contract of the client, and carries the collateral
/// token, the parent collection, the condition and the index sets of the request: all of
/// them, in order, whatever their number.
pub proof fn law_redeem_carries_its_request<P, O>(
    client: ClientView<P>,
    request: RedeemPositionsRequest,
    transaction: Transaction<O>,
)
    requires
        makes(transaction, client.redeem(request)),
    ensures
        transaction.to == client.contract,
        transaction.call matches TransactionCall::RedeemPositions {
            collateral_token,
            parent_collection_id,
            condition_id,
            index_sets,
        } && {
            &&& collateral_token == request.collateral_token
            &&& parent_collection_id == request.parent_collection_id
            &&& condition_id == request.condition_id
            &&& index_sets@.len() == request.index_sets@.len()
            &&& forall|i: int|
                0 <= i < request.index_sets@.len() ==> index_sets@[i] == #[trigger] request.index_sets@[i]
        },
{
}

/// A redemption by amount is offered exactly by a client with an adapter. Its call goes to
/// that adapter, and carries the condition and all the amounts of the request, in order.
pub proof fn law_redeem_by_amount_carries_its_request<P, O>(
    client: ClientView<P>,
    request: RedeemNegRiskRequest,
    result: Result<Transaction<O>, CtfError>,
)
    requires
        offers(result, client.redeem_by_amount(request)),
    ensures
        result is Ok <==> client.neg_risk_adapter is Some,
        result matches Ok(transaction) ==> {
            &&& Some(transaction.to) == client.neg_risk_adapter
            &&& transaction.call matches TransactionCall::RedeemNegRisk { condition_id, amounts }
                && condition_id == request.condition_id && amounts@ == request.amounts@
        },
        result matches Err(error) ==> error is ContractCall && error.text()
            == "NegRisk adapter not available. Use Client::with_neg_risk() to enable NegRisk support"@,
{
}

/// A conversion is offered exactly by a client with a wrapper. Its call goes to that wrapper,
/// and carries the market, the index set and the amount that were asked for.
pub proof fn law_convert_carries_its_request<P, O>(
    client: ClientView<P>,
    market_id: B256,
    index_set: U256,
    amount: U256,
    result: Result<Transaction<O>, CtfError>,
)
    requires
        offers(result, client.convert(market_id, index_set, amount)),
    ensures
        result is Ok <==> client.v2_neg_risk_wrapper is Some,
        result matches Ok(transaction) ==> {
            &&& Some(transaction.to) == client.v2_neg_risk_wrapper
            &&& transaction.call == (TransactionCall::ConvertPositions {
                market_id,
                index_set,
                amount,
            })
        },
        result matches Err(error) ==> error is ContractCall && error.text()
            == "convert_positions requires a V2 neg-risk wrapper client; construct with Client::with_v2_neg_risk_wrapper(provider, address)"@,
{
}

// ---- What a client is bound to ----

/// A plain client is had exactly where contracts are known for the chain. It is bound to the
/// conditional tokens contract of those, to no adapter and no wrapper, and to its provider.
/// Where no contracts are known the error tells the chain.
pub proof fn law_what_a_plain_client_is_bound_to<P>(
    provider: P,
    chain_id: u64,
    config: Option<ContractConfig>,
    result: Result<Client<P>, CtfError>,
)
    requires
        binds(result, plain_client(provider, chain_id, config)),
    ensures
        result is Ok <==> config is Some,
        result matches Ok(client) ==> {
            &&& client@.contract == config->0.conditional_tokens
            &&& client@.neg_risk_adapter is None
            &&& client@.v2_neg_risk_wrapper is None
            &&& client@.provider == provider
        },
        result matches Err(error) ==> error is ContractCall && error.text()
            == "CTF contract configuration not found for chain ID "@ + decimal(chain_id as nat),
{
}

/// A negative-risk client is had exactly where contracts with an adapter are known for the
/// chain. It is bound to the conditional tokens contract and the adapter of those, to no
/// wrapper, and to its provider. Otherwise the error tells what is missing, and the chain.
pub proof fn law_what_a_neg_risk_client_is_bound_to<P>(
    provider: P,
    chain_id: u64,
    config: Option<ContractConfig>,
    result: Result<Client<P>, CtfError>,
)
    requires
        binds(result, neg_risk_client(provider, chain_id, config)),
    ensures
        result is Ok <==> config is Some && config->0.neg_risk_adapter is Some,
        result matches Ok(client) ==> {
            &&& client@.contract == config->0.conditional_tokens
            &&& client@.neg_risk_adapter == config->0.neg_risk_adapter
            &&& client@.v2_neg_risk_wrapper is None
            &&& client@.provider == provider
        },
        result matches Err(error) ==> error is ContractCall && error.text() == if config is Some {
            "NegRisk adapter not configured for chain ID "@ + decimal(chain_id as nat)
        } else {
            "NegRisk contract configuration not found for chain ID "@ + decimal(chain_id as nat)
        },
{
}

/// The clients of the V2 wrappers are bound to the address that they were given, and to
/// nothing else but their provider.
pub proof fn law_what_a_v2_client_is_bound_to<P>(provider: P, address: Address)
    ensures
        v2_client(provider, address).contract == address,
        v2_client(provider, address).neg_risk_adapter is None,
        v2_client(provider, address).v2_neg_risk_wrapper is None,
        v2_client(provider, address).provider == provider,
        v2_neg_risk_client(provider, address).contract == address,
        v2_neg_risk_client(provider, address).neg_risk_adapter is None,
        v2_neg_risk_client(provider, address).v2_neg_risk_wrapper == Some(address),
        v2_neg_risk_client(provider, address).provider == provider,
{
}

/// But for ordinary markets on Polygon, the contracts of a chain and a kind of market are
/// those of the first deployment that is listed for them.
pub proof fn law_the_first_deployment_listed_counts(
    deployments: Seq<Deployment>,
    chain_id: u64,
    neg_risk: bool,
    i: int,
)
    requires
        chain_id != 137 || neg_risk,
        0 <= i < deployments.len(),
        deployments[i].chain_id == chain_id && deployments[i].neg_risk == neg_risk,
        forall|j: int|
            0 <= j < i ==> (#[trigger] deployments[j]).chain_id != chain_id
                || deployments[j].neg_risk != neg_risk,
    ensures
        deployed(deployments, chain_id, neg_risk) == Some(deployments[i].config),
    decreases i,
{
    if i > 0 {
        assert(deployments[0].chain_id != chain_id || deployments[0].neg_risk != neg_risk);
        law_the_first_deployment_listed_counts(deployments.drop_first(), chain_id, neg_risk, i - 1);
    }
}

/// But for ordinary markets on Polygon, no contracts are known of a chain and a kind of
/// market for which no deployment is listed.
pub proof fn law_what_is_not_listed_is_not_known(
    deployments: Seq<Deployment>,
    chain_id: u64,
    neg_risk: bool,
)
    requires
        chain_id != 137 || neg_risk,
        forall|j: int|
            0 <= j < deployments.len() ==> (#[trigger] deployments[j]).chain_id != chain_id
                || deployments[j].neg_risk != neg_risk,
    ensures
        deployed(deployments, chain_id, neg_risk) is None,
    decreases deployments.len(),
{
    if deployments.len() > 0 {
        assert(deployments[0].chain_id != chain_id || deployments[0].neg_risk != neg_risk);
        law_what_is_not_listed_is_not_known(deployments.drop_first(), chain_id, neg_risk);
    }
}

// ---- What is answered ----

/// An answer is what was expected: that very value, or a failed contract call of that very
/// text.
pub proof fn law_answers_are_exact<T>(
    result: Result<T, CtfError>,
    expected: Result<T, Seq<char>>,
)
    requires
        answers(result, expected),
    ensures
        result is Ok <==> expected is Ok,
        result is Ok ==> result->Ok_0 == expected->Ok_0,
        result matches Err(CtfError::ContractCall(text)) ==> text@ == expected->Err_0,
{
}

/// The text of an error is the one that it carries.
pub proof fn law_the_text_of_an_error(text: String)
    ensures
        CtfError::ContractCall(text).text() == text@,
{
}

/// A transaction that cannot be sent, and a receipt that cannot be had, are told in the words
/// of the operation, followed by the error.
pub proof fn law_failures_are_told(error: Seq<char>, sent: B256, receipt: Result<Receipt, Seq<char>>)
    ensures
        outcome::<SplitPosition>(Err(error), receipt) matches Err(text) && text
            == "Failed to send split transaction: "@ + error,
        outcome::<MergePositions>(Err(error), receipt) matches Err(text) && text
            == "Failed to send merge transaction: "@ + error,
        outcome::<RedeemPositions>(Err(error), receipt) matches Err(text) && text
            == "Failed to send redeem transaction: "@ + error,
        outcome::<RedeemNegRisk>(Err(error), receipt) matches Err(text) && text
            == "Failed to send NegRisk redeem transaction: "@ + error,
        outcome::<ConvertPositions>(Err(error), receipt) matches Err(text) && text
            == "convertPositions send: "@ + error,
        outcome::<SplitPosition>(Ok(sent), Err(error)) matches Err(text) && text
            == "Failed to get split receipt: "@ + error,
        outcome::<MergePositions>(Ok(sent), Err(error)) matches Err(text) && text
            == "Failed to get merge receipt: "@ + error,
        outcome::<RedeemPositions>(Ok(sent), Err(error)) matches Err(text) && text
            == "Failed to get redeem receipt: "@ + error,
        outcome::<RedeemNegRisk>(Ok(sent), Err(error)) matches Err(text) && text
            == "Failed to get NegRisk redeem receipt: "@ + error,
        outcome::<ConvertPositions>(Ok(sent), Err(error)) matches Err(text) && text
            == "convertPositions receipt: "@ + error,
{
}

/// A receipt without a block number is an error of a split, a merge and both redemptions,
/// whether or not the transaction was reverted.
pub proof fn law_a_receipt_needs_a_block(sent: B256, receipt: Receipt)
    requires
        receipt.block_number is None,
    ensures
        outcome::<SplitPosition>(Ok(sent), Ok(receipt)) matches Err(text) && text
            == "Block number not available in receipt"@,
        outcome::<MergePositions>(Ok(sent), Ok(receipt)) matches Err(text) && text
            == "Block number not available in receipt"@,
        outcome::<RedeemPositions>(Ok(sent), Ok(receipt)) matches Err(text) && text
            == "Block number not available in receipt"@,
        outcome::<RedeemNegRisk>(Ok(sent), Ok(receipt)) matches Err(text) && text
            == "Block number not available in receipt"@,
{
}

/// A transaction that was mined and reverted is an error of every operation, and the error
/// tells the hash of the receipt.
pub proof fn law_a_reverted_transaction_is_told(sent: B256, receipt: Receipt)
    requires
        !receipt.status,
    ensures
        outcome::<ConvertPositions>(Ok(sent), Ok(receipt)) matches Err(text) && text
            == "convertPositions tx reverted: "@ + hash_text(receipt.transaction_hash),
        receipt.block_number is Some ==> {
            &&& outcome::<SplitPosition>(Ok(sent), Ok(receipt)) matches Err(text) && text
            == "splitPosition tx reverted: "@ + hash_text(receipt.transaction_hash)
            &&& outcome::<MergePositions>(Ok(sent), Ok(receipt)) matches Err(text) && text
            == "mergePositions tx reverted: "@ + hash_text(receipt.transaction_hash)
            &&& outcome::<RedeemPositions>(Ok(sent), Ok(receipt)) matches Err(text) && text
            == "redeemPositions tx reverted: "@ + hash_text(receipt.transaction_hash)
            &&& outcome::<RedeemNegRisk>(Ok(sent), Ok(receipt)) matches Err(text) && text
            == "NegRisk redeemPositions tx reverted: "@ + hash_text(receipt.transaction_hash)
        },
{
}

/// A hash is told as `0x` and its bytes in hexadecimal.
pub proof fn law_a_hash_is_told_in_full(hash: B256)
    ensures
        hash_text(hash).len() == 66,
        hash_text(hash)[0] == '0',
        hash_text(hash)[1] == 'x',
        hash_text(hash).skip(2) == hex(hash.bytes@),
{
    reveal_strlit("0x");
    assert(hash_text(hash).skip(2) =~= hex(hash.bytes@));
}

} // verus!
