use polymarket_core::ctf::calls::{GetCollectionId, GetConditionId, GetPositionId, TransactionCall};
use polymarket_core::ctf::client::Client;
use polymarket_core::ctf::config::{contract_config, ContractConfig, Deployment};
use polymarket_core::ctf::error::CtfError;
use polymarket_core::ctf::transaction::{hash_string, Operation, Transaction};
use polymarket_core::ctf::types::{
    Address, CollectionIdRequest, CollectionIdResponse, ConditionIdRequest, ConditionIdResponse,
    MergePositionsRequest, MergePositionsResponse, PositionIdRequest, PositionIdResponse, Receipt,
    RedeemNegRiskRequest, RedeemNegRiskResponse, RedeemPositionsRequest, RedeemPositionsResponse,
    SplitPositionRequest, SplitPositionResponse, B256, U256,
};
use polymarket_core::text::{decimal_string, hex_string};

/// The conditional tokens contract on Polygon.
const CTF: Address = Address {
    bytes: [
        0x4d, 0x97, 0xdc, 0xd9, 0x7e, 0xc9, 0x45, 0xf4, 0x0c, 0xf6, 0x5f, 0x87, 0x09, 0x7a, 0xce,
        0x5e, 0xa0, 0x47, 0x60, 0x45,
    ],
};
const ADAPTER: Address = Address { bytes: [0xad; 20] };
const WRAPPER: Address = Address { bytes: [0x77; 20] };

fn address(byte: u8) -> Address {
    Address { bytes: [byte; 20] }
}

fn word(byte: u8) -> B256 {
    B256 { bytes: [byte; 32] }
}

fn number(value: u8) -> U256 {
    let mut bytes = [0u8; 32];
    bytes[31] = value;
    U256 { bytes }
}

fn deployments() -> Vec<Deployment> {
    let plain = ContractConfig { conditional_tokens: CTF, neg_risk_adapter: None };
    let neg_risk = ContractConfig { conditional_tokens: CTF, neg_risk_adapter: Some(ADAPTER) };
    vec![
        Deployment { chain_id: 137, neg_risk: false, config: plain },
        Deployment { chain_id: 137, neg_risk: true, config: neg_risk },
        Deployment { chain_id: 80002, neg_risk: true, config: plain },
    ]
}

fn split_request() -> SplitPositionRequest {
    SplitPositionRequest {
        collateral_token: address(1),
        parent_collection_id: word(0),
        condition_id: word(2),
        partition: vec![number(1), number(2)],
        amount: number(100),
    }
}

fn merge_request() -> MergePositionsRequest {
    MergePositionsRequest {
        collateral_token: address(1),
        parent_collection_id: word(0),
        condition_id: word(2),
        partition: vec![number(1), number(2)],
        amount: number(100),
    }
}

fn redeem_request() -> RedeemPositionsRequest {
    RedeemPositionsRequest {
        collateral_token: address(1),
        parent_collection_id: word(0),
        condition_id: word(2),
        index_sets: vec![number(1), number(2)],
    }
}

fn neg_risk_request() -> RedeemNegRiskRequest {
    RedeemNegRiskRequest { condition_id: word(2), amounts: vec![number(7), number(0)] }
}

fn mined(status: bool, block_number: Option<u64>) -> Receipt {
    Receipt { transaction_hash: word(0xee), status, block_number }
}

fn call_error<T>(result: Result<T, CtfError>) -> String {
    match result {
        Ok(_) => panic!("an error was expected"),
        Err(CtfError::ContractCall(text)) => text,
        Err(_) => panic!("a failed contract call was expected"),
    }
}

/// Sends `transaction` as the hash 0x11.., and takes `receipt`.
fn outcome<O: Operation>(
    transaction: Transaction<O>,
    receipt: Result<Receipt, String>,
) -> Result<O::Response, CtfError> {
    let (sent, handle) = transaction.sent(Ok((word(0x11), 5u8)))?;
    assert_eq!(handle, 5);
    assert_eq!(sent.transaction_hash(), word(0x11));
    sent.mined(receipt)
}

fn send_error<O: Operation>(transaction: Transaction<O>) -> String {
    call_error(transaction.sent::<()>(Err("no route".to_owned())))
}

#[test]
fn decimal_has_no_leading_zeros() {
    assert_eq!(decimal_string(0), "0");
    assert_eq!(decimal_string(9), "9");
    assert_eq!(decimal_string(10), "10");
    assert_eq!(decimal_string(80002), "80002");
    assert_eq!(decimal_string(u64::MAX), "18446744073709551615");
}

#[test]
fn hexadecimal_has_two_digits_a_byte() {
    assert_eq!(hex_string(&[]), "");
    assert_eq!(hex_string(&[0x00, 0x0f, 0xa0, 0xff]), "000fa0ff");
    assert_eq!(
        hash_string(&word(0xab)),
        "0xabababababababababababababababababababababababababababababababab"
    );
}

#[test]
fn hash_reads_as_alloy_writes_it() {
    let mut bytes = [0u8; 32];
    for (i, byte) in bytes.iter_mut().enumerate() {
        *byte = (i as u8).wrapping_mul(37).wrapping_add(5);
    }
    let expected = format!("{:#x}", alloy::primitives::B256::from(bytes));
    assert_eq!(hash_string(&B256 { bytes }), expected);
}

#[test]
fn contracts_are_looked_up_by_chain_and_market() {
    let deployments = deployments();
    assert_eq!(contract_config(&deployments, 137, false).unwrap().neg_risk_adapter, None);
    assert_eq!(contract_config(&deployments, 137, true).unwrap().neg_risk_adapter, Some(ADAPTER));
    assert!(contract_config(&deployments, 80002, false).is_none());
    assert!(contract_config(&deployments, 1, true).is_none());
}

#[test]
fn plain_client_is_bound_to_the_contract_of_its_chain() {
    let client = Client::new("provider", 137, &deployments()).unwrap();
    assert_eq!(client.split_position(&split_request()).to, CTF);
    assert_eq!(*client.provider(), "provider");
    assert_eq!(*client.clone().provider(), "provider");
}

#[test]
fn polygon_needs_no_listing() {
    let client = Client::new("provider", 137, &Vec::new()).unwrap();
    let to = client.split_position(&split_request()).to;
    assert_eq!(format!("0x{}", hex_string(&to.bytes)), "0x4d97dcd97ec945f40cf65f87097ace5ea0476045");
    let other = ContractConfig { conditional_tokens: address(9), neg_risk_adapter: None };
    let listed = vec![Deployment { chain_id: 137, neg_risk: false, config: other }];
    assert_eq!(Client::new((), 137, &listed).unwrap().split_position(&split_request()).to, CTF);
    assert!(contract_config(&Vec::new(), 137, true).is_none());
}

#[test]
fn listed_chain_leads_to_its_contract() {
    let config = ContractConfig { conditional_tokens: address(9), neg_risk_adapter: None };
    let listed = vec![Deployment { chain_id: 80002, neg_risk: false, config }];
    let client = Client::new((), 80002, &listed).unwrap();
    assert_eq!(client.merge_positions(&merge_request()).to, address(9));
}

#[test]
fn unknown_chain_is_an_error() {
    assert_eq!(
        call_error(Client::new((), 1, &deployments())),
        "CTF contract configuration not found for chain ID 1"
    );
    assert_eq!(
        call_error(Client::with_neg_risk((), 42, &deployments())),
        "NegRisk contract configuration not found for chain ID 42"
    );
}

#[test]
fn neg_risk_client_needs_an_adapter() {
    assert_eq!(
        call_error(Client::with_neg_risk((), 80002, &deployments())),
        "NegRisk adapter not configured for chain ID 80002"
    );
}

#[test]
fn id_queries_carry_the_request() {
    let client = Client::with_v2_wrapper((), WRAPPER);
    assert_eq!(
        client.condition_id(&ConditionIdRequest {
            oracle: address(3),
            question_id: word(4),
            outcome_slot_count: number(2),
        }),
        GetConditionId {
            to: WRAPPER,
            oracle: address(3),
            question_id: word(4),
            outcome_slot_count: number(2),
        }
    );
    assert_eq!(
        client.collection_id(&CollectionIdRequest {
            parent_collection_id: word(5),
            condition_id: word(6),
            index_set: number(3),
        }),
        GetCollectionId {
            to: WRAPPER,
            parent_collection_id: word(5),
            condition_id: word(6),
            index_set: number(3),
        }
    );
    assert_eq!(
        client.position_id(&PositionIdRequest {
            collateral_token: address(8),
            collection_id: word(9),
        }),
        GetPositionId { to: WRAPPER, collateral_token: address(8), collection_id: word(9) }
    );
}

#[test]
fn id_queries_answer_or_fail() {
    let client = Client::with_v2_wrapper((), WRAPPER);
    let condition = client.condition_id(&ConditionIdRequest {
        oracle: address(3),
        question_id: word(4),
        outcome_slot_count: number(2),
    });
    assert_eq!(
        condition.returned(Ok(word(1))).unwrap(),
        ConditionIdResponse { condition_id: word(1) }
    );
    assert_eq!(
        call_error(condition.returned(Err("timeout".to_owned()))),
        "Failed to get condition ID: timeout"
    );
    let collection = client.collection_id(&CollectionIdRequest {
        parent_collection_id: word(5),
        condition_id: word(6),
        index_set: number(3),
    });
    assert_eq!(
        collection.returned(Ok(word(2))).unwrap(),
        CollectionIdResponse { collection_id: word(2) }
    );
    assert_eq!(
        call_error(collection.returned(Err("timeout".to_owned()))),
        "Failed to get collection ID: timeout"
    );
    let position =
        client.position_id(&PositionIdRequest { collateral_token: address(8), collection_id: word(9) });
    assert_eq!(
        position.returned(Ok(number(9))).unwrap(),
        PositionIdResponse { position_id: number(9) }
    );
    assert_eq!(
        call_error(position.returned(Err("timeout".to_owned()))),
        "Failed to get position ID: timeout"
    );
}

#[test]
fn split_makes_its_call() {
    let client = Client::new((), 137, &deployments()).unwrap();
    let transaction = client.split_position(&split_request());
    assert_eq!(transaction.to, CTF);
    match transaction.call {
        TransactionCall::SplitPosition {
            collateral_token,
            parent_collection_id,
            condition_id,
            partition,
            amount,
        } => {
            assert_eq!(collateral_token, address(1));
            assert_eq!(parent_collection_id, word(0));
            assert_eq!(condition_id, word(2));
            assert_eq!(partition, vec![number(1), number(2)]);
            assert_eq!(amount, number(100));
        }
        _ => panic!("not a split"),
    }
}

#[test]
fn merge_mirrors_split() {
    let client = Client::new((), 137, &deployments()).unwrap();
    let split = client.split_position(&split_request());
    let merge = client.merge_positions(&merge_request());
    assert_eq!(split.to, merge.to);
    match (split.call, merge.call) {
        (
            TransactionCall::SplitPosition {
                collateral_token,
                parent_collection_id,
                condition_id,
                partition,
                amount,
            },
            TransactionCall::MergePositions {
                collateral_token: token,
                parent_collection_id: parent,
                condition_id: condition,
                partition: parts,
                amount: merged,
            },
        ) => {
            assert_eq!(collateral_token, token);
            assert_eq!(parent_collection_id, parent);
            assert_eq!(condition_id, condition);
            assert_eq!(partition, parts);
            assert_eq!(amount, merged);
        }
        _ => panic!("not a split and a merge"),
    }
}

#[test]
fn redeem_makes_its_call() {
    let client = Client::with_neg_risk((), 137, &deployments()).unwrap();
    let transaction = client.redeem_positions(&redeem_request());
    assert_eq!(transaction.to, CTF);
    match transaction.call {
        TransactionCall::RedeemPositions {
            collateral_token,
            parent_collection_id,
            condition_id,
            index_sets,
        } => {
            assert_eq!(collateral_token, address(1));
            assert_eq!(parent_collection_id, word(0));
            assert_eq!(condition_id, word(2));
            assert_eq!(index_sets, vec![number(1), number(2)]);
        }
        _ => panic!("not a redemption"),
    }
}

#[test]
fn redeeming_by_amount_needs_the_adapter() {
    let refusal =
        "NegRisk adapter not available. Use Client::with_neg_risk() to enable NegRisk support";
    let plain = Client::new((), 137, &deployments()).unwrap();
    assert_eq!(call_error(plain.redeem_neg_risk(&neg_risk_request())), refusal);
    let v2 = Client::with_v2_wrapper((), WRAPPER);
    assert_eq!(call_error(v2.redeem_neg_risk(&neg_risk_request())), refusal);
    let v2_neg_risk = Client::with_v2_neg_risk_wrapper((), WRAPPER);
    assert_eq!(call_error(v2_neg_risk.redeem_neg_risk(&neg_risk_request())), refusal);

    let client = Client::with_neg_risk((), 137, &deployments()).unwrap();
    let transaction = client.redeem_neg_risk(&neg_risk_request()).unwrap();
    assert_eq!(transaction.to, ADAPTER);
    match transaction.call {
        TransactionCall::RedeemNegRisk { condition_id, amounts } => {
            assert_eq!(condition_id, word(2));
            assert_eq!(amounts, vec![number(7), number(0)]);
        }
        _ => panic!("not a redemption by amount"),
    }
}

#[test]
fn converting_needs_the_neg_risk_wrapper() {
    let refusal = "convert_positions requires a V2 neg-risk wrapper client; \
                   construct with Client::with_v2_neg_risk_wrapper(provider, address)";
    let plain = Client::new((), 137, &deployments()).unwrap();
    assert_eq!(call_error(plain.convert_positions(word(1), number(2), number(3))), refusal);
    let neg_risk = Client::with_neg_risk((), 137, &deployments()).unwrap();
    assert_eq!(call_error(neg_risk.convert_positions(word(1), number(2), number(3))), refusal);
    let v2 = Client::with_v2_wrapper((), WRAPPER);
    assert_eq!(call_error(v2.convert_positions(word(1), number(2), number(3))), refusal);

    let client = Client::with_v2_neg_risk_wrapper((), WRAPPER);
    let transaction = client.convert_positions(word(1), number(2), number(3)).unwrap();
    assert_eq!(transaction.to, WRAPPER);
    match transaction.call {
        TransactionCall::ConvertPositions { market_id, index_set, amount } => {
            assert_eq!(market_id, word(1));
            assert_eq!(index_set, number(2));
            assert_eq!(amount, number(3));
        }
        _ => panic!("not a conversion"),
    }
}

#[test]
fn v2_clients_agree_on_splits_merges_and_redemptions() {
    let v2 = Client::with_v2_wrapper((), WRAPPER);
    let neg_risk = Client::with_v2_neg_risk_wrapper((), WRAPPER);
    assert_eq!(v2.split_position(&split_request()).to, WRAPPER);
    assert_eq!(neg_risk.split_position(&split_request()).to, WRAPPER);
    assert_eq!(v2.merge_positions(&merge_request()).to, WRAPPER);
    assert_eq!(neg_risk.merge_positions(&merge_request()).to, WRAPPER);
    assert_eq!(v2.redeem_positions(&redeem_request()).to, WRAPPER);
    assert_eq!(neg_risk.redeem_positions(&redeem_request()).to, WRAPPER);
}

#[test]
fn transactions_answer_with_the_hash_they_were_sent_as() {
    let client = Client::with_neg_risk((), 137, &deployments()).unwrap();
    let receipt = mined(true, Some(99));
    assert_eq!(
        outcome(client.split_position(&split_request()), Ok(receipt)).unwrap(),
        SplitPositionResponse { transaction_hash: word(0x11), block_number: 99 }
    );
    assert_eq!(
        outcome(client.merge_positions(&merge_request()), Ok(receipt)).unwrap(),
        MergePositionsResponse { transaction_hash: word(0x11), block_number: 99 }
    );
    assert_eq!(
        outcome(client.redeem_positions(&redeem_request()), Ok(receipt)).unwrap(),
        RedeemPositionsResponse { transaction_hash: word(0x11), block_number: 99 }
    );
    assert_eq!(
        outcome(client.redeem_neg_risk(&neg_risk_request()).unwrap(), Ok(receipt)).unwrap(),
        RedeemNegRiskResponse { transaction_hash: word(0x11), block_number: 99 }
    );
}

#[test]
fn conversion_answers_with_the_hash_of_the_receipt() {
    let client = Client::with_v2_neg_risk_wrapper((), WRAPPER);
    let convert = || client.convert_positions(word(1), number(2), number(3)).unwrap();
    assert_eq!(outcome(convert(), Ok(mined(true, Some(99)))).unwrap(), word(0xee));
    assert_eq!(outcome(convert(), Ok(mined(true, None))).unwrap(), word(0xee));
    assert_eq!(
        call_error(outcome(convert(), Ok(mined(false, Some(99))))),
        format!("convertPositions tx reverted: 0x{}", "ee".repeat(32))
    );
    assert_eq!(send_error(convert()), "convertPositions send: no route");
    assert_eq!(
        call_error(outcome(convert(), Err("gone".to_owned()))),
        "convertPositions receipt: gone"
    );
}

#[test]
fn failures_to_send_are_told() {
    let client = Client::with_neg_risk((), 137, &deployments()).unwrap();
    assert_eq!(
        send_error(client.split_position(&split_request())),
        "Failed to send split transaction: no route"
    );
    assert_eq!(
        send_error(client.merge_positions(&merge_request())),
        "Failed to send merge transaction: no route"
    );
    assert_eq!(
        send_error(client.redeem_positions(&redeem_request())),
        "Failed to send redeem transaction: no route"
    );
    assert_eq!(
        send_error(client.redeem_neg_risk(&neg_risk_request()).unwrap()),
        "Failed to send NegRisk redeem transaction: no route"
    );
}

#[test]
fn missing_receipts_are_told() {
    let client = Client::with_neg_risk((), 137, &deployments()).unwrap();
    let gone = || Err("gone".to_owned());
    assert_eq!(
        call_error(outcome(client.split_position(&split_request()), gone())),
        "Failed to get split receipt: gone"
    );
    assert_eq!(
        call_error(outcome(client.merge_positions(&merge_request()), gone())),
        "Failed to get merge receipt: gone"
    );
    assert_eq!(
        call_error(outcome(client.redeem_positions(&redeem_request()), gone())),
        "Failed to get redeem receipt: gone"
    );
    assert_eq!(
        call_error(outcome(client.redeem_neg_risk(&neg_risk_request()).unwrap(), gone())),
        "Failed to get NegRisk redeem receipt: gone"
    );
}

#[test]
fn receipts_without_a_block_are_errors() {
    let client = Client::with_neg_risk((), 137, &deployments()).unwrap();
    let text = "Block number not available in receipt";
    for status in [true, false] {
        let receipt = mined(status, None);
        assert_eq!(
            call_error(outcome(client.split_position(&split_request()), Ok(receipt))),
            text
        );
        assert_eq!(
            call_error(outcome(client.merge_positions(&merge_request()), Ok(receipt))),
            text
        );
        assert_eq!(
            call_error(outcome(client.redeem_positions(&redeem_request()), Ok(receipt))),
            text
        );
        assert_eq!(
            call_error(outcome(client.redeem_neg_risk(&neg_risk_request()).unwrap(), Ok(receipt))),
            text
        );
    }
}

#[test]
fn reverted_transactions_are_errors() {
    let client = Client::with_neg_risk((), 137, &deployments()).unwrap();
    let hash = format!("0x{}", "ee".repeat(32));
    let receipt = mined(false, Some(99));
    assert_eq!(
        call_error(outcome(client.split_position(&split_request()), Ok(receipt))),
        format!("splitPosition tx reverted: {hash}")
    );
    assert_eq!(
        call_error(outcome(client.merge_positions(&merge_request()), Ok(receipt))),
        format!("mergePositions tx reverted: {hash}")
    );
    assert_eq!(
        call_error(outcome(client.redeem_positions(&redeem_request()), Ok(receipt))),
        format!("redeemPositions tx reverted: {hash}")
    );
    assert_eq!(
        call_error(outcome(client.redeem_neg_risk(&neg_risk_request()).unwrap(), Ok(receipt))),
        format!("NegRisk redeemPositions tx reverted: {hash}")
    );
}
