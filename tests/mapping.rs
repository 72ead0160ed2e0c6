use blockchain::aptos::{latest_height, AptosClient};
use blockchain::chain::{AssetId, Chain};
use blockchain::decimal::{decimal_amount, fee_amount, parse_i32_or_zero, record_amount};
use blockchain::error::ProviderError;
use blockchain::model::{Block, Event, EventData, EventGuid, Ledger, Transaction as NativeTransaction};
use blockchain::transaction::{Timestamp, TransactionDirection, TransactionState, TransactionType};

fn client() -> AptosClient {
    let http = reqwest_middleware::ClientBuilder::new(reqwest::Client::new()).build();
    AptosClient::new(http, "http://localhost:8080".to_string())
}

fn event(event_type: &str, account: &str, amount: Option<&str>) -> Event {
    Event {
        guid: EventGuid { account_address: account.to_string() },
        event_type: event_type.to_string(),
        data: Some(EventData { amount: amount.map(|a| a.to_string()) }),
    }
}

fn deposit_transaction(amount: Option<&str>) -> NativeTransaction {
    NativeTransaction {
        hash: "0xabc".to_string(),
        transaction_type: "user_transaction".to_string(),
        success: true,
        sender: Some("0xCAFE".to_string()),
        sequence_number: Some("7".to_string()),
        gas_used: Some("10".to_string()),
        gas_unit_price: Some("100".to_string()),
        events: Some(vec![
            event("0x1::coin::WithdrawEvent", "0xCAFE", Some("1000")),
            event("0x1::coin::DepositEvent", "0xBEEF", amount),
        ]),
    }
}

const NOW: Timestamp = Timestamp { seconds: 1_700_000_000, nanos: 5 };

#[test]
fn deposit_transfer_is_mapped() {
    let c = client();
    let t = c.map_transaction_at(&deposit_transaction(Some("1000")), 42, NOW).unwrap();
    assert_eq!(t.to, "0xBEEF");
    assert_eq!(t.value, "1000");
    assert_eq!(t.fee, "1000");
    assert_eq!(t.state, TransactionState::Confirmed);
    assert_eq!(t.id, "");
    assert_eq!(t.hash, "0xabc");
    assert_eq!(t.from, "0xCAFE");
    assert_eq!(t.block_number, 42);
    assert_eq!(t.sequence, 7);
    assert_eq!(t.asset_id, AssetId::from_chain(Chain::Aptos));
    assert_eq!(t.fee_asset_id, AssetId { chain: Chain::Aptos, token_id: None });
    assert_eq!(t.contract, None);
    assert_eq!(t.memo, None);
    assert_eq!(t.transaction_type, TransactionType::Transfer);
    assert_eq!(t.direction, TransactionDirection::SelfTransfer);
    assert_eq!(t.created_at, NOW);
    assert_eq!(t.updated_at, NOW);
}

#[test]
fn one_event_is_not_applicable() {
    let mut tx = deposit_transaction(Some("1000"));
    tx.events = Some(vec![event("0x1::coin::DepositEvent", "0xBEEF", Some("1000"))]);
    assert!(client().map_transaction_at(&tx, 42, NOW).is_none());
}

#[test]
fn other_shapes_are_not_applicable() {
    let c = client();
    let mut no_events = deposit_transaction(Some("1000"));
    no_events.events = None;
    assert!(c.map_transaction_at(&no_events, 1, NOW).is_none());
    let mut wrong_type = deposit_transaction(Some("1000"));
    wrong_type.transaction_type = "block_metadata_transaction".to_string();
    assert!(c.map_transaction_at(&wrong_type, 1, NOW).is_none());
    let mut wrong_event = deposit_transaction(Some("1000"));
    wrong_event.events = Some(vec![
        event("0x1::coin::WithdrawEvent", "0xCAFE", Some("1")),
        event("0x1::coin::WithdrawEvent", "0xBEEF", Some("1")),
    ]);
    assert!(c.map_transaction_at(&wrong_event, 1, NOW).is_none());
    let mut three = deposit_transaction(Some("1000"));
    three.events.as_mut().unwrap().push(event("0x1::coin::DepositEvent", "0xBEEF", Some("1")));
    assert!(c.map_transaction_at(&three, 1, NOW).is_none());
}

#[test]
fn failed_transaction_is_failed() {
    let mut tx = deposit_transaction(Some("5"));
    tx.success = false;
    let t = client().map_transaction_at(&tx, 3, NOW).unwrap();
    assert_eq!(t.state, TransactionState::Failed);
}

#[test]
fn missing_amount_is_zero() {
    let c = client();
    assert_eq!(c.map_transaction_at(&deposit_transaction(None), 1, NOW).unwrap().value, "0");
    let mut no_data = deposit_transaction(None);
    no_data.events.as_mut().unwrap()[1].data = None;
    assert_eq!(c.map_transaction_at(&no_data, 1, NOW).unwrap().value, "0");
    assert_eq!(c.map_transaction_at(&deposit_transaction(Some("12x")), 1, NOW).unwrap().value, "0");
}

#[test]
fn malformed_gas_gives_zero_fee() {
    let c = client();
    let mut tx = deposit_transaction(Some("1"));
    tx.gas_used = Some("ten".to_string());
    assert_eq!(c.map_transaction_at(&tx, 1, NOW).unwrap().fee, "0");
    let mut tx = deposit_transaction(Some("1"));
    tx.gas_unit_price = None;
    assert_eq!(c.map_transaction_at(&tx, 1, NOW).unwrap().fee, "0");
    let mut tx = deposit_transaction(Some("1"));
    tx.sender = None;
    tx.sequence_number = Some("x".to_string());
    let t = c.map_transaction_at(&tx, 1, NOW).unwrap();
    assert_eq!(t.from, "");
    assert_eq!(t.sequence, 0);
}

#[test]
fn fee_beyond_sixty_four_bits() {
    let gas = Some("18446744073709551616".to_string());
    let price = Some("1000".to_string());
    assert_eq!(fee_amount(&gas, &price), "18446744073709551616000");
    assert_eq!(fee_amount(&Some("0".to_string()), &price), "0");
    assert_eq!(fee_amount(&Some("".to_string()), &price), "0");
}

#[test]
fn amounts_are_canonical_decimal() {
    assert_eq!(decimal_amount(&Some("+1_000".to_string())), "1000");
    assert_eq!(decimal_amount(&Some("007".to_string())), "7");
    assert_eq!(decimal_amount(&Some("_1".to_string())), "0");
    assert_eq!(decimal_amount(&Some("-1".to_string())), "0");
    assert_eq!(decimal_amount(&Some("++1".to_string())), "0");
    assert_eq!(decimal_amount(&None), "0");
    assert_eq!(
        decimal_amount(&Some("340282366920938463463374607431768211457".to_string())),
        "340282366920938463463374607431768211457"
    );
}

#[test]
fn sequence_numbers_read_as_i32() {
    assert_eq!(parse_i32_or_zero(&Some("-12".to_string())), -12);
    assert_eq!(parse_i32_or_zero(&Some("+12".to_string())), 12);
    assert_eq!(parse_i32_or_zero(&Some("2147483648".to_string())), 0);
    assert_eq!(parse_i32_or_zero(&Some(" 1".to_string())), 0);
    assert_eq!(parse_i32_or_zero(&None), 0);
}

#[test]
fn mapping_twice_differs_only_in_timestamps() {
    let c = client();
    let tx = deposit_transaction(Some("1000"));
    let a = c.map_transaction(tx.clone(), 9).unwrap();
    let mut b = c.map_transaction(tx, 9).unwrap();
    b.created_at = a.created_at;
    b.updated_at = a.updated_at;
    assert_eq!(a, b);
    assert_eq!(a.created_at, a.updated_at);
}

#[test]
fn block_keeps_only_transfers_in_order() {
    let c = client();
    let mut second = deposit_transaction(Some("2"));
    second.hash = "0x2".to_string();
    let mut skipped = deposit_transaction(Some("3"));
    skipped.transaction_type = "state_checkpoint_transaction".to_string();
    let block = Block {
        block_height: "42".to_string(),
        transactions: vec![deposit_transaction(Some("1")), skipped, second],
    };
    let out = c.map_block(&block, 42, NOW);
    assert_eq!(out.len(), 2);
    assert_eq!(out[0].hash, "0xabc");
    assert_eq!(out[0].value, "1");
    assert_eq!(out[1].hash, "0x2");
    assert_eq!(out[1].value, "2");
    assert_eq!(c.map_block(&block, 42, NOW), out);
    let stamped = c.transactions_of_block(&block, 42);
    assert_eq!(stamped.len(), 2);
    assert!(c.map_block(&Block { block_height: "1".to_string(), transactions: vec![] }, 1, NOW).is_empty());
}

#[test]
fn ledger_height_reads_or_fails_to_decode() {
    assert_eq!(latest_height(&Ledger { block_height: "123456".to_string() }), Ok(123456));
    assert_eq!(
        latest_height(&Ledger { block_height: "12a".to_string() }),
        Err(ProviderError::Decode("12a".to_string()))
    );
    assert_eq!(
        latest_height(&Ledger { block_height: "9223372036854775808".to_string() }),
        Err(ProviderError::Decode("9223372036854775808".to_string()))
    );
}

#[test]
fn client_serves_aptos() {
    let c = client();
    assert_eq!(c.get_chain(), Chain::Aptos);
    assert_eq!(c.url(), "http://localhost:8080");
}

#[test]
fn degraded_fields_are_flagged() {
    let c = client();
    assert!(!c.is_degraded(&deposit_transaction(Some("1000"))));
    assert!(c.is_degraded(&deposit_transaction(None)));
    let mut bad_gas = deposit_transaction(Some("1000"));
    bad_gas.gas_unit_price = Some("1.5".to_string());
    assert!(c.is_degraded(&bad_gas));
    let mut no_data = deposit_transaction(Some("1000"));
    no_data.events.as_mut().unwrap()[1].data = None;
    assert!(c.is_degraded(&no_data));
    let mut other = deposit_transaction(None);
    other.events = None;
    assert!(!c.is_degraded(&other));
}

#[test]
fn digit_amounts_are_kept_as_they_stand() {
    let c = client();
    assert_eq!(c.map_transaction_at(&deposit_transaction(Some("007")), 1, NOW).unwrap().value, "007");
    assert_eq!(c.map_transaction_at(&deposit_transaction(Some("+5")), 1, NOW).unwrap().value, "5");
    assert_eq!(c.map_transaction_at(&deposit_transaction(Some("1_000")), 1, NOW).unwrap().value, "1000");
    assert_eq!(c.map_transaction_at(&deposit_transaction(Some("")), 1, NOW).unwrap().value, "0");
    assert_eq!(record_amount(&Some("0000".to_string())), "0000");
    assert_eq!(record_amount(&Some("-3".to_string())), "0");
    assert_eq!(record_amount(&None), "0");
}

#[test]
fn missing_sequence_number_is_flagged() {
    let c = client();
    let mut tx = deposit_transaction(Some("1000"));
    tx.sequence_number = None;
    assert!(c.is_degraded(&tx));
    tx.sequence_number = Some("99999999999".to_string());
    assert!(c.is_degraded(&tx));
    assert_eq!(c.map_transaction_at(&tx, 1, NOW).unwrap().sequence, 0);
}

#[test]
fn client_is_kept() {
    let c = client();
    let _kept: &reqwest_middleware::ClientWithMiddleware = c.client();
    assert_eq!(c.url(), "http://localhost:8080");
}
