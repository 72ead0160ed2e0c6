//! The Aptos provider: the transaction mapper and the computing half of the
//! provider's operations.

use crate::chain::{native_asset, AssetId, Chain};
use crate::decimal::{
    amount_of, amount_text, decimal_of, is_digit_text, is_i32_text, lemma_digit_text_reads,
    reads_as_i32, record_amount, fee_amount, i32_or_zero, is_signed_text, is_amount_text, is_unsigned_text,
    lemma_decimal_of_reads_back, reads_as_amount, parse_i32_or_zero, parse_i64, signed_value, unsigned_value,
};
use crate::error::ProviderError;
use crate::model;
use crate::transaction::{
    Timestamp, Transaction, TransactionDirection, TransactionState, TransactionType, TransactionView,
};
use reqwest_middleware::ClientWithMiddleware;
use vstd::prelude::*;

verus! {

/// Declares `reqwest_middleware::ClientWithMiddleware`, the HTTP client that a
/// provider carries for the requests made outside the library; opaque here.
#[verifier::external_type_specification]
#[verifier::external_body]
pub struct ExClientWithMiddleware(ClientWithMiddleware);

/// The shape signature of a plain coin transfer: a user transaction with
/// exactly two events, the second of which is a coin deposit.
pub open spec fn is_deposit_transfer(tx: model::Transaction) -> bool {
    &&& tx.transaction_type@ == "user_transaction"@
    &&& match tx.events {
        Some(events) => events@.len() == 2 && events@[1].event_type@ == "0x1::coin::DepositEvent"@,
        None => false,
    }
}

/// The deposit event of a transaction of the transfer shape.
pub open spec fn deposit_event(tx: model::Transaction) -> model::Event {
    tx.events.unwrap()@[1]
}

/// The amount of an event; absent data or amount count as zero.
pub open spec fn event_amount(event: model::Event) -> nat {
    match event.data {
        Some(d) => amount_of(d.amount),
        None => 0,
    }
}

/// The value text recorded for an event (see `amount_text`).
pub open spec fn event_value(event: model::Event) -> Seq<char> {
    match event.data {
        Some(d) => amount_text(d.amount),
        None => amount_text(None),
    }
}

pub open spec fn state_of(success: bool) -> TransactionState {
    if success {
        TransactionState::Confirmed
    } else {
        TransactionState::Failed
    }
}

/// The record that a transaction of the transfer shape maps to, at block
/// `block_number`, stamped with `now`.
pub open spec fn canonical_of(tx: model::Transaction, block_number: i64, now: Timestamp) -> TransactionView {
    TransactionView {
        id: Seq::empty(),
        hash: tx.hash@,
        asset_id: native_asset(Chain::Aptos),
        from: match tx.sender {
            Some(s) => s@,
            None => Seq::empty(),
        },
        to: deposit_event(tx).guid.account_address@,
        contract: None,
        transaction_type: TransactionType::Transfer,
        state: state_of(tx.success),
        block_number,
        sequence: i32_or_zero(tx.sequence_number),
        fee: decimal_of(amount_of(tx.gas_used) * amount_of(tx.gas_unit_price)),
        fee_asset_id: native_asset(Chain::Aptos),
        value: event_value(deposit_event(tx)),
        memo: None,
        direction: TransactionDirection::SelfTransfer,
        created_at: now,
        updated_at: now,
    }
}

/// The records of the transactions in `txs` that have the transfer shape, in
/// their order.
pub open spec fn canonical_all(txs: Seq<model::Transaction>, block_number: i64, now: Timestamp) -> Seq<TransactionView>
    decreases txs.len(),
{
    if txs.len() == 0 {
        Seq::empty()
    } else {
        let rest = canonical_all(txs.drop_last(), block_number, now);
        if is_deposit_transfer(txs.last()) {
            rest.push(canonical_of(txs.last(), block_number, now))
        } else {
            rest
        }
    }
}

/// A transfer whose record falls back to zero for a numeric field: a gas
/// field, the sequence number or the deposited amount is absent or
/// malformed.
pub open spec fn is_degraded(tx: model::Transaction) -> bool {
    &&& is_deposit_transfer(tx)
    &&& {
        ||| !is_amount_text(tx.gas_used)
        ||| !is_amount_text(tx.gas_unit_price)
        ||| !is_i32_text(tx.sequence_number)
        ||| match deposit_event(tx).data {
            Some(d) => !is_amount_text(d.amount),
            None => true,
        }
    }
}

/// The block height a ledger reports, where it reads as an `i64`.
pub open spec fn ledger_height(ledger: model::Ledger) -> Option<i64> {
    let s = ledger.block_height@;
    if is_signed_text(s) && i64::MIN <= signed_value(s) <= i64::MAX {
        Some(signed_value(s) as i64)
    } else {
        None
    }
}

/// The deposit event of `tx` where it has the transfer shape.
fn matched_deposit(tx: &model::Transaction) -> (r: Option<&model::Event>)
    ensures
        r is Some == is_deposit_transfer(*tx),
        r is Some ==> *r.unwrap() == deposit_event(*tx),
{
    let user_transaction = "user_transaction".to_owned();
    let deposit = "0x1::coin::DepositEvent".to_owned();
    if tx.transaction_type != user_transaction {
        return None;
    }
    let events = match &tx.events {
        Some(events) => events,
        None => return None,
    };
    if events.len() != 2 || events[1].event_type != deposit {
        return None;
    }
    Some(&events[1])
}

/// Relies on `chrono::Utc::now`: the current UTC time, read from the system
/// clock. Nothing is promised of the value.
#[verifier::external_body]
fn utc_now() -> (r: Timestamp) {
    let now = chrono::Utc::now();
    Timestamp { seconds: now.timestamp(), nanos: now.timestamp_subsec_nanos() }
}

/// A client of one Aptos node.
pub struct AptosClient {
    url: String,
    client: ClientWithMiddleware,
}

impl AptosClient {
    /// The base URL of the node.
    pub closed spec fn endpoint(&self) -> Seq<char> {
        self.url@
    }

    /// The HTTP client through which the node is reached.
    pub closed spec fn http_client(&self) -> ClientWithMiddleware {
        self.client
    }

    pub fn new(client: ClientWithMiddleware, url: String) -> (r: Self)
        ensures
            r.endpoint() == url@,
            r.http_client() == client,
    {
        AptosClient { url, client }
    }

    pub fn url(&self) -> (r: &str)
        ensures
            r@ == self.endpoint(),
    {
        self.url.as_str()
    }

    pub fn client(&self) -> (r: &ClientWithMiddleware)
        ensures
            *r == self.http_client(),
    {
        &self.client
    }

    pub fn get_chain(&self) -> (r: Chain)
        ensures
            r == Chain::Aptos,
    {
        Chain::Aptos
    }

    /// Maps a native transaction at `block_number` to a record stamped with
    /// `now`, or to `None` where its shape is not that of a transfer.
    pub fn map_transaction_at(&self, transaction: &model::Transaction, block_number: i64, now: Timestamp) -> (r: Option<Transaction>)
        ensures
            match r {
                None => !is_deposit_transfer(*transaction),
                Some(t) => is_deposit_transfer(*transaction) && t@ == canonical_of(*transaction, block_number, now),
            },
    {
        let event = match matched_deposit(transaction) {
            Some(event) => event,
            None => return None,
        };
        let value = match &event.data {
            Some(data) => record_amount(&data.amount),
            None => record_amount(&None),
        };
        let from = match &transaction.sender {
            Some(s) => s.clone(),
            None => String::new(),
        };
        let state = if transaction.success {
            TransactionState::Confirmed
        } else {
            TransactionState::Failed
        };
        let chain = self.get_chain();
        Some(Transaction {
            id: String::new(),
            hash: transaction.hash.clone(),
            asset_id: AssetId::from_chain(chain),
            from,
            to: event.guid.account_address.clone(),
            contract: None,
            transaction_type: TransactionType::Transfer,
            state,
            block_number,
            sequence: parse_i32_or_zero(&transaction.sequence_number),
            fee: fee_amount(&transaction.gas_used, &transaction.gas_unit_price),
            fee_asset_id: AssetId::from_chain(chain),
            value,
            memo: None,
            direction: TransactionDirection::SelfTransfer,
            created_at: now,
            updated_at: now,
        })
    }

    /// Whether the record of `transaction` is mapped with zero in place of a
    /// missing or malformed amount or gas field.
    pub fn is_degraded(&self, transaction: &model::Transaction) -> (r: bool)
        ensures
            r == is_degraded(*transaction),
    {
        let event = match matched_deposit(transaction) {
            Some(event) => event,
            None => return false,
        };
        let amount_ok = match &event.data {
            Some(data) => reads_as_amount(&data.amount),
            None => false,
        };
        !reads_as_amount(&transaction.gas_used) || !reads_as_amount(&transaction.gas_unit_price)
            || !reads_as_i32(&transaction.sequence_number) || !amount_ok
    }

    /// Maps a native transaction at `block_number`, stamping the record with
    /// the current time.
    pub fn map_transaction(&self, transaction: model::Transaction, block_number: i64) -> (r: Option<Transaction>)
        ensures
            match r {
                None => !is_deposit_transfer(transaction),
                Some(t) => is_deposit_transfer(transaction) && t@ == canonical_of(transaction, block_number, t.created_at),
            },
    {
        let now = utc_now();
        self.map_transaction_at(&transaction, block_number, now)
    }

    /// The records of a block's transactions that have the transfer shape, in
    /// block order; the others are left out.
    pub fn map_block(&self, block: &model::Block, block_number: i64, now: Timestamp) -> (r: Vec<Transaction>)
        ensures
            r@.map_values(|t: Transaction| t@) == canonical_all(block.transactions@, block_number, now),
    {
        let txs = &block.transactions;
        let mut out: Vec<Transaction> = Vec::new();
        let mut i: usize = 0;
        while i < txs.len()
            invariant
                i <= txs@.len(),
                out@.map_values(|t: Transaction| t@) == canonical_all(txs@.take(i as int), block_number, now),
            decreases txs@.len() - i,
        {
            let mapped = self.map_transaction_at(&txs[i], block_number, now);
            proof {
                assert(txs@.take(i as int + 1).drop_last() =~= txs@.take(i as int));
                assert(txs@.take(i as int + 1).last() == txs@[i as int]);
            }
            match mapped {
                Some(t) => {
                    out.push(t);
                    assert(out@.map_values(|t: Transaction| t@) =~= canonical_all(txs@.take(i as int), block_number, now).push(canonical_of(txs@[i as int], block_number, now)));
                },
                None => {},
            }
            i = i + 1;
        }
        assert(txs@.take(txs@.len() as int) =~= txs@);
        out
    }

    /// The transactions of a block, stamped with the current time.
    pub fn transactions_of_block(&self, block: &model::Block, block_number: i64) -> (r: Vec<Transaction>)
        ensures
            exists|now: Timestamp|
                r@.map_values(|t: Transaction| t@) == #[trigger] canonical_all(block.transactions@, block_number, now),
    {
        let now = utc_now();
        let r = self.map_block(block, block_number, now);
        assert(r@.map_values(|t: Transaction| t@) == canonical_all(block.transactions@, block_number, now));
        r
    }
}

/// The chain height that a ledger reports; text that does not read as an
/// `i64` is a decode error carrying that text.
pub fn latest_height(ledger: &model::Ledger) -> (r: Result<i64, ProviderError>)
    ensures
        match r {
            Ok(h) => ledger_height(*ledger) == Some(h),
            Err(e) => ledger_height(*ledger) is None && e == ProviderError::Decode(ledger.block_height),
        },
{
    match parse_i64(ledger.block_height.as_str()) {
        Some(h) => Ok(h),
        None => Err(ProviderError::Decode(ledger.block_height.clone())),
    }
}

/// Mapping one native transaction twice gives the same record but for the
/// two timestamps.
pub proof fn lemma_mapping_is_deterministic(
    tx: model::Transaction,
    block_number: i64,
    first: TransactionView,
    second: TransactionView,
)
    requires
        first == canonical_of(tx, block_number, first.created_at),
        second == canonical_of(tx, block_number, second.created_at),
    ensures
        first.stamped(second.created_at) == second,
{
}

/// The value and fee of every mapped record are unsigned decimal text that
/// reads back as the amounts they were made from; a value given as plain
/// digits is kept as it stands.
pub proof fn lemma_mapped_amounts_are_decimal(tx: model::Transaction, block_number: i64, now: Timestamp)
    ensures
        is_unsigned_text(canonical_of(tx, block_number, now).value),
        unsigned_value(canonical_of(tx, block_number, now).value) == event_amount(deposit_event(tx)),
        is_unsigned_text(canonical_of(tx, block_number, now).fee),
        unsigned_value(canonical_of(tx, block_number, now).fee) == amount_of(tx.gas_used) * amount_of(
            tx.gas_unit_price,
        ),
        match deposit_event(tx).data {
            Some(d) => d.amount is Some && is_digit_text(d.amount.unwrap()@) ==> canonical_of(
                tx,
                block_number,
                now,
            ).value == d.amount.unwrap()@,
            None => true,
        },
{
    lemma_decimal_of_reads_back(event_amount(deposit_event(tx)));
    lemma_decimal_of_reads_back(amount_of(tx.gas_used) * amount_of(tx.gas_unit_price));
    match deposit_event(tx).data {
        Some(d) => match d.amount {
            Some(a) => if is_digit_text(a@) {
                lemma_digit_text_reads(a@);
            },
            None => {},
        },
        None => {},
    }
}

} // verus!
