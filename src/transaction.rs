//! The chain-agnostic transaction record.

use crate::chain::{AssetId, AssetIdView};
use vstd::prelude::*;

verus! {

#[derive(Clone, Copy, Debug, PartialEq, Eq, Structural)]
pub enum TransactionType {
    Transfer,
}

#[derive(Clone, Copy, Debug, PartialEq, Eq, Structural)]
pub enum TransactionState {
    Pending,
    Confirmed,
    Failed,
}

#[derive(Clone, Copy, Debug, PartialEq, Eq, Structural)]
pub enum TransactionDirection {
    Incoming,
    Outgoing,
    SelfTransfer,
}

/// A UTC instant: whole seconds since the Unix epoch and the nanoseconds
/// past that second.
#[derive(Clone, Copy, Debug, PartialEq, Eq, Structural)]
pub struct Timestamp {
    pub seconds: i64,
    pub nanos: u32,
}

/// A normalised transaction. `value` and `fee` are decimal text of
/// arbitrary-precision non-negative integers.
#[derive(Clone, Debug, PartialEq, Eq)]
pub struct Transaction {
    pub id: String,
    pub hash: String,
    pub asset_id: AssetId,
    pub from: String,
    pub to: String,
    pub contract: Option<String>,
    pub transaction_type: TransactionType,
    pub state: TransactionState,
    pub block_number: i64,
    pub sequence: i32,
    pub fee: String,
    pub fee_asset_id: AssetId,
    pub value: String,
    pub memo: Option<String>,
    pub direction: TransactionDirection,
    pub created_at: Timestamp,
    pub updated_at: Timestamp,
}

pub struct TransactionView {
    pub id: Seq<char>,
    pub hash: Seq<char>,
    pub asset_id: AssetIdView,
    pub from: Seq<char>,
    pub to: Seq<char>,
    pub contract: Option<Seq<char>>,
    pub transaction_type: TransactionType,
    pub state: TransactionState,
    pub block_number: i64,
    pub sequence: i32,
    pub fee: Seq<char>,
    pub fee_asset_id: AssetIdView,
    pub value: Seq<char>,
    pub memo: Option<Seq<char>>,
    pub direction: TransactionDirection,
    pub created_at: Timestamp,
    pub updated_at: Timestamp,
}

pub open spec fn text_view(s: Option<String>) -> Option<Seq<char>> {
    match s {
        Some(t) => Some(t@),
        None => None,
    }
}

impl TransactionView {
    /// The record with both timestamps set to `at`.
    pub open spec fn stamped(self, at: Timestamp) -> TransactionView {
        TransactionView { created_at: at, updated_at: at, ..self }
    }
}

impl View for Transaction {
    type V = TransactionView;

    open spec fn view(&self) -> TransactionView {
        TransactionView {
            id: self.id@,
            hash: self.hash@,
            asset_id: self.asset_id@,
            from: self.from@,
            to: self.to@,
            contract: text_view(self.contract),
            transaction_type: self.transaction_type,
            state: self.state,
            block_number: self.block_number,
            sequence: self.sequence,
            fee: self.fee@,
            fee_asset_id: self.fee_asset_id@,
            value: self.value@,
            memo: text_view(self.memo),
            direction: self.direction,
            created_at: self.created_at,
            updated_at: self.updated_at,
        }
    }
}

} // verus!
