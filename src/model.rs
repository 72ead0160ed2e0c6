//! The native shapes of the Aptos node API.

use vstd::prelude::*;

verus! {

/// The node's ledger information.
#[derive(Clone, Debug)]
pub struct Ledger {
    pub block_height: String,
}

/// A block with its transactions, in block order.
#[derive(Clone, Debug)]
pub struct Block {
    pub block_height: String,
    pub transactions: Vec<Transaction>,
}

/// A native transaction; numeric fields are decimal text.
#[derive(Clone, Debug)]
pub struct Transaction {
    pub hash: String,
    pub transaction_type: String,
    pub success: bool,
    pub sender: Option<String>,
    pub sequence_number: Option<String>,
    pub gas_used: Option<String>,
    pub gas_unit_price: Option<String>,
    pub events: Option<Vec<Event>>,
}

#[derive(Clone, Debug)]
pub struct Event {
    pub guid: EventGuid,
    pub event_type: String,
    pub data: Option<EventData>,
}

#[derive(Clone, Debug)]
pub struct EventGuid {
    pub account_address: String,
}

#[derive(Clone, Debug)]
pub struct EventData {
    pub amount: Option<String>,
}

} // verus!
