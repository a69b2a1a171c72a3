//! Decoding of the yield contract's events from their JSON payloads.

use vstd::prelude::*;
use crate::json::{find_nested_i64, find_nested_string, nested_integer, nested_string, JsonValue};
use crate::text::str_eq;

verus! {

pub struct YieldDepositedEvent {
    pub address: String,
    pub amount: i64,
    pub tx_hash: String,
}

pub struct YieldWithdrawnEvent {
    pub address: String,
    pub amount: i64,
    pub tx_hash: String,
}

pub struct YieldRateUpdatedEvent {
    pub apy: i32,
    pub tx_hash: String,
}

pub enum ZapsEvent {
    YieldDeposited(YieldDepositedEvent),
    YieldWithdrawn(YieldWithdrawnEvent),
    YieldRateUpdated(YieldRateUpdatedEvent),
    Unknown,
}

/// A decoded event with its texts as character sequences.
pub enum ZapsEventView {
    YieldDeposited { address: Seq<char>, amount: i64, tx_hash: Seq<char> },
    YieldWithdrawn { address: Seq<char>, amount: i64, tx_hash: Seq<char> },
    YieldRateUpdated { apy: i32, tx_hash: Seq<char> },
    Unknown,
}

impl View for ZapsEvent {
    type V = ZapsEventView;

    open spec fn view(&self) -> ZapsEventView {
        match self {
            ZapsEvent::YieldDeposited(e) => ZapsEventView::YieldDeposited {
                address: e.address@,
                amount: e.amount,
                tx_hash: e.tx_hash@,
            },
            ZapsEvent::YieldWithdrawn(e) => ZapsEventView::YieldWithdrawn {
                address: e.address@,
                amount: e.amount,
                tx_hash: e.tx_hash@,
            },
            ZapsEvent::YieldRateUpdated(e) => ZapsEventView::YieldRateUpdated { apy: e.apy, tx_hash: e.tx_hash@ },
            ZapsEvent::Unknown => ZapsEventView::Unknown,
        }
    }
}

/// The transaction hash an event payload carries under `tx_hash`, `txHash`
/// or `transactionHash` (tried in that order), or `unknown`.
pub open spec fn tx_hash_of(v: JsonValue) -> Seq<char> {
    match nested_string(v, "tx_hash"@) {
        Some(t) => t,
        None => match nested_string(v, "txHash"@) {
            Some(t) => t,
            None => match nested_string(v, "transactionHash"@) {
                Some(t) => t,
                None => "unknown"@,
            },
        },
    }
}

/// The nested string under `key`, or empty.
pub open spec fn string_or_empty(v: JsonValue, key: Seq<char>) -> Seq<char> {
    match nested_string(v, key) {
        Some(t) => t,
        None => Seq::empty(),
    }
}

/// The nested integer under `key`, or 0.
pub open spec fn integer_or_zero(v: JsonValue, key: Seq<char>) -> i64 {
    match nested_integer(v, key) {
        Some(n) => n,
        None => 0,
    }
}

/// The event a topic and payload decode to.
pub open spec fn decoded_event(topic: Seq<char>, v: JsonValue) -> ZapsEventView {
    if topic == "YieldDeposited"@ {
        ZapsEventView::YieldDeposited {
            address: string_or_empty(v, "address"@),
            amount: integer_or_zero(v, "amount"@),
            tx_hash: tx_hash_of(v),
        }
    } else if topic == "YieldWithdrawn"@ {
        ZapsEventView::YieldWithdrawn {
            address: string_or_empty(v, "address"@),
            amount: integer_or_zero(v, "amount"@),
            tx_hash: tx_hash_of(v),
        }
    } else if topic == "YieldRateUpdated"@ {
        ZapsEventView::YieldRateUpdated { apy: integer_or_zero(v, "apy"@) as i32, tx_hash: tx_hash_of(v) }
    } else {
        ZapsEventView::Unknown
    }
}

/// The transaction hash of an event payload, or `unknown`.
pub fn extract_tx_hash(value: &JsonValue) -> (r: String)
    ensures
        r@ == tx_hash_of(*value),
{
    if let Some(t) = find_nested_string(value, "tx_hash") {
        return t;
    }
    if let Some(t) = find_nested_string(value, "txHash") {
        return t;
    }
    if let Some(t) = find_nested_string(value, "transactionHash") {
        return t;
    }
    "unknown".to_owned()
}

fn string_or_default(value: &JsonValue, key: &str) -> (r: String)
    ensures
        r@ == string_or_empty(*value, key@),
{
    match find_nested_string(value, key) {
        Some(t) => t,
        None => String::new(),
    }
}

fn integer_or_default(value: &JsonValue, key: &str) -> (r: i64)
    ensures
        r == integer_or_zero(*value, key@),
{
    match find_nested_i64(value, key) {
        Some(n) => n,
        None => 0,
    }
}

/// Decodes the yield contract event named `topic` from its payload; an
/// unrecognised topic gives `Unknown`.
pub fn parse_zaps_event(topic: &str, value: &JsonValue) -> (r: ZapsEvent)
    ensures
        r@ == decoded_event(topic@, *value),
{
    if str_eq(topic, "YieldDeposited") {
        let address = string_or_default(value, "address");
        let amount = integer_or_default(value, "amount");
        let tx_hash = extract_tx_hash(value);
        ZapsEvent::YieldDeposited(YieldDepositedEvent { address, amount, tx_hash })
    } else if str_eq(topic, "YieldWithdrawn") {
        let address = string_or_default(value, "address");
        let amount = integer_or_default(value, "amount");
        let tx_hash = extract_tx_hash(value);
        ZapsEvent::YieldWithdrawn(YieldWithdrawnEvent { address, amount, tx_hash })
    } else if str_eq(topic, "YieldRateUpdated") {
        let apy = integer_or_default(value, "apy") as i32;
        let tx_hash = extract_tx_hash(value);
        ZapsEvent::YieldRateUpdated(YieldRateUpdatedEvent { apy, tx_hash })
    } else {
        ZapsEvent::Unknown
    }
}

} // verus!
