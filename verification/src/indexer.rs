//! The Horizon indexer: reading transactions, operations and the latest
//! ledger out of Horizon's JSON answers, the amount an operation stores,
//! and the reconnection backoff.

use vstd::prelude::*;
use crate::api_error::ApiError;
use crate::json::{element, integer_of, member, text_of, JsonValue};
use crate::text::{parse_i64, parse_i64_spec};

verus! {

#[derive(Debug, Clone)]
pub struct HorizonTransaction {
    pub id: String,
    pub hash: String,
    pub ledger: i64,
    pub created_at: String,
    pub source_account: String,
    pub operations_count: i32,
}

#[derive(Debug, Clone)]
pub struct HorizonOperation {
    pub id: String,
    pub transaction_hash: String,
    pub operation_type: String,
    pub source_account: String,
    pub destination: Option<String>,
    pub asset_code: Option<String>,
    pub amount: Option<String>,
}

/// The text of `v` when it is a string, else empty.
pub open spec fn text_or_empty(v: JsonValue) -> Seq<char> {
    match text_of(v) {
        Some(t) => t,
        None => Seq::empty(),
    }
}

/// The value of `v` when it is an `i64` number, else 0.
pub open spec fn integer_or_zero(v: JsonValue) -> i64 {
    match integer_of(v) {
        Some(n) => n,
        None => 0,
    }
}

pub open spec fn opt_string_view(t: Option<String>) -> Option<Seq<char>> {
    match t {
        Some(s) => Some(s@),
        None => None,
    }
}

fn member_text(v: &JsonValue, key: &str) -> (r: String)
    ensures
        r@ == text_or_empty(member(*v, key@)),
{
    match v.get(key) {
        Some(x) => match x.as_str() {
            Some(t) => t.to_owned(),
            None => String::new(),
        },
        None => String::new(),
    }
}

fn member_opt_text(v: &JsonValue, key: &str) -> (r: Option<String>)
    ensures
        opt_string_view(r) == text_of(member(*v, key@)),
{
    match v.get(key) {
        Some(x) => match x.as_str() {
            Some(t) => Some(t.to_owned()),
            None => None,
        },
        None => None,
    }
}

fn member_integer(v: &JsonValue, key: &str) -> (r: i64)
    ensures
        r == integer_or_zero(member(*v, key@)),
{
    match v.get(key) {
        Some(x) => match x.as_i64() {
            Some(n) => n,
            None => 0,
        },
        None => 0,
    }
}

/// Reads a transaction out of Horizon's answer: missing or mistyped fields
/// read as empty or 0, and the operation count keeps its low 32 bits.
pub fn horizon_transaction_from_json(body: &JsonValue) -> (r: HorizonTransaction)
    ensures
        r.id@ == text_or_empty(member(*body, "id"@)),
        r.hash@ == text_or_empty(member(*body, "hash"@)),
        r.ledger == integer_or_zero(member(*body, "ledger"@)),
        r.created_at@ == text_or_empty(member(*body, "created_at"@)),
        r.source_account@ == text_or_empty(member(*body, "source_account"@)),
        r.operations_count == integer_or_zero(member(*body, "operation_count"@)) as i32,
{
    HorizonTransaction {
        id: member_text(body, "id"),
        hash: member_text(body, "hash"),
        ledger: member_integer(body, "ledger"),
        created_at: member_text(body, "created_at"),
        source_account: member_text(body, "source_account"),
        operations_count: member_integer(body, "operation_count") as i32,
    }
}

/// The operation a Horizon record describes.
pub open spec fn operation_matches(op: HorizonOperation, record: JsonValue) -> bool {
    &&& op.id@ == text_or_empty(member(record, "id"@))
    &&& op.transaction_hash@ == text_or_empty(member(record, "transaction_hash"@))
    &&& op.operation_type@ == text_or_empty(member(record, "type"@))
    &&& op.source_account@ == text_or_empty(member(record, "source_account"@))
    &&& opt_string_view(op.destination) == text_of(member(record, "destination"@))
    &&& opt_string_view(op.asset_code) == text_of(member(record, "asset_code"@))
    &&& opt_string_view(op.amount) == text_of(member(record, "amount"@))
}

fn operation_from_record(record: &JsonValue) -> (op: HorizonOperation)
    ensures
        operation_matches(op, *record),
{
    HorizonOperation {
        id: member_text(record, "id"),
        transaction_hash: member_text(record, "transaction_hash"),
        operation_type: member_text(record, "type"),
        source_account: member_text(record, "source_account"),
        destination: member_opt_text(record, "destination"),
        asset_code: member_opt_text(record, "asset_code"),
        amount: member_opt_text(record, "amount"),
    }
}

/// The records of a Horizon listing: `_embedded.records`.
pub open spec fn listing_records(body: JsonValue) -> JsonValue {
    member(member(body, "_embedded"@), "records"@)
}

/// Reads the operations out of Horizon's listing, one per record; none when
/// the listing holds no record array.
pub fn horizon_operations_from_json(body: &JsonValue) -> (r: Vec<HorizonOperation>)
    ensures
        match listing_records(*body) {
            JsonValue::Array(records) => r@.len() == records@.len() && forall|i: int|
                0 <= i < r@.len() ==> operation_matches(#[trigger] r@[i], records@[i]),
            _ => r@.len() == 0,
        },
{
    let mut ops: Vec<HorizonOperation> = Vec::new();
    let embedded = match body.get("_embedded") {
        Some(e) => e,
        None => {
            return ops;
        },
    };
    let records = match embedded.get("records") {
        Some(r) => r,
        None => {
            return ops;
        },
    };
    match records {
        JsonValue::Array(items) => {
            let n = items.len();
            let mut i: usize = 0;
            while i < n
                invariant
                    n == items@.len(),
                    i <= n,
                    ops@.len() == i,
                    forall|k: int| 0 <= k < i ==> operation_matches(#[trigger] ops@[k], items@[k]),
                decreases n - i,
            {
                ops.push(operation_from_record(&items[i]));
                i = i + 1;
            }
            ops
        },
        _ => ops,
    }
}

/// The latest ledger's sequence in Horizon's answer:
/// `_embedded.records[0].sequence`.
pub open spec fn latest_sequence(body: JsonValue) -> Option<i64> {
    integer_of(member(element(listing_records(body), 0), "sequence"@))
}

/// Reads the latest ledger's sequence, refusing an answer without one.
pub fn latest_ledger_from_json(body: &JsonValue) -> (r: Result<i64, ApiError>)
    ensures
        match latest_sequence(*body) {
            Some(n) => r == Ok::<i64, ApiError>(n),
            None => r matches Err(e) && (e matches ApiError::Stellar(m) && m@ == "Invalid ledger sequence in response"@),
        },
{
    let found = match body.get("_embedded") {
        Some(e) => match e.get("records") {
            Some(rs) => match rs.at(0) {
                Some(first) => match first.get("sequence") {
                    Some(s) => s.as_i64(),
                    None => None,
                },
                None => None,
            },
            None => None,
        },
        None => None,
    };
    match found {
        Some(n) => Ok(n),
        None => Err(ApiError::Stellar("Invalid ledger sequence in response".to_owned())),
    }
}

/// The amount an operation is stored with: its amount text read as an
/// `i64`, or 0 when absent or not an integer.
pub fn operation_amount(op: &HorizonOperation) -> (r: i64)
    ensures
        r == (match op.amount {
            Some(a) => match parse_i64_spec(a@) {
                Some(n) => n,
                None => 0,
            },
            None => 0,
        }),
{
    match &op.amount {
        Some(a) => match parse_i64(a.as_str()) {
            Some(n) => n,
            None => 0,
        },
        None => 0,
    }
}

/// Whether a confirmed payment event completes a payment: it names a
/// destination, a pending payment from its source was found, and the
/// update reached a row. Only then is the event marked processed.
pub fn event_completes_payment(has_destination: bool, payment_found: bool, rows_updated: u64) -> (r: bool)
    ensures
        r == (has_destination && payment_found && rows_updated > 0),
{
    has_destination && payment_found && rows_updated > 0
}

/// The first wait, and the cap on waits, between reconnection attempts.
pub const INITIAL_BACKOFF_MS: u64 = 1000;

pub const MAX_BACKOFF_MS: u64 = 60000;

/// Where a reconnection loop stands: failed attempts so far, and the wait
/// before the next attempt.
#[derive(Debug, Clone, Copy, PartialEq, Eq, Structural)]
pub struct ReconnectState {
    pub retry_count: u32,
    pub backoff_ms: u64,
}

/// What follows a failed attempt: wait and try again, or give up.
#[derive(Debug, Clone, Copy, PartialEq, Eq, Structural)]
pub enum ReconnectStep {
    Retry { wait_ms: u64, next: ReconnectState },
    GiveUp,
}

/// The state before the first attempt.
pub fn initial_reconnect_state() -> (r: ReconnectState)
    ensures
        r == (ReconnectState { retry_count: 0, backoff_ms: INITIAL_BACKOFF_MS }),
{
    ReconnectState { retry_count: 0, backoff_ms: INITIAL_BACKOFF_MS }
}

/// The step after an attempt fails: give up once `max_retries` attempts
/// have failed; else wait the current backoff, then double it up to one
/// minute.
pub open spec fn after_failure_spec(s: ReconnectState, max_retries: u32) -> ReconnectStep {
    let count = s.retry_count + 1;
    if count >= max_retries {
        ReconnectStep::GiveUp
    } else {
        ReconnectStep::Retry {
            wait_ms: s.backoff_ms,
            next: ReconnectState {
                retry_count: count as u32,
                backoff_ms: if s.backoff_ms * 2 < MAX_BACKOFF_MS {
                    (s.backoff_ms * 2) as u64
                } else {
                    MAX_BACKOFF_MS
                },
            },
        }
    }
}

/// The step after a failed reconnection attempt.
pub fn after_failed_attempt(state: ReconnectState, max_retries: u32) -> (r: ReconnectStep)
    requires
        state.retry_count < u32::MAX,
        state.backoff_ms <= MAX_BACKOFF_MS,
    ensures
        r == after_failure_spec(state, max_retries),
{
    let count = state.retry_count + 1;
    if count >= max_retries {
        return ReconnectStep::GiveUp;
    }
    let doubled = state.backoff_ms * 2;
    let next = if doubled < MAX_BACKOFF_MS {
        doubled
    } else {
        MAX_BACKOFF_MS
    };
    ReconnectStep::Retry { wait_ms: state.backoff_ms, next: ReconnectState { retry_count: count, backoff_ms: next } }
}

/// The backoff before attempt `k + 1`: one second doubled `k` times, capped
/// at one minute.
pub open spec fn backoff_schedule(k: nat) -> u64
    decreases k,
{
    if k == 0 {
        INITIAL_BACKOFF_MS
    } else {
        let prev = backoff_schedule((k - 1) as nat);
        if prev * 2 < MAX_BACKOFF_MS {
            (prev * 2) as u64
        } else {
            MAX_BACKOFF_MS
        }
    }
}

/// Starting from the initial state, after `k` failed attempts the loop has
/// counted `k` and waits `backoff_schedule(k)`, which never exceeds one
/// minute; it gives up at the failure that brings the count to
/// `max_retries`.
pub proof fn law_backoff_schedule(k: nat, max_retries: u32)
    requires
        k < max_retries,
    ensures
        1000 <= backoff_schedule(k) <= MAX_BACKOFF_MS,
        after_failure_spec(ReconnectState { retry_count: k as u32, backoff_ms: backoff_schedule(k) }, max_retries)
            == (if k + 1 >= max_retries {
            ReconnectStep::GiveUp
        } else {
            ReconnectStep::Retry {
                wait_ms: backoff_schedule(k),
                next: ReconnectState { retry_count: (k + 1) as u32, backoff_ms: backoff_schedule(k + 1) },
            }
        }),
    decreases k,
{
    if k > 0 {
        law_backoff_schedule((k - 1) as nat, max_retries);
    }
}

} // verus!
