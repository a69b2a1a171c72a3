//! Payment batches: their statuses, the retry rule for their items, how a
//! processing run settles into a final status, and the validation of batch
//! requests.

use vstd::prelude::*;
use crate::api_error::ApiError;
use crate::ids::{new_uuid_text, uuid_text_of};
use crate::text::{concat, str_eq};

verus! {

#[derive(Debug, Clone, Copy, PartialEq, Eq, Structural)]
pub enum BatchStatus {
    Pending,
    Processing,
    Completed,
    Failed,
    PartialFailure,
}

pub open spec fn batch_status_text(s: BatchStatus) -> Seq<char> {
    match s {
        BatchStatus::Pending => "pending"@,
        BatchStatus::Processing => "processing"@,
        BatchStatus::Completed => "completed"@,
        BatchStatus::Failed => "failed"@,
        BatchStatus::PartialFailure => "partial_failure"@,
    }
}

impl BatchStatus {
    /// The status as stored.
    pub fn as_str(&self) -> (r: &'static str)
        ensures
            r@ == batch_status_text(*self),
    {
        match self {
            BatchStatus::Pending => "pending",
            BatchStatus::Processing => "processing",
            BatchStatus::Completed => "completed",
            BatchStatus::Failed => "failed",
            BatchStatus::PartialFailure => "partial_failure",
        }
    }

    /// The status as stored, as `Display` writes it.
    pub fn to_string(&self) -> (r: String)
        ensures
            r@ == batch_status_text(*self),
    {
        self.as_str().to_owned()
    }
}

#[derive(Debug, Clone, Copy)]
pub struct BatchConfig {
    pub batch_size: usize,
    pub batch_timeout_secs: u64,
    pub max_retries: u32,
}

impl Default for BatchConfig {
    fn default() -> (r: Self)
        ensures
            r.batch_size == 100,
            r.batch_timeout_secs == 300,
            r.max_retries == 3,
    {
        BatchConfig { batch_size: 100, batch_timeout_secs: 300, max_retries: 3 }
    }
}

/// The request creating a batch.
#[derive(Debug, Clone)]
pub struct CreateBatchRequest {
    pub merchant_id: String,
    pub asset: String,
    pub batch_size: usize,
}

#[derive(Debug, Clone)]
pub struct AddPaymentToBatchRequest {
    pub payment_id: String,
}

#[derive(Debug, Clone)]
pub struct BatchItemResponse {
    pub id: String,
    pub batch_id: String,
    pub payment_id: String,
    pub status: String,
    pub error_message: Option<String>,
    pub retry_count: i32,
}

/// The most items a batch may hold.
pub const MAX_BATCH_SIZE: usize = 10000;

/// Refuses a batch size outside 1 to 10 000.
pub fn validate_batch_size(batch_size: usize) -> (r: Result<(), ApiError>)
    ensures
        1 <= batch_size <= MAX_BATCH_SIZE ==> r is Ok,
        !(1 <= batch_size <= MAX_BATCH_SIZE) ==> (r matches Err(e) && (e matches ApiError::Validation(m) && m@
            == "Batch size must be between 1 and 10000"@)),
{
    if batch_size == 0 || batch_size > MAX_BATCH_SIZE {
        return Err(ApiError::Validation("Batch size must be between 1 and 10000".to_owned()));
    }
    Ok(())
}

/// Refuses to add items to a batch that is no longer pending.
pub fn validate_batch_open(status: &str) -> (r: Result<(), ApiError>)
    ensures
        status@ == "pending"@ ==> r is Ok,
        status@ != "pending"@ ==> (r matches Err(e) && (e matches ApiError::Validation(m) && m@
            == "Cannot add items to a non-pending batch"@)),
{
    if !str_eq(status, "pending") {
        return Err(ApiError::Validation("Cannot add items to a non-pending batch".to_owned()));
    }
    Ok(())
}

/// The key of a new batch: the merchant, a hyphen and a fresh identifier.
pub fn batch_key(merchant_id: &str, unique: &str) -> (r: String)
    ensures
        r@ == merchant_id@ + "-"@ + unique@,
{
    concat(concat(merchant_id, "-").as_str(), unique)
}

/// The key of a new batch of `merchant_id`, with a fresh random UUID.
pub fn new_batch_key(merchant_id: &str) -> (r: String)
    ensures
        exists|b: Seq<u8>| b.len() == 16 && #[trigger] uuid_text_of(b).len() == 36 && r@ == merchant_id@ + "-"@
            + uuid_text_of(b),
{
    let unique = new_uuid_text();
    batch_key(merchant_id, unique.as_str())
}

/// Whether moving a batch to `status` finishes it (and stamps its
/// completion time): `completed` and `failed` do.
pub fn batch_status_finishes(status: &str) -> (r: bool)
    ensures
        r == (status@ == "completed"@ || status@ == "failed"@),
{
    str_eq(status, "completed") || str_eq(status, "failed")
}

/// Whether an item that has been retried `retry_count` times may be tried
/// again under `max_retries` (compared as stored, in `i32`).
pub open spec fn may_retry(retry_count: i32, max_retries: u32) -> bool {
    retry_count < max_retries as i32
}

/// What became of one pending item in a processing run.
#[derive(Debug, Clone, Copy, PartialEq, Eq, Structural)]
pub enum ItemOutcome {
    /// Attempted and processed.
    Processed,
    /// Attempted and failed; its retry count goes up.
    AttemptFailed,
    /// Not attempted: its retries are used up, and it is marked failed.
    RetriesExhausted,
}

/// The outcome of an item: attempted when it may be retried, with the
/// attempt's success deciding.
pub fn item_outcome(retry_count: i32, max_retries: u32, attempt_succeeded: bool) -> (r: ItemOutcome)
    ensures
        r == (if may_retry(retry_count, max_retries) {
            if attempt_succeeded {
                ItemOutcome::Processed
            } else {
                ItemOutcome::AttemptFailed
            }
        } else {
            ItemOutcome::RetriesExhausted
        }),
{
    if retry_count < max_retries as i32 {
        if attempt_succeeded {
            ItemOutcome::Processed
        } else {
            ItemOutcome::AttemptFailed
        }
    } else {
        ItemOutcome::RetriesExhausted
    }
}

/// The number of processed items among `outcomes`.
pub open spec fn processed_count(outcomes: Seq<ItemOutcome>) -> nat
    decreases outcomes.len(),
{
    if outcomes.len() == 0 {
        0
    } else {
        processed_count(outcomes.drop_last()) + if outcomes.last() == ItemOutcome::Processed {
            1nat
        } else {
            0nat
        }
    }
}

/// The status a processing run leaves a batch in: completed when nothing
/// failed, partially failed when some items went through, failed otherwise.
pub open spec fn final_status_spec(processed: nat, failed: nat) -> BatchStatus {
    if failed == 0 {
        BatchStatus::Completed
    } else if processed > 0 {
        BatchStatus::PartialFailure
    } else {
        BatchStatus::Failed
    }
}

/// The tally of a processing run.
#[derive(Debug, Clone, Copy, PartialEq, Eq, Structural)]
pub struct BatchTally {
    pub processed: u32,
    pub failed: u32,
    pub status: BatchStatus,
}

/// Tallies the outcomes of a processing run over a batch's pending items.
pub fn settle_batch(outcomes: &Vec<ItemOutcome>) -> (r: BatchTally)
    requires
        outcomes@.len() <= u32::MAX,
    ensures
        r.processed == processed_count(outcomes@),
        r.processed + r.failed == outcomes@.len(),
        r.status == final_status_spec(r.processed as nat, r.failed as nat),
{
    let n = outcomes.len();
    let mut processed: u32 = 0;
    let mut failed: u32 = 0;
    let mut i: usize = 0;
    while i < n
        invariant
            n == outcomes@.len(),
            n <= u32::MAX,
            i <= n,
            processed == processed_count(outcomes@.subrange(0, i as int)),
            processed + failed == i,
        decreases n - i,
    {
        proof {
            assert(outcomes@.subrange(0, i + 1).drop_last() =~= outcomes@.subrange(0, i as int));
        }
        if outcomes[i] == ItemOutcome::Processed {
            processed = processed + 1;
        } else {
            failed = failed + 1;
        }
        i = i + 1;
    }
    assert(outcomes@.subrange(0, n as int) =~= outcomes@);
    let status = if failed == 0 {
        BatchStatus::Completed
    } else if processed > 0 {
        BatchStatus::PartialFailure
    } else {
        BatchStatus::Failed
    };
    BatchTally { processed, failed, status }
}

/// A batch ends completed exactly when none of its items failed, and failed
/// outright exactly when none went through and some did not.
pub proof fn law_batch_final_status(processed: nat, failed: nat)
    ensures
        (final_status_spec(processed, failed) == BatchStatus::Completed) == (failed == 0),
        (final_status_spec(processed, failed) == BatchStatus::Failed) == (failed > 0 && processed == 0),
        (final_status_spec(processed, failed) == BatchStatus::PartialFailure) == (failed > 0 && processed > 0),
{
}

} // verus!
