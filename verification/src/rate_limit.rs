//! The request rate limiter: a token bucket per client, refilled by whole
//! elapsed seconds, and the key a client is known by.

use vstd::prelude::*;
use crate::store::Store;

verus! {

/// Nanoseconds per second on the limiter's clock.
pub const NANOS_PER_SEC: u64 = 1_000_000_000;

/// One client's bucket: the tokens left and the instant of the last refill
/// (nanoseconds on a monotonic clock).
#[derive(Debug, Clone, Copy, PartialEq, Eq, Structural)]
pub struct Bucket {
    pub tokens: i64,
    pub last_refill: u64,
}

/// The whole seconds from `last` to `now`; none when `now` is not later.
pub open spec fn whole_seconds(last: u64, now: u64) -> int {
    if now > last {
        (now - last) / NANOS_PER_SEC as int
    } else {
        0
    }
}

/// One request from a client with bucket `b` (a fresh client starts with a
/// full bucket): the bucket is refilled by `tokens_per_second` for each
/// whole second since the last refill, up to `max_tokens` (and, for a
/// draining rate, down to no less than `i64::MIN`), and the request is let
/// through, taking a token, while there is one.
pub open spec fn rate_step(b: Option<Bucket>, now: u64, tokens_per_second: i64, max_tokens: i64) -> (Bucket, bool) {
    let start = match b {
        Some(x) => x,
        None => Bucket { tokens: max_tokens, last_refill: now },
    };
    let elapsed = whole_seconds(start.last_refill, now);
    let refilled = if elapsed > 0 {
        let t = start.tokens + elapsed * tokens_per_second;
        Bucket {
            tokens: if t >= max_tokens {
                max_tokens
            } else if t < i64::MIN {
                i64::MIN
            } else {
                t as i64
            },
            last_refill: now,
        }
    } else {
        start
    };
    if refilled.tokens > 0 {
        (Bucket { tokens: (refilled.tokens - 1) as i64, ..refilled }, true)
    } else {
        (refilled, false)
    }
}

/// Token buckets by client key.
pub struct RateLimiter {
    buckets: Store<String, Bucket>,
    tokens_per_second: i64,
    max_tokens: i64,
}

impl View for RateLimiter {
    type V = (Map<Seq<char>, Bucket>, i64, i64);

    closed spec fn view(&self) -> (Map<Seq<char>, Bucket>, i64, i64) {
        (self.buckets@, self.tokens_per_second, self.max_tokens)
    }
}

impl RateLimiter {
    /// A limiter refilling `tokens_per_second` tokens a second up to
    /// `max_tokens`, with no client seen yet.
    pub fn new(tokens_per_second: i64, max_tokens: i64) -> (r: Self)
        ensures
            r@ == (Map::<Seq<char>, Bucket>::empty(), tokens_per_second, max_tokens),
    {
        RateLimiter { buckets: Store::new(), tokens_per_second, max_tokens }
    }

    /// Whether a request from `key` at `now` (nanoseconds on a monotonic
    /// clock) may go through; its bucket is updated either way.
    pub fn check_rate(&mut self, key: String, now: u64) -> (r: bool)
        ensures
            final(self)@.1 == old(self)@.1,
            final(self)@.2 == old(self)@.2,
            ({
                let (b, allowed) = rate_step(
                    if old(self)@.0.contains_key(key@) {
                        Some(old(self)@.0[key@])
                    } else {
                        None
                    },
                    now,
                    old(self)@.1,
                    old(self)@.2,
                );
                &&& r == allowed
                &&& final(self)@.0 == old(self)@.0.insert(key@, b)
            }),
    {
        let start: Bucket = match self.buckets.get(&key) {
            Some(b) => *b,
            None => Bucket { tokens: self.max_tokens, last_refill: now },
        };
        let elapsed: u64 = if now > start.last_refill {
            (now - start.last_refill) / NANOS_PER_SEC
        } else {
            0
        };
        let refilled = if elapsed > 0 {
            proof {
                assert(-170_141_183_460_469_231_722_463_931_679_029_329_920 <= elapsed as int
                    * self.tokens_per_second as int <= 170_141_183_460_469_231_704_017_187_605_319_778_305)
                    by (nonlinear_arith)
                    requires
                        0 <= elapsed <= 18_446_744_073_709_551_615,
                        -9_223_372_036_854_775_808 <= self.tokens_per_second <= 9_223_372_036_854_775_807,
                ;
            }
            let gain: i128 = elapsed as i128 * self.tokens_per_second as i128;
            let t: i128 = start.tokens as i128 + gain;
            Bucket {
                tokens: if t >= self.max_tokens as i128 {
                    self.max_tokens
                } else if t < i64::MIN as i128 {
                    i64::MIN
                } else {
                    t as i64
                },
                last_refill: now,
            }
        } else {
            start
        };
        let (b, allowed) = if refilled.tokens > 0 {
            (Bucket { tokens: refilled.tokens - 1, last_refill: refilled.last_refill }, true)
        } else {
            (refilled, false)
        };
        self.buckets.insert(key, b);
        allowed
    }
}

/// A bucket never holds more than `max_tokens` once a request has gone
/// through it, a request is let through exactly when the refilled bucket
/// holds a token, and without a whole second elapsing the tokens only go
/// down.
pub proof fn law_bucket_bounded(b: Option<Bucket>, now: u64, tokens_per_second: i64, max_tokens: i64)
    requires
        b matches Some(x) ==> x.tokens <= max_tokens,
    ensures
        rate_step(b, now, tokens_per_second, max_tokens).0.tokens <= max_tokens,
        b matches Some(x) ==> (whole_seconds(x.last_refill, now) == 0 ==> rate_step(b, now, tokens_per_second, max_tokens).0
            == (if x.tokens > 0 {
            Bucket { tokens: (x.tokens - 1) as i64, ..x }
        } else {
            x
        })),
{
}

/// The refill is linear in the elapsed time: after `e > 0` whole seconds a
/// bucket holding `tokens` first holds `tokens + e * tokens_per_second`,
/// capped at `max_tokens` (and floored at `i64::MIN`), restarts its clock at
/// `now`, and the request takes one of those tokens when there is one.
pub proof fn law_refill_by_elapsed_seconds(bucket: Bucket, now: u64, tokens_per_second: i64, max_tokens: i64)
    requires
        now >= bucket.last_refill + NANOS_PER_SEC,
    ensures
        ({
            let e = (now - bucket.last_refill) / 1_000_000_000int;
            let t = bucket.tokens + e * tokens_per_second;
            let refilled = if t >= max_tokens {
                max_tokens as int
            } else if t < i64::MIN {
                i64::MIN as int
            } else {
                t
            };
            let (b, allowed) = rate_step(Some(bucket), now, tokens_per_second, max_tokens);
            &&& e >= 1
            &&& allowed == (refilled > 0)
            &&& b.tokens == if refilled > 0 {
                refilled - 1
            } else {
                refilled
            }
            &&& b.last_refill == now
        }),
{
    assert((now - bucket.last_refill) / 1_000_000_000int >= 1) by (nonlinear_arith)
        requires
            now - bucket.last_refill >= 1_000_000_000,
    ;
}

/// The key a client is limited by: the forwarded-for header when present,
/// else the peer address, else `unknown`.
pub fn client_key(forwarded_for: Option<String>, peer: Option<String>) -> (r: String)
    ensures
        r@ == (match forwarded_for {
            Some(f) => f@,
            None => match peer {
                Some(p) => p@,
                None => "unknown"@,
            },
        }),
{
    match forwarded_for {
        Some(f) => f,
        None => match peer {
            Some(p) => p,
            None => "unknown".to_owned(),
        },
    }
}

} // verus!
