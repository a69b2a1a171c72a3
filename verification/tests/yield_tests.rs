use chrono::{DateTime, NaiveDate};
use zaps::clock::Moment;
use zaps::yield_calc::{estimate_accrued_yield, estimate_for_balance, UserYieldBalance, DEFAULT_APY_BPS, SECONDS_PER_YEAR};

fn sync_at(year: i32, month: u32, day: u32) -> Moment {
    let secs = NaiveDate::from_ymd_opt(year, month, day)
        .unwrap()
        .and_hms_opt(0, 0, 0)
        .unwrap()
        .and_utc()
        .timestamp();
    Moment::new(secs, 0).unwrap()
}

fn now_at(rfc3339: &str) -> Moment {
    let t = DateTime::parse_from_rfc3339(rfc3339).unwrap();
    Moment::new(t.timestamp(), t.timestamp_subsec_nanos()).unwrap()
}

fn stored(earning_balance: i64) -> UserYieldBalance {
    UserYieldBalance {
        user_id: "7d3f1c1e-0000-4000-8000-000000000001".to_string(),
        available_balance: 0,
        earning_balance,
        last_yield_sync_at: sync_at(2026, 1, 1),
        updated_at: sync_at(2026, 1, 1),
    }
}

#[test]
fn zero_balance_yields_no_interest() {
    let est = estimate_accrued_yield(0, 500, sync_at(2026, 1, 1), now_at("2026-06-01T00:00:00Z"));
    assert_eq!(est.accrued_interest, 0);
    assert_eq!(est.total_earning_balance, 0);
}

#[test]
fn linear_interest_scales_with_time_and_balance() {
    let est = estimate_accrued_yield(1_000_000, 500, sync_at(2026, 6, 1), now_at("2026-06-02T00:00:00Z"));
    let expected = 1_000_000 * 500 * 86_400 / (10_000 * SECONDS_PER_YEAR);
    assert_eq!(est.accrued_interest, expected);
    assert_eq!(est.total_earning_balance, 1_000_000 + expected);
}

#[test]
fn negative_elapsed_is_clamped_to_zero() {
    let est = estimate_accrued_yield(500_000, 500, sync_at(2026, 6, 2), now_at("2026-06-01T00:00:00Z"));
    assert_eq!(est.accrued_interest, 0);
    assert_eq!(est.total_earning_balance, 500_000);
}

#[test]
fn zero_apy_yields_no_interest() {
    let est = estimate_accrued_yield(1_000_000, 0, sync_at(2026, 1, 1), now_at("2026-12-31T00:00:00Z"));
    assert_eq!(est.accrued_interest, 0);
    assert_eq!(est.total_earning_balance, 1_000_000);
}

#[test]
fn negative_earning_balance_yields_zero() {
    let est = estimate_accrued_yield(-100, 500, sync_at(2026, 1, 1), now_at("2026-06-01T00:00:00Z"));
    assert_eq!(est.accrued_interest, 0);
    assert_eq!(est.total_earning_balance, 0);
}

#[test]
fn full_year_at_5pct_apy_yields_correct_interest() {
    let balance = 10_000_000_i64;
    let est = estimate_accrued_yield(balance, 500, sync_at(2026, 1, 1), now_at("2027-01-01T00:00:00Z"));
    let expected = balance * 500 * SECONDS_PER_YEAR / (10_000 * SECONDS_PER_YEAR);
    assert_eq!(est.accrued_interest, expected);
    assert_eq!(est.accrued_interest, 500_000);
    assert_eq!(est.total_earning_balance, 10_500_000);
}

#[test]
fn high_apy_does_not_overflow_with_large_balance() {
    let balance = 1_000_000_000_i64;
    let est = estimate_accrued_yield(balance, 10_000, sync_at(2026, 1, 1), now_at("2027-01-01T00:00:00Z"));
    assert!(est.accrued_interest >= 0, "saturating_mul must not produce a negative result");
    assert!(est.total_earning_balance >= balance, "total must be at least the principal");
}

#[test]
fn very_large_balance_saturates_instead_of_wrapping() {
    let est = estimate_accrued_yield(i64::MAX, 10_000, sync_at(2026, 1, 1), now_at("2027-01-01T00:00:00Z"));
    assert!(est.total_earning_balance >= 0);
    // The product saturates at i64::MAX, and the total saturates too.
    assert_eq!(est.accrued_interest, i64::MAX / (10_000 * SECONDS_PER_YEAR));
    assert_eq!(est.total_earning_balance, i64::MAX);
}

#[test]
fn interest_at_one_second_elapsed_is_minimal() {
    let est = estimate_accrued_yield(1_000_000, 500, sync_at(2026, 1, 1), now_at("2026-01-01T00:00:01Z"));
    assert!(est.accrued_interest <= 1);
    assert!(est.accrued_interest >= 0);
}

#[test]
fn estimate_for_balance_uses_default_apy_when_none() {
    let balance = stored(1_000_000);
    let now = now_at("2026-06-01T00:00:00Z");
    let with_none = estimate_for_balance(&balance, None, now);
    let with_default = estimate_for_balance(&balance, Some(DEFAULT_APY_BPS), now);
    assert_eq!(with_none, with_default);
}

#[test]
fn estimate_for_balance_explicit_apy_overrides_default() {
    let balance = stored(1_000_000);
    let now = now_at("2027-01-01T00:00:00Z");
    let at_5pct = estimate_for_balance(&balance, Some(500), now);
    let at_10pct = estimate_for_balance(&balance, Some(1000), now);
    assert!(at_10pct.accrued_interest > at_5pct.accrued_interest);
    assert_eq!(at_5pct.accrued_interest, 50_000);
    assert_eq!(at_10pct.accrued_interest, 100_000);
}

#[test]
fn interest_proportional_to_elapsed_time() {
    let balance = 1_000_000_i64;
    let sync = sync_at(2026, 1, 1);
    let half_year = estimate_accrued_yield(balance, 500, sync, now_at("2026-07-02T12:00:00Z"));
    let full_year = estimate_accrued_yield(balance, 500, sync, now_at("2027-01-01T00:00:00Z"));
    assert_eq!(full_year.accrued_interest, half_year.accrued_interest * 2);
}

#[test]
fn interest_proportional_to_balance() {
    let sync = sync_at(2026, 1, 1);
    let now = now_at("2026-06-01T00:00:00Z");
    let small = estimate_accrued_yield(500_000, 500, sync, now);
    let large = estimate_accrued_yield(1_000_000, 500, sync, now);
    assert_eq!(large.accrued_interest, small.accrued_interest * 2);
}

#[test]
fn sync_at_now_yields_zero_interest() {
    let now = now_at("2026-06-01T00:00:00Z");
    let est = estimate_accrued_yield(1_000_000, 500, now, now);
    assert_eq!(est.accrued_interest, 0);
    assert_eq!(est.total_earning_balance, 1_000_000);
}

#[test]
fn moments_outside_the_calendar_range_are_refused() {
    assert!(Moment::new(0, 1_000_000_000).is_none());
    assert!(Moment::new(i64::MAX, 0).is_none());
    assert!(Moment::new(0, 999_999_999).is_some());
}
