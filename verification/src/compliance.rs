//! Transaction screening: velocity limits, the combination of several
//! sanctions providers' answers, the rule-based risk score and level of a
//! transaction, and the suspicious-pattern indicators.

use vstd::prelude::*;
use crate::api_error::ApiError;
use crate::clock::Moment;
use crate::config::{RiskThresholds, VelocityLimits};
use crate::ids::{new_uuid_text, uuid_text_of};
use crate::text::{
    concat, contains_text, i64_text, push_string, signed_decimal, str_eq, strings_view, text_contains,
};

verus! {

/// How risky a screened transaction is.
#[derive(Debug, Clone, Copy, PartialEq, Eq, Structural)]
pub enum RiskLevel {
    Low,
    Medium,
    High,
    Blocked,
}

pub open spec fn risk_level_text(l: RiskLevel) -> Seq<char> {
    match l {
        RiskLevel::Low => "low"@,
        RiskLevel::Medium => "medium"@,
        RiskLevel::High => "high"@,
        RiskLevel::Blocked => "blocked"@,
    }
}

impl RiskLevel {
    /// The level as stored and reported.
    pub fn to_string(&self) -> (r: String)
        ensures
            r@ == risk_level_text(*self),
    {
        match self {
            RiskLevel::Low => "low".to_owned(),
            RiskLevel::Medium => "medium".to_owned(),
            RiskLevel::High => "high".to_owned(),
            RiskLevel::Blocked => "blocked".to_owned(),
        }
    }
}

/// `a + b`, clamped to the range of `i64`.
pub open spec fn saturating_sum(a: i64, b: i64) -> i64 {
    if a + b > i64::MAX {
        i64::MAX
    } else if a + b < i64::MIN {
        i64::MIN
    } else {
        (a + b) as i64
    }
}

/// `a + b`, clamped to the range of `i64` (`i64::saturating_add`).
pub fn saturating_add_i64(a: i64, b: i64) -> (r: i64)
    ensures
        r == saturating_sum(a, b),
{
    match a.checked_add(b) {
        Some(s) => s,
        None => if b > 0 {
            i64::MAX
        } else {
            i64::MIN
        },
    }
}

/// Whether a transaction needs the sender's recent totals to be judged:
/// a negative amount, or one above the per-transaction maximum, is refused
/// outright.
pub open spec fn needs_totals_spec(amount: i64, limits: VelocityLimits) -> bool {
    amount >= 0 && amount as u64 <= limits.max_transaction_amount
}

/// Whether a transaction of `amount` stays within the velocity limits,
/// given what the sender moved in the last day and the last thirty days.
pub open spec fn within_limits_spec(amount: i64, limits: VelocityLimits, daily_total: i64, monthly_total: i64) -> bool {
    &&& needs_totals_spec(amount, limits)
    &&& saturating_sum(daily_total, amount) <= limits.daily_transaction_limit as i64
    &&& saturating_sum(monthly_total, amount) <= limits.monthly_transaction_limit as i64
}

/// Whether the sender's recent totals are needed to judge `amount`.
pub fn needs_velocity_totals(amount: i64, limits: &VelocityLimits) -> (r: bool)
    ensures
        r == needs_totals_spec(amount, *limits),
{
    amount >= 0 && amount as u64 <= limits.max_transaction_amount
}

/// Whether a transaction of `amount` stays within the velocity limits.
pub fn check_velocity_limits(amount: i64, limits: &VelocityLimits, daily_total: i64, monthly_total: i64) -> (r:
    bool)
    ensures
        r == within_limits_spec(amount, *limits, daily_total, monthly_total),
{
    if !needs_velocity_totals(amount, limits) {
        return false;
    }
    saturating_add_i64(daily_total, amount) <= limits.daily_transaction_limit as i64 && saturating_add_i64(
        monthly_total,
        amount,
    ) <= limits.monthly_transaction_limit as i64
}

/// What a sanctions screening reports.
#[derive(Debug)]
pub struct SanctionsApiResponse {
    pub sanctioned: bool,
    pub risk_score: Option<u8>,
    pub reasons: Vec<String>,
}

/// What one provider's screening came to.
#[derive(Debug)]
pub enum ProviderOutcome {
    /// The provider answered.
    Screened { provider_name: String, sanctioned: bool, risk_score: Option<u8>, reasons: Vec<String> },
    /// The request to the provider failed or timed out.
    Failed { provider_name: String },
    /// The screening task itself was lost.
    Lost,
}

/// The reasons one provider's outcome contributes, in order.
pub open spec fn outcome_reasons(o: ProviderOutcome) -> Seq<Seq<char>> {
    match o {
        ProviderOutcome::Screened { provider_name, sanctioned, reasons, .. } => (if sanctioned {
            seq![provider_name@ + ": sanctioned"@]
        } else {
            seq![]
        }) + strings_view(reasons@),
        ProviderOutcome::Failed { provider_name } => seq![provider_name@ + ": screening failed"@],
        ProviderOutcome::Lost => seq!["provider_timeout"@],
    }
}

pub open spec fn outcome_sanctioned(o: ProviderOutcome) -> bool {
    o matches ProviderOutcome::Screened { sanctioned, .. } && sanctioned
}

pub open spec fn outcome_score(o: ProviderOutcome) -> u8 {
    match o {
        ProviderOutcome::Screened { risk_score: Some(s), .. } => s,
        _ => 0,
    }
}

pub open spec fn max_u8(a: u8, b: u8) -> u8 {
    if a >= b {
        a
    } else {
        b
    }
}

/// The reasons of all outcomes, in provider order.
pub open spec fn combined_reasons(os: Seq<ProviderOutcome>) -> Seq<Seq<char>>
    decreases os.len(),
{
    if os.len() == 0 {
        seq![]
    } else {
        combined_reasons(os.drop_last()) + outcome_reasons(os.last())
    }
}

/// Whether any provider reports a sanction.
pub open spec fn combined_sanctioned(os: Seq<ProviderOutcome>) -> bool {
    exists|i: int| 0 <= i < os.len() && outcome_sanctioned(#[trigger] os[i])
}

/// The highest score any provider reports, or 0.
pub open spec fn combined_score(os: Seq<ProviderOutcome>) -> u8
    decreases os.len(),
{
    if os.len() == 0 {
        0
    } else {
        max_u8(combined_score(os.drop_last()), outcome_score(os.last()))
    }
}

/// The screening that several providers' outcomes add up to: sanctioned if
/// any provider says so, the highest reported score (none if that is 0),
/// and every provider's reasons in provider order.
pub open spec fn combined_screening_reasons(os: Seq<ProviderOutcome>) -> (bool, Option<u8>, Seq<Seq<char>>) {
    (
        combined_sanctioned(os),
        if combined_score(os) > 0 {
            Some(combined_score(os))
        } else {
            None
        },
        combined_reasons(os),
    )
}

pub open spec fn screening_view(r: SanctionsApiResponse) -> (bool, Option<u8>, Seq<Seq<char>>) {
    (r.sanctioned, r.risk_score, strings_view(r.reasons@))
}

fn append_strings(acc: &mut Vec<String>, more: &Vec<String>)
    ensures
        strings_view(final(acc)@) == strings_view(old(acc)@) + strings_view(more@),
{
    let ghost start = strings_view(acc@);
    let ghost all = strings_view(more@);
    let n = more.len();
    let mut k: usize = 0;
    while k < n
        invariant
            n == more@.len(),
            all == strings_view(more@),
            k <= n,
            strings_view(acc@) == start + all.subrange(0, k as int),
        decreases n - k,
    {
        push_string(acc, more[k].clone());
        k = k + 1;
        assert(strings_view(acc@) =~= start + all.subrange(0, k as int));
    }
    assert(all.subrange(0, n as int) =~= all);
}

/// Combines the outcomes of screening one address with every enabled
/// provider; with no provider there is nothing to combine.
pub fn combine_screenings(outcomes: Vec<ProviderOutcome>) -> (r: Result<SanctionsApiResponse, ApiError>)
    ensures
        match r {
            Ok(s) => outcomes@.len() > 0 && screening_view(s) == combined_screening_reasons(outcomes@),
            Err(e) => outcomes@.len() == 0 && (e matches ApiError::Compliance(m) && m@
                == "No sanctions providers configured"@),
        },
{
    if outcomes.len() == 0 {
        return Err(ApiError::Compliance("No sanctions providers configured".to_owned()));
    }
    let ghost all = outcomes@;
    let n = outcomes.len();
    let mut sanctioned = false;
    let mut score: u8 = 0;
    let mut reasons: Vec<String> = Vec::new();
    let mut rest = outcomes;
    let mut k: usize = 0;
    while k < n
        invariant
            n == all.len(),
            k <= n,
            rest@ == all.subrange(k as int, n as int),
            sanctioned == combined_sanctioned(all.subrange(0, k as int)),
            score == combined_score(all.subrange(0, k as int)),
            strings_view(reasons@) == combined_reasons(all.subrange(0, k as int)),
        decreases n - k,
    {
        let o = rest.remove(0);
        let ghost prefix = all.subrange(0, k as int);
        let ghost next = all.subrange(0, k + 1);
        proof {
            assert(o == all[k as int]);
            assert(rest@ =~= all.subrange(k + 1, n as int));
            assert(next.drop_last() =~= prefix);
            assert(next.last() == o);
        }
        match o {
            ProviderOutcome::Screened { provider_name, sanctioned: s, risk_score, reasons: rs } => {
                if s {
                    sanctioned = true;
                    push_string(&mut reasons, concat(provider_name.as_str(), ": sanctioned"));
                }
                match risk_score {
                    Some(v) => {
                        if v > score {
                            score = v;
                        }
                    },
                    None => {},
                }
                append_strings(&mut reasons, &rs);
            },
            ProviderOutcome::Failed { provider_name } => {
                push_string(&mut reasons, concat(provider_name.as_str(), ": screening failed"));
            },
            ProviderOutcome::Lost => {
                push_string(&mut reasons, "provider_timeout".to_owned());
            },
        }
        k = k + 1;
        proof {
            assert(strings_view(reasons@) =~= combined_reasons(next));
            if sanctioned {
                if outcome_sanctioned(all[k - 1]) {
                    assert(next[k - 1] == all[k - 1]);
                } else {
                    let w = choose|i: int| 0 <= i < prefix.len() && outcome_sanctioned(#[trigger] prefix[i]);
                    assert(next[w] == prefix[w]);
                }
            } else {
                assert forall|i: int| 0 <= i < next.len() implies !outcome_sanctioned(#[trigger] next[i]) by {
                    if i < prefix.len() {
                        assert(next[i] == prefix[i]);
                    }
                }
            }
        }
    }
    proof {
        assert(all.subrange(0, n as int) =~= all);
    }
    Ok(SanctionsApiResponse { sanctioned, risk_score: if score > 0 {
        Some(score)
    } else {
        None
    }, reasons })
}

/// Whether the single sanctions provider is really configured: its URL is
/// not a placeholder on example.com and its key is not the placeholder.
pub open spec fn provider_configured_spec(api_url: Seq<char>, api_key: Seq<char>) -> bool {
    !contains_text(api_url, "example.com"@) && api_key != "api-key"@
}

/// Whether the single sanctions provider is configured.
pub fn sanctions_provider_configured(api_url: &str, api_key: &str) -> (r: bool)
    ensures
        r == provider_configured_spec(api_url@, api_key@),
{
    !text_contains(api_url, "example.com") && !str_eq(api_key, "api-key")
}

/// The screening reported while no provider is configured: clean, with the
/// reason that no provider was asked.
pub fn unconfigured_screening() -> (r: SanctionsApiResponse)
    ensures
        screening_view(r) == (false, None::<u8>, seq!["sanctions_provider_not_configured"@]),
{
    let mut reasons: Vec<String> = Vec::new();
    push_string(&mut reasons, "sanctions_provider_not_configured".to_owned());
    assert(strings_view(reasons@) =~= seq!["sanctions_provider_not_configured"@]);
    SanctionsApiResponse { sanctioned: false, risk_score: None, reasons }
}

/// The rule-based assessment of one transaction.
#[derive(Debug)]
pub struct TransactionRiskAssessment {
    pub user_id: String,
    pub address: String,
    pub amount: i64,
    pub risk_score: u8,
    pub risk_level: RiskLevel,
    pub sanctions_match: bool,
    pub velocity_limit_exceeded: bool,
    pub reasons: Vec<String>,
}

/// Whether pattern `p` marks `address`: a non-empty pattern that occurs in it.
pub open spec fn pattern_marks(address: Seq<char>, p: Seq<char>) -> bool {
    p.len() > 0 && contains_text(address, p)
}

/// Whether any of the patterns marks `address`.
pub open spec fn any_pattern_marks(address: Seq<char>, patterns: Seq<Seq<char>>) -> bool {
    exists|i: int| 0 <= i < patterns.len() && pattern_marks(address, #[trigger] patterns[i])
}

/// The reasons the patterns that mark `address` give, in pattern order.
pub open spec fn pattern_reasons(address: Seq<char>, patterns: Seq<Seq<char>>) -> Seq<Seq<char>>
    decreases patterns.len(),
{
    if patterns.len() == 0 {
        seq![]
    } else {
        let rest = pattern_reasons(address, patterns.drop_last());
        if pattern_marks(address, patterns.last()) {
            rest.push("suspicious_pattern:"@ + patterns.last())
        } else {
            rest
        }
    }
}

/// The score of a transaction: the provider score raised to 100 for a
/// sanction, to 80 or 45 for a high or medium amount (the amount read as
/// unsigned), to 75 past the velocity limits and to 70 for a suspicious
/// address.
pub open spec fn assessed_score(
    base: Option<u8>,
    sanctioned: bool,
    amount: i64,
    t: RiskThresholds,
    velocity_ok: bool,
    marked: bool,
) -> u8 {
    let s0: u8 = match base {
        Some(s) => s,
        None => 0,
    };
    let s1 = if sanctioned {
        max_u8(s0, 100)
    } else {
        s0
    };
    let s2 = if amount as u64 >= t.high_risk_amount {
        max_u8(s1, 80)
    } else if amount as u64 >= t.medium_risk_amount {
        max_u8(s1, 45)
    } else {
        s1
    };
    let s3 = if !velocity_ok {
        max_u8(s2, 75)
    } else {
        s2
    };
    if marked {
        max_u8(s3, 70)
    } else {
        s3
    }
}

/// The reasons of an assessment, in the order they are found.
pub open spec fn assessed_reasons(
    base: Seq<Seq<char>>,
    sanctioned: bool,
    amount: i64,
    t: RiskThresholds,
    velocity_ok: bool,
    address: Seq<char>,
) -> Seq<Seq<char>> {
    base + (if sanctioned {
        seq!["sanctions_match"@]
    } else {
        seq![]
    }) + (if amount as u64 >= t.high_risk_amount {
        seq!["high_value_transaction"@]
    } else if amount as u64 >= t.medium_risk_amount {
        seq!["medium_value_transaction"@]
    } else {
        seq![]
    }) + (if !velocity_ok {
        seq!["velocity_limit_exceeded"@]
    } else {
        seq![]
    }) + pattern_reasons(address, strings_view(t.suspicious_patterns@))
}

/// The level of an assessment: blocked on a sanction, else by score.
pub open spec fn assessed_level(sanctioned: bool, score: u8) -> RiskLevel {
    if sanctioned {
        RiskLevel::Blocked
    } else if score >= 75 {
        RiskLevel::High
    } else if score >= 40 {
        RiskLevel::Medium
    } else {
        RiskLevel::Low
    }
}

fn raise(score: u8, floor: u8) -> (r: u8)
    ensures
        r == max_u8(score, floor),
{
    if score >= floor {
        score
    } else {
        floor
    }
}

/// Assesses a transaction of `amount` by `user_id` to `address`, given the
/// combined sanctions screening of the address and whether the transaction
/// stays within the velocity limits.
pub fn assess_transaction_risk(
    user_id: &str,
    address: &str,
    amount: i64,
    sanctions: SanctionsApiResponse,
    velocity_ok: bool,
    thresholds: &RiskThresholds,
) -> (r: TransactionRiskAssessment)
    ensures
        r.user_id@ == user_id@,
        r.address@ == address@,
        r.amount == amount,
        r.sanctions_match == sanctions.sanctioned,
        r.velocity_limit_exceeded == !velocity_ok,
        r.risk_score == assessed_score(
            sanctions.risk_score,
            sanctions.sanctioned,
            amount,
            *thresholds,
            velocity_ok,
            any_pattern_marks(address@, strings_view(thresholds.suspicious_patterns@)),
        ),
        r.risk_level == assessed_level(sanctions.sanctioned, r.risk_score),
        strings_view(r.reasons@) == assessed_reasons(
            strings_view(sanctions.reasons@),
            sanctions.sanctioned,
            amount,
            *thresholds,
            velocity_ok,
            address@,
        ),
{
    let sanctioned = sanctions.sanctioned;
    let mut score: u8 = match sanctions.risk_score {
        Some(s) => s,
        None => 0,
    };
    let mut reasons = sanctions.reasons;
    let ghost base = strings_view(reasons@);
    if sanctioned {
        score = raise(score, 100);
        push_string(&mut reasons, "sanctions_match".to_owned());
    }
    if amount as u64 >= thresholds.high_risk_amount {
        score = raise(score, 80);
        push_string(&mut reasons, "high_value_transaction".to_owned());
    } else if amount as u64 >= thresholds.medium_risk_amount {
        score = raise(score, 45);
        push_string(&mut reasons, "medium_value_transaction".to_owned());
    }
    if !velocity_ok {
        score = raise(score, 75);
        push_string(&mut reasons, "velocity_limit_exceeded".to_owned());
    }
    let ghost before_patterns = strings_view(reasons@);
    let ghost s3 = score;
    let ghost pats = strings_view(thresholds.suspicious_patterns@);
    proof {
        assert(before_patterns == base + (if sanctioned {
            seq!["sanctions_match"@]
        } else {
            seq![]
        }) + (if amount as u64 >= thresholds.high_risk_amount {
            seq!["high_value_transaction"@]
        } else if amount as u64 >= thresholds.medium_risk_amount {
            seq!["medium_value_transaction"@]
        } else {
            seq![]
        }) + (if !velocity_ok {
            seq!["velocity_limit_exceeded"@]
        } else {
            seq![]
        }));
    }
    let n = thresholds.suspicious_patterns.len();
    let mut i: usize = 0;
    let mut marked = false;
    while i < n
        invariant
            n == pats.len(),
            pats == strings_view(thresholds.suspicious_patterns@),
            i <= n,
            marked == any_pattern_marks(address@, pats.subrange(0, i as int)),
            score == (if marked {
                max_u8(s3, 70)
            } else {
                s3
            }),
            strings_view(reasons@) == before_patterns + pattern_reasons(address@, pats.subrange(0, i as int)),
        decreases n - i,
    {
        let p = &thresholds.suspicious_patterns[i];
        let ghost prefix = pats.subrange(0, i as int);
        let ghost next = pats.subrange(0, i + 1);
        proof {
            assert(next.drop_last() =~= prefix);
            assert(next.last() == p@);
        }
        if !p.as_str().is_empty() && text_contains(address, p.as_str()) {
            score = raise(score, 70);
            push_string(&mut reasons, concat("suspicious_pattern:", p.as_str()));
            marked = true;
            proof {
                assert(pattern_marks(address@, next[i as int]));
            }
        } else {
            proof {
                assert forall|j: int| 0 <= j < next.len() implies !pattern_marks(address@, #[trigger] next[j])
                    || marked by {
                    if j < prefix.len() {
                        assert(next[j] == prefix[j]);
                    }
                }
            }
        }
        proof {
            if marked && !any_pattern_marks(address@, prefix) {
                assert(pattern_marks(address@, next[i as int]));
            }
            if any_pattern_marks(address@, prefix) {
                let w = choose|j: int| 0 <= j < prefix.len() && pattern_marks(address@, #[trigger] prefix[j]);
                assert(next[w] == prefix[w]);
            }
            assert(strings_view(reasons@) =~= before_patterns + pattern_reasons(address@, next));
        }
        i = i + 1;
    }
    proof {
        assert(pats.subrange(0, n as int) =~= pats);
    }
    let risk_level = if sanctioned {
        RiskLevel::Blocked
    } else if score >= 75 {
        RiskLevel::High
    } else if score >= 40 {
        RiskLevel::Medium
    } else {
        RiskLevel::Low
    };
    TransactionRiskAssessment {
        user_id: user_id.to_owned(),
        address: address.to_owned(),
        amount,
        risk_score: score,
        risk_level,
        sanctions_match: sanctioned,
        velocity_limit_exceeded: !velocity_ok,
        reasons,
    }
}


/// A provider that reports a sanction makes the combined screening
/// sanctioned, and a sanctioned screening blocks the transaction with a
/// score of at least 100 and the `sanctions_match` reason, whatever else
/// holds.
pub proof fn law_any_sanction_blocks(
    os: Seq<ProviderOutcome>,
    i: int,
    amount: i64,
    t: RiskThresholds,
    velocity_ok: bool,
    marked: bool,
    base: Seq<Seq<char>>,
    address: Seq<char>,
)
    requires
        0 <= i < os.len(),
        outcome_sanctioned(os[i]),
    ensures
        combined_screening_reasons(os).0,
        assessed_level(true, assessed_score(combined_screening_reasons(os).1, true, amount, t, velocity_ok, marked))
            == RiskLevel::Blocked,
        assessed_score(combined_screening_reasons(os).1, true, amount, t, velocity_ok, marked) >= 100,
        assessed_reasons(base, true, amount, t, velocity_ok, address)[base.len() as int] == "sanctions_match"@,
{
}

/// The risk score never falls below what the providers reported and the
/// rules' floors, and the level follows the score: a high amount or
/// exceeded velocity limits make a transaction at least high risk, a medium
/// amount or a suspicious address at least medium; only a sanction blocks.
pub proof fn law_risk_floors(
    base: Option<u8>,
    sanctioned: bool,
    amount: i64,
    t: RiskThresholds,
    velocity_ok: bool,
    marked: bool,
)
    ensures
        ({
            let score = assessed_score(base, sanctioned, amount, t, velocity_ok, marked);
            let level = assessed_level(sanctioned, score);
            &&& base matches Some(b) ==> score >= b
            &&& (level == RiskLevel::Blocked) == sanctioned
            &&& amount as u64 >= t.high_risk_amount ==> score >= 80 && (level == RiskLevel::High || level
                == RiskLevel::Blocked)
            &&& !velocity_ok ==> score >= 75 && (level == RiskLevel::High || level == RiskLevel::Blocked)
            &&& amount as u64 >= t.medium_risk_amount ==> score >= 45 && level != RiskLevel::Low
            &&& marked ==> score >= 70 && level != RiskLevel::Low
        }),
{
}

/// The combined score is the highest score any provider reported, or 0
/// when none did.
pub proof fn law_combined_score_is_highest(os: Seq<ProviderOutcome>)
    ensures
        forall|i: int| 0 <= i < os.len() ==> combined_score(os) >= outcome_score(#[trigger] os[i]),
        combined_score(os) == 0 || exists|i: int| 0 <= i < os.len() && combined_score(os) == outcome_score(
            #[trigger] os[i],
        ),
    decreases os.len(),
{
    if os.len() > 0 {
        let init = os.drop_last();
        law_combined_score_is_highest(init);
        assert forall|i: int| 0 <= i < os.len() implies combined_score(os) >= outcome_score(#[trigger] os[i]) by {
            if i < init.len() {
                assert(os[i] == init[i]);
            }
        }
        if combined_score(os) != 0 {
            if combined_score(os) == outcome_score(os.last()) {
                assert(os[os.len() - 1] == os.last());
            } else {
                let w = choose|i: int| 0 <= i < init.len() && combined_score(init) == outcome_score(#[trigger] init[i]);
                assert(os[w] == init[w]);
            }
        }
    }
}

/// A transaction within the velocity limits has a non-negative amount no
/// larger than the per-transaction maximum, and it stays within them when
/// the sender's recent totals are smaller.
pub proof fn law_velocity_limits_monotone(
    amount: i64,
    limits: VelocityLimits,
    daily_total: i64,
    monthly_total: i64,
    smaller_daily: i64,
    smaller_monthly: i64,
)
    requires
        smaller_daily <= daily_total,
        smaller_monthly <= monthly_total,
    ensures
        within_limits_spec(amount, limits, daily_total, monthly_total) ==> {
            &&& 0 <= amount
            &&& amount as u64 <= limits.max_transaction_amount
            &&& within_limits_spec(amount, limits, smaller_daily, smaller_monthly)
        },
{
}

/// One suspicious-pattern indicator found in a user's recent activity.
#[derive(Debug)]
pub struct PatternFinding {
    pub indicator_type: String,
    pub severity: String,
    pub description: String,
}

pub open spec fn finding_view(f: PatternFinding) -> (Seq<char>, Seq<char>, Seq<char>) {
    (f.indicator_type@, f.severity@, f.description@)
}

/// The indicators that a user's counts raise: more than 5 payments just
/// below the high-risk amount in a day (structuring), money flowing both
/// ways with more than 2 addresses (circular flow), and more than 10
/// payments in an hour (layering).
pub open spec fn pattern_findings_spec(structuring: i64, circular: i64, rapid: i64) -> Seq<
    (Seq<char>, Seq<char>, Seq<char>),
> {
    (if structuring > 5 {
        seq![
            (
                "structured_transaction"@,
                "high"@,
                "Detected "@ + signed_decimal(structuring as int) + " potential structuring transactions"@,
            ),
        ]
    } else {
        seq![]
    }) + (if circular > 2 {
        seq![
            (
                "circular_flow"@,
                "high"@,
                "Detected circular money flows with "@ + signed_decimal(circular as int) + " addresses"@,
            ),
        ]
    } else {
        seq![]
    }) + (if rapid > 10 {
        seq![
            (
                "layering"@,
                "critical"@,
                "Detected potential layering: "@ + signed_decimal(rapid as int) + " transactions in 1 hour"@,
            ),
        ]
    } else {
        seq![]
    })
}

fn finding(indicator_type: &str, severity: &str, description: String) -> (f: PatternFinding)
    ensures
        finding_view(f) == (indicator_type@, severity@, description@),
{
    PatternFinding { indicator_type: indicator_type.to_owned(), severity: severity.to_owned(), description }
}

/// The suspicious-pattern indicators raised by a user's structuring,
/// circular-flow and rapid-payment counts, in that order.
pub fn suspicious_pattern_findings(structuring_count: i64, circular_count: i64, rapid_count: i64) -> (r: Vec<
    PatternFinding,
>)
    ensures
        r@.map_values(|f: PatternFinding| finding_view(f)) == pattern_findings_spec(
            structuring_count,
            circular_count,
            rapid_count,
        ),
{
    let mut r: Vec<PatternFinding> = Vec::new();
    if structuring_count > 5 {
        let d = concat(
            concat("Detected ", i64_text(structuring_count).as_str()).as_str(),
            " potential structuring transactions",
        );
        r.push(finding("structured_transaction", "high", d));
    }
    if circular_count > 2 {
        let d = concat(
            concat("Detected circular money flows with ", i64_text(circular_count).as_str()).as_str(),
            " addresses",
        );
        r.push(finding("circular_flow", "high", d));
    }
    if rapid_count > 10 {
        let d = concat(
            concat("Detected potential layering: ", i64_text(rapid_count).as_str()).as_str(),
            " transactions in 1 hour",
        );
        r.push(finding("layering", "critical", d));
    }
    assert(r@.map_values(|f: PatternFinding| finding_view(f)) =~= pattern_findings_spec(
        structuring_count,
        circular_count,
        rapid_count,
    ));
    r
}

/// Whether `t` is the hyphenated text of a version-4 UUID.
pub open spec fn is_uuid_text(t: Seq<char>) -> bool {
    exists|b: Seq<u8>| b.len() == 16 && b[6] / 16 == 4 && #[trigger] uuid_text_of(b) == t
}

/// A suspicious-pattern indicator as it is recorded: the finding, its own
/// identifier, the identifier of the assessment that raised it and when.
#[derive(Debug)]
pub struct RiskIndicator {
    pub id: String,
    pub assessment_id: String,
    pub indicator_type: String,
    pub severity: String,
    pub description: String,
    pub detected_at: Moment,
}

pub open spec fn indicator_finding(i: RiskIndicator) -> (Seq<char>, Seq<char>, Seq<char>) {
    (i.indicator_type@, i.severity@, i.description@)
}

/// The indicators raised by a user's structuring, circular-flow and
/// rapid-payment counts at `now`: the findings in that order, all under one
/// fresh assessment identifier, each with a fresh identifier of its own.
pub fn detect_suspicious_patterns(structuring_count: i64, circular_count: i64, rapid_count: i64, now: Moment) -> (r:
    Vec<RiskIndicator>)
    ensures
        r@.map_values(|i: RiskIndicator| indicator_finding(i)) == pattern_findings_spec(
            structuring_count,
            circular_count,
            rapid_count,
        ),
        forall|k: int| 0 <= k < r@.len() ==> is_uuid_text(#[trigger] r@[k].id@),
        forall|k: int| 0 <= k < r@.len() ==> is_uuid_text(#[trigger] r@[k].assessment_id@),
        forall|k: int, m: int|
            0 <= k < r@.len() && 0 <= m < r@.len() ==> #[trigger] r@[k].assessment_id@ == #[trigger] r@[m].assessment_id@,
        forall|k: int| 0 <= k < r@.len() ==> #[trigger] r@[k].detected_at == now,
{
    let assessment_id = new_uuid_text();
    let findings = suspicious_pattern_findings(structuring_count, circular_count, rapid_count);
    let ghost spec_findings = pattern_findings_spec(structuring_count, circular_count, rapid_count);
    let mut r: Vec<RiskIndicator> = Vec::new();
    let n = findings.len();
    let mut k: usize = 0;
    while k < n
        invariant
            n == findings@.len(),
            k <= n,
            findings@.map_values(|f: PatternFinding| finding_view(f)) == spec_findings,
            is_uuid_text(assessment_id@),
            r@.len() == k,
            forall|j: int| 0 <= j < k ==> indicator_finding(#[trigger] r@[j]) == finding_view(findings@[j]),
            forall|j: int| 0 <= j < k ==> is_uuid_text(#[trigger] r@[j].id@),
            forall|j: int| 0 <= j < k ==> #[trigger] r@[j].assessment_id@ == assessment_id@,
            forall|j: int| 0 <= j < k ==> #[trigger] r@[j].detected_at == now,
        decreases n - k,
    {
        let f = &findings[k];
        let id = new_uuid_text();
        r.push(
            RiskIndicator {
                id,
                assessment_id: assessment_id.clone(),
                indicator_type: f.indicator_type.clone(),
                severity: f.severity.clone(),
                description: f.description.clone(),
                detected_at: now,
            },
        );
        k = k + 1;
    }
    proof {
        assert(r@.map_values(|i: RiskIndicator| indicator_finding(i)) =~= findings@.map_values(
            |f: PatternFinding| finding_view(f),
        ));
    }
    r
}

/// What the screening decided, as recorded in the metrics.
pub fn screening_decision(level: RiskLevel) -> (r: &'static str)
    ensures
        r@ == (match level {
            RiskLevel::Blocked => "blocked"@,
            RiskLevel::High => "flagged"@,
            _ => "approved"@,
        }),
{
    match level {
        RiskLevel::Blocked => "blocked",
        RiskLevel::High => "flagged",
        _ => "approved",
    }
}

/// Whether an assessment at `level` opens a compliance case for review.
pub fn needs_review_case(level: RiskLevel) -> (r: bool)
    ensures
        r == (level == RiskLevel::High || level == RiskLevel::Blocked),
{
    match level {
        RiskLevel::High | RiskLevel::Blocked => true,
        _ => false,
    }
}

/// The priority of the review case an assessment opens.
pub fn review_case_priority(level: RiskLevel) -> (r: &'static str)
    ensures
        r@ == (if level == RiskLevel::Blocked {
            "critical"@
        } else {
            "high"@
        }),
{
    if level == RiskLevel::Blocked {
        "critical"
    } else {
        "high"
    }
}

/// Whether `hour` (0 to 23) falls within business hours, 9 to 17 inclusive.
pub fn within_business_hours(hour: u32) -> (r: bool)
    ensures
        r == (9 <= hour <= 17),
{
    9 <= hour && hour <= 17
}

} // verus!
