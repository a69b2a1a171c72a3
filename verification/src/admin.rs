//! The admin and compliance dashboard: its request and response shapes and
//! the decisions its handlers make between database reads.

use vstd::prelude::*;
use crate::json::{JsonValue, text_of};
use crate::text::{push_string, strings_view};

verus! {

#[derive(Debug, Clone, Copy)]
pub struct DashboardStats {
    pub total_users: i64,
    pub total_payments: i64,
    pub total_transfers: i64,
    pub total_withdrawals: i64,
    pub active_merchants: i64,
}

#[derive(Debug)]
pub struct SystemHealth {
    pub database: String,
    pub services: Vec<String>,
}

#[derive(Debug)]
pub struct HighRiskAlert {
    pub assessment_id: String,
    pub user_id: String,
    pub risk_score: u8,
    pub risk_level: String,
    pub reasons: Vec<String>,
    pub timestamp: String,
}

#[derive(Debug)]
pub struct SuspiciousPatternAlert {
    pub assessment_id: String,
    pub user_id: String,
    pub pattern_type: String,
    pub severity: String,
    pub description: String,
    pub detected_at: String,
}

#[derive(Debug, Clone)]
pub struct ComplianceQueryParams {
    pub limit: Option<i64>,
    pub offset: Option<i64>,
    pub priority: Option<String>,
    pub status: Option<String>,
}

#[derive(Debug, Clone, Copy)]
pub struct UpdateSanctionsProviderRequest {
    pub enabled: Option<bool>,
    pub priority: Option<i32>,
}

#[derive(Debug, Clone)]
pub struct UpdateComplianceCaseRequest {
    pub status: Option<String>,
    pub findings: Option<String>,
    pub assigned_analyst: Option<String>,
}

/// The dashboard counters, which are not collected yet and read zero.
pub fn get_dashboard_stats() -> (r: DashboardStats)
    ensures
        r.total_users == 0 && r.total_payments == 0 && r.total_transfers == 0 && r.total_withdrawals == 0
            && r.active_merchants == 0,
{
    DashboardStats { total_users: 0, total_payments: 0, total_transfers: 0, total_withdrawals: 0, active_merchants: 0 }
}

/// The system health report: the database and the services that run.
pub fn get_system_health() -> (r: SystemHealth)
    ensures
        r.database@ == "healthy"@,
        strings_view(r.services@) == seq!["identity"@, "payment"@],
{
    let mut services: Vec<String> = Vec::new();
    push_string(&mut services, "identity".to_owned());
    push_string(&mut services, "payment".to_owned());
    assert(strings_view(services@) =~= seq!["identity"@, "payment"@]);
    SystemHealth { database: "healthy".to_owned(), services }
}

/// The page a listing returns: at most 500 rows, 50 unless asked otherwise,
/// from the requested offset or the start.
pub open spec fn page_window_spec(limit: Option<i64>, offset: Option<i64>) -> (i64, i64) {
    let l: i64 = match limit {
        Some(x) => x,
        None => 50,
    };
    (
        if l < 500 {
            l
        } else {
            500
        },
        match offset {
            Some(o) => o,
            None => 0,
        },
    )
}

/// The (limit, offset) of a listing request.
pub fn page_window(params: &ComplianceQueryParams) -> (r: (i64, i64))
    ensures
        r == page_window_spec(params.limit, params.offset),
{
    let l: i64 = match params.limit {
        Some(x) => x,
        None => 50,
    };
    let limit = if l < 500 {
        l
    } else {
        500
    };
    let offset = match params.offset {
        Some(o) => o,
        None => 0,
    };
    (limit, offset)
}

/// The status a case listing filters on (open cases unless asked
/// otherwise) and the priority it also filters on, if any.
pub fn case_filters(params: &ComplianceQueryParams) -> (r: (String, Option<String>))
    ensures
        r.0@ == (match params.status {
            Some(s) => s@,
            None => "open"@,
        }),
        match params.priority {
            Some(p) => r.1 matches Some(q) && q@ == p@,
            None => r.1 is None,
        },
{
    let status = match &params.status {
        Some(s) => s.clone(),
        None => "open".to_owned(),
    };
    let priority = match &params.priority {
        Some(p) => Some(p.clone()),
        None => None,
    };
    (status, priority)
}

/// The risk trend shown for a behavioural profile, from its count of
/// high-risk transactions.
pub open spec fn profile_trend_spec(high_risk_count: i64) -> Seq<char> {
    if high_risk_count > 5 {
        "increasing"@
    } else if high_risk_count > 2 {
        "stable"@
    } else {
        "decreasing"@
    }
}

pub fn profile_trend(high_risk_count: i64) -> (r: &'static str)
    ensures
        r@ == profile_trend_spec(high_risk_count),
{
    if high_risk_count > 5 {
        "increasing"
    } else if high_risk_count > 2 {
        "stable"
    } else {
        "decreasing"
    }
}

/// Which columns of a sanctions provider an update request changes.
#[derive(Debug, Clone, Copy, PartialEq, Eq, Structural)]
pub enum ProviderUpdate {
    EnabledAndPriority { enabled: bool, priority: i32 },
    Enabled { enabled: bool },
    Priority { priority: i32 },
    Nothing,
}

/// The update a request asks for: both fields, either one, or nothing.
pub fn provider_update(req: &UpdateSanctionsProviderRequest) -> (r: ProviderUpdate)
    ensures
        r == (match (req.enabled, req.priority) {
            (Some(e), Some(p)) => ProviderUpdate::EnabledAndPriority { enabled: e, priority: p },
            (Some(e), None) => ProviderUpdate::Enabled { enabled: e },
            (None, Some(p)) => ProviderUpdate::Priority { priority: p },
            (None, None) => ProviderUpdate::Nothing,
        }),
{
    match (req.enabled, req.priority) {
        (Some(e), Some(p)) => ProviderUpdate::EnabledAndPriority { enabled: e, priority: p },
        (Some(e), None) => ProviderUpdate::Enabled { enabled: e },
        (None, Some(p)) => ProviderUpdate::Priority { priority: p },
        (None, None) => ProviderUpdate::Nothing,
    }
}

/// Whether moving a case to `status` closes it (and stamps its resolution
/// time): `resolved` and `closed` do.
pub fn case_status_closes(status: &str) -> (r: bool)
    ensures
        r == (status@ == "resolved"@ || status@ == "closed"@),
{
    crate::text::str_eq(status, "resolved") || crate::text::str_eq(status, "closed")
}

/// The strings among the items of a JSON array, in order; nothing for any
/// other value.
pub open spec fn array_strings(v: JsonValue) -> Seq<Seq<char>> {
    match v {
        JsonValue::Array(items) => strings_of_items(items@),
        _ => seq![],
    }
}

pub open spec fn strings_of_items(items: Seq<JsonValue>) -> Seq<Seq<char>>
    decreases items.len(),
{
    if items.len() == 0 {
        seq![]
    } else {
        let rest = strings_of_items(items.drop_last());
        match text_of(items.last()) {
            Some(t) => rest.push(t),
            None => rest,
        }
    }
}

/// The reasons stored as a JSON array: its string items, in order.
pub fn reasons_from_json(v: &JsonValue) -> (r: Vec<String>)
    ensures
        strings_view(r@) == array_strings(*v),
{
    let mut out: Vec<String> = Vec::new();
    match v {
        JsonValue::Array(items) => {
            let n = items.len();
            let mut i: usize = 0;
            while i < n
                invariant
                    n == items@.len(),
                    *v == JsonValue::Array(*items),
                    i <= n,
                    strings_view(out@) == strings_of_items(items@.subrange(0, i as int)),
                decreases n - i,
            {
                let ghost next = items@.subrange(0, i + 1);
                proof {
                    assert(next.drop_last() =~= items@.subrange(0, i as int));
                    assert(next.last() == items@[i as int]);
                }
                match &items[i] {
                    JsonValue::String(t) => {
                        push_string(&mut out, t.clone());
                    },
                    _ => {},
                }
                i = i + 1;
            }
            assert(items@.subrange(0, n as int) =~= items@);
        },
        _ => {},
    }
    out
}

/// The risk factors a compliance report ranks: sanctions matches, high
/// value transactions and velocity findings, with their counts.
pub fn top_risk_factors(sanctioned: i64, high_risk: i64, suspicious_patterns: i64) -> (r: Vec<(String, i64)>)
    ensures
        r@.map_values(|f: (String, i64)| (f.0@, f.1)) == seq![
            ("sanctions_match"@, sanctioned),
            ("high_value_transaction"@, high_risk),
            ("velocity_limit_exceeded"@, suspicious_patterns),
        ],
{
    let mut r: Vec<(String, i64)> = Vec::new();
    r.push(("sanctions_match".to_owned(), sanctioned));
    r.push(("high_value_transaction".to_owned(), high_risk));
    r.push(("velocity_limit_exceeded".to_owned(), suspicious_patterns));
    assert(r@.map_values(|f: (String, i64)| (f.0@, f.1)) =~= seq![
        ("sanctions_match"@, sanctioned),
        ("high_value_transaction"@, high_risk),
        ("velocity_limit_exceeded"@, suspicious_patterns),
    ]);
    r
}

/// The standing recommendations of a compliance report.
pub fn report_recommendations() -> (r: Vec<String>)
    ensures
        strings_view(r@) == seq![
            "Increase monitoring of high-value transactions"@,
            "Review and update sanctions database"@,
            "Implement device fingerprinting for anomaly detection"@,
            "Analyze circular transaction patterns"@,
        ],
{
    let mut r: Vec<String> = Vec::new();
    push_string(&mut r, "Increase monitoring of high-value transactions".to_owned());
    push_string(&mut r, "Review and update sanctions database".to_owned());
    push_string(&mut r, "Implement device fingerprinting for anomaly detection".to_owned());
    push_string(&mut r, "Analyze circular transaction patterns".to_owned());
    assert(strings_view(r@) =~= seq![
        "Increase monitoring of high-value transactions"@,
        "Review and update sanctions database"@,
        "Implement device fingerprinting for anomaly detection"@,
        "Analyze circular transaction patterns"@,
    ]);
    r
}

/// A stored risk score as the alert reports it: its low byte.
pub fn alert_risk_score(stored: i32) -> (r: u8)
    ensures
        r == stored as u8,
{
    stored as u8
}

/// The start of a report period of thirty days ending at `now` (seconds).
pub fn report_period_start(now: i64) -> (r: i64)
    requires
        now >= i64::MIN + 2_592_000,
    ensures
        r == now - 2_592_000,
{
    now - 2_592_000
}

} // verus!
