//! What the versioning endpoints answer: the endpoints and features of each
//! version, the deprecation notices, version negotiation and the lifecycle of
//! a version.

use vstd::prelude::*;
use crate::api_error::ApiError;
use crate::clock::{days_between, days_since, moment_wf, Moment};
use crate::text::concat;
use crate::versioning::{guide_text, spec_latest, sunset_text, version_of_header, version_text, ApiVersion};

verus! {

/// The query of a negotiation request: the version the client would like.
#[derive(Debug, Clone)]
pub struct NegotiateQuery {
    pub requested: Option<String>,
}

#[derive(Debug)]
pub struct NegotiationResponse {
    pub recommended_version: String,
    pub requested_version: Option<String>,
    pub is_deprecated: bool,
    pub sunset_date: Option<String>,
    pub migration_guide_url: Option<String>,
    pub available_versions: Vec<String>,
    pub latest_version: String,
}

#[derive(Debug)]
pub struct DeprecationNotice {
    pub version: String,
    pub deprecated_since: &'static str,
    pub sunset_date: &'static str,
    pub migration_guide_url: &'static str,
    pub reason: &'static str,
    pub affected_endpoints: Vec<&'static str>,
    pub replacement_version: String,
}

#[derive(Debug)]
pub struct DeprecationListResponse {
    pub deprecations: Vec<DeprecationNotice>,
    pub total: usize,
}

#[derive(Debug)]
pub struct EndpointInfo {
    pub method: &'static str,
    pub path: &'static str,
    pub description: &'static str,
    pub added_in: &'static str,
    pub deprecated_in: Option<&'static str>,
}

#[derive(Debug)]
pub struct VersionCapabilities {
    pub version: String,
    pub status: &'static str,
    pub endpoints: Vec<EndpointInfo>,
    pub features: Vec<&'static str>,
}

#[derive(Debug)]
pub struct CompatibilityInfo {
    pub version: String,
    pub is_supported: bool,
    pub is_deprecated: bool,
    pub status: &'static str,
    pub sunset_date: Option<&'static str>,
    /// Days until the version is removed; negative once past its sunset.
    pub days_until_sunset: Option<i64>,
    pub recommended_version: String,
    pub upgrade_required_by: Option<&'static str>,
}

/// An endpoint with its texts as character sequences.
pub struct EndpointView {
    pub method: Seq<char>,
    pub path: Seq<char>,
    pub description: Seq<char>,
    pub added_in: Seq<char>,
    pub deprecated_in: Option<Seq<char>>,
}

impl View for EndpointInfo {
    type V = EndpointView;

    open spec fn view(&self) -> EndpointView {
        EndpointView {
            method: self.method@,
            path: self.path@,
            description: self.description@,
            added_in: self.added_in@,
            deprecated_in: match self.deprecated_in {
                Some(t) => Some(t@),
                None => None,
            },
        }
    }
}

pub open spec fn texts_view(v: Seq<&'static str>) -> Seq<Seq<char>> {
    v.map_values(|t: &'static str| t@)
}

pub open spec fn endpoints_view(v: Seq<EndpointInfo>) -> Seq<EndpointView> {
    v.map_values(|e: EndpointInfo| e@)
}

/// The capabilities of a version with their texts as character sequences.
pub struct CapabilitiesView {
    pub version: Seq<char>,
    pub status: Seq<char>,
    pub endpoints: Seq<EndpointView>,
    pub features: Seq<Seq<char>>,
}

impl View for VersionCapabilities {
    type V = CapabilitiesView;

    open spec fn view(&self) -> CapabilitiesView {
        CapabilitiesView {
            version: self.version@,
            status: self.status@,
            endpoints: endpoints_view(self.endpoints@),
            features: texts_view(self.features@),
        }
    }
}

pub open spec fn endpoint_view(method: Seq<char>, path: Seq<char>, description: Seq<char>, added_in: Seq<char>) -> EndpointView {
    EndpointView { method, path, description, added_in, deprecated_in: None }
}

pub open spec fn v1_endpoint_table() -> Seq<EndpointView> {
    seq![
        endpoint_view("POST"@, "/api/v1/payments"@, "Create a payment"@, "v1"@),
        endpoint_view("GET"@, "/api/v1/payments/:id"@, "Get payment by ID"@, "v1"@),
        endpoint_view("GET"@, "/api/v1/payments/:id/status"@, "Get payment status"@, "v1"@),
        endpoint_view("POST"@, "/api/v1/transfers"@, "Create a transfer"@, "v1"@),
        endpoint_view("GET"@, "/api/v1/transfers/:id"@, "Get transfer by ID"@, "v1"@),
        endpoint_view("POST"@, "/api/v1/withdrawals"@, "Create a withdrawal"@, "v1"@),
        endpoint_view("POST"@, "/api/v1/payouts"@, "Create a payout"@, "v1"@),
        endpoint_view("POST"@, "/api/v1/identity/users"@, "Create a user identity"@, "v1"@),
        endpoint_view("GET"@, "/api/v1/identity/users/me"@, "Get current user"@, "v1"@),
        endpoint_view("GET"@, "/api/v1/notifications"@, "List notifications"@, "v1"@),
        endpoint_view("GET"@, "/api/v1/audit-logs"@, "List audit logs (admin)"@, "v1"@),
    ]
}

pub open spec fn v1_feature_table() -> Seq<Seq<char>> {
    seq![
        "payments"@,
        "payouts"@,
        "transfers"@,
        "withdrawals"@,
        "identity"@,
        "notifications"@,
        "profiles"@,
        "files"@,
        "batches"@,
        "audit-logs"@,
        "analytics"@,
        "reconciliation"@,
        "webhooks"@,
    ]
}

pub open spec fn v2_endpoint_table() -> Seq<EndpointView> {
    seq![
        endpoint_view("POST"@, "/api/v2/payments"@, "Create a payment (response includes dispute_eligible field)"@, "v1"@),
        endpoint_view("GET"@, "/api/v2/payments/:id"@, "Get payment by ID (response includes active_dispute field)"@, "v1"@),
        endpoint_view("GET"@, "/api/v2/payments/:id/status"@, "Get payment status"@, "v1"@),
        endpoint_view("POST"@, "/api/v2/payments/:payment_id/disputes"@, "File a dispute for a payment"@, "v2"@),
        endpoint_view("GET"@, "/api/v2/payments/:payment_id/disputes"@, "List disputes for a payment"@, "v2"@),
        endpoint_view("GET"@, "/api/v2/disputes"@, "List all disputes (admin)"@, "v2"@),
        endpoint_view("GET"@, "/api/v2/disputes/me"@, "List disputes for current user"@, "v2"@),
        endpoint_view("GET"@, "/api/v2/disputes/:id"@, "Get dispute by ID"@, "v2"@),
        endpoint_view("PATCH"@, "/api/v2/disputes/:id/status"@, "Update dispute status"@, "v2"@),
        endpoint_view("POST"@, "/api/v2/disputes/:id/evidence"@, "Add evidence to a dispute"@, "v2"@),
        endpoint_view("POST"@, "/api/v2/transfers"@, "Create a transfer"@, "v1"@),
        endpoint_view("POST"@, "/api/v2/withdrawals"@, "Create a withdrawal"@, "v1"@),
        endpoint_view("POST"@, "/api/v2/payouts"@, "Create a payout"@, "v1"@),
        endpoint_view("POST"@, "/api/v2/identity/users"@, "Create a user identity"@, "v1"@),
        endpoint_view("GET"@, "/api/v2/notifications"@, "List notifications"@, "v1"@),
        endpoint_view("GET"@, "/api/v2/audit-logs"@, "List audit logs (admin)"@, "v1"@),
    ]
}

pub open spec fn v2_feature_table() -> Seq<Seq<char>> {
    seq![
        "payments"@,
        "payment-disputes"@,
        "payouts"@,
        "transfers"@,
        "withdrawals"@,
        "identity"@,
        "notifications"@,
        "profiles"@,
        "files"@,
        "batches"@,
        "audit-logs"@,
        "analytics"@,
        "reconciliation"@,
        "webhooks"@,
        "enhanced-caching"@,
        "version-analytics"@,
    ]
}

pub open spec fn v1_affected_endpoints() -> Seq<Seq<char>> {
    seq![
        "POST /api/v1/payments"@,
        "GET  /api/v1/payments/:id"@,
        "GET  /api/v1/payments/:id/status"@,
        "POST /api/v1/transfers"@,
        "POST /api/v1/withdrawals"@,
    ]
}

pub open spec fn v1_capabilities_spec() -> CapabilitiesView {
    CapabilitiesView {
        version: "v1"@,
        status: "deprecated"@,
        endpoints: v1_endpoint_table(),
        features: v1_feature_table(),
    }
}

pub open spec fn v2_capabilities_spec() -> CapabilitiesView {
    CapabilitiesView {
        version: "v2"@,
        status: "current"@,
        endpoints: v2_endpoint_table(),
        features: v2_feature_table(),
    }
}

fn endpoint(method: &'static str, path: &'static str, description: &'static str, added_in: &'static str) -> (e: EndpointInfo)
    ensures
        e@ == endpoint_view(method@, path@, description@, added_in@),
{
    EndpointInfo { method, path, description, added_in, deprecated_in: None }
}

/// The endpoints and features of v1, which is deprecated.
pub fn v1_capabilities() -> (c: VersionCapabilities)
    ensures
        c@ == v1_capabilities_spec(),
{
    let mut features: Vec<&'static str> = Vec::new();
    features.push("payments");
    features.push("payouts");
    features.push("transfers");
    features.push("withdrawals");
    features.push("identity");
    features.push("notifications");
    features.push("profiles");
    features.push("files");
    features.push("batches");
    features.push("audit-logs");
    features.push("analytics");
    features.push("reconciliation");
    features.push("webhooks");
    let mut endpoints: Vec<EndpointInfo> = Vec::new();
    endpoints.push(endpoint("POST", "/api/v1/payments", "Create a payment", "v1"));
    endpoints.push(endpoint("GET", "/api/v1/payments/:id", "Get payment by ID", "v1"));
    endpoints.push(endpoint("GET", "/api/v1/payments/:id/status", "Get payment status", "v1"));
    endpoints.push(endpoint("POST", "/api/v1/transfers", "Create a transfer", "v1"));
    endpoints.push(endpoint("GET", "/api/v1/transfers/:id", "Get transfer by ID", "v1"));
    endpoints.push(endpoint("POST", "/api/v1/withdrawals", "Create a withdrawal", "v1"));
    endpoints.push(endpoint("POST", "/api/v1/payouts", "Create a payout", "v1"));
    endpoints.push(endpoint("POST", "/api/v1/identity/users", "Create a user identity", "v1"));
    endpoints.push(endpoint("GET", "/api/v1/identity/users/me", "Get current user", "v1"));
    endpoints.push(endpoint("GET", "/api/v1/notifications", "List notifications", "v1"));
    endpoints.push(endpoint("GET", "/api/v1/audit-logs", "List audit logs (admin)", "v1"));
    proof {
        assert(texts_view(features@) =~= v1_feature_table());
        assert(endpoints_view(endpoints@) =~= v1_endpoint_table());
    }
    VersionCapabilities { version: "v1".to_owned(), status: "deprecated", endpoints, features }
}

/// The endpoints and features of v2, the current version.
pub fn v2_capabilities() -> (c: VersionCapabilities)
    ensures
        c@ == v2_capabilities_spec(),
{
    let mut features: Vec<&'static str> = Vec::new();
    features.push("payments");
    features.push("payment-disputes");
    features.push("payouts");
    features.push("transfers");
    features.push("withdrawals");
    features.push("identity");
    features.push("notifications");
    features.push("profiles");
    features.push("files");
    features.push("batches");
    features.push("audit-logs");
    features.push("analytics");
    features.push("reconciliation");
    features.push("webhooks");
    features.push("enhanced-caching");
    features.push("version-analytics");
    let mut endpoints: Vec<EndpointInfo> = Vec::new();
    endpoints.push(endpoint("POST", "/api/v2/payments", "Create a payment (response includes dispute_eligible field)", "v1"));
    endpoints.push(endpoint("GET", "/api/v2/payments/:id", "Get payment by ID (response includes active_dispute field)", "v1"));
    endpoints.push(endpoint("GET", "/api/v2/payments/:id/status", "Get payment status", "v1"));
    endpoints.push(endpoint("POST", "/api/v2/payments/:payment_id/disputes", "File a dispute for a payment", "v2"));
    endpoints.push(endpoint("GET", "/api/v2/payments/:payment_id/disputes", "List disputes for a payment", "v2"));
    endpoints.push(endpoint("GET", "/api/v2/disputes", "List all disputes (admin)", "v2"));
    endpoints.push(endpoint("GET", "/api/v2/disputes/me", "List disputes for current user", "v2"));
    endpoints.push(endpoint("GET", "/api/v2/disputes/:id", "Get dispute by ID", "v2"));
    endpoints.push(endpoint("PATCH", "/api/v2/disputes/:id/status", "Update dispute status", "v2"));
    endpoints.push(endpoint("POST", "/api/v2/disputes/:id/evidence", "Add evidence to a dispute", "v2"));
    endpoints.push(endpoint("POST", "/api/v2/transfers", "Create a transfer", "v1"));
    endpoints.push(endpoint("POST", "/api/v2/withdrawals", "Create a withdrawal", "v1"));
    endpoints.push(endpoint("POST", "/api/v2/payouts", "Create a payout", "v1"));
    endpoints.push(endpoint("POST", "/api/v2/identity/users", "Create a user identity", "v1"));
    endpoints.push(endpoint("GET", "/api/v2/notifications", "List notifications", "v1"));
    endpoints.push(endpoint("GET", "/api/v2/audit-logs", "List audit logs (admin)", "v1"));
    proof {
        assert(texts_view(features@) =~= v2_feature_table());
        assert(endpoints_view(endpoints@) =~= v2_endpoint_table());
    }
    VersionCapabilities { version: "v2".to_owned(), status: "current", endpoints, features }
}

/// A deprecation notice with its texts as character sequences.
pub struct NoticeView {
    pub version: Seq<char>,
    pub deprecated_since: Seq<char>,
    pub sunset_date: Seq<char>,
    pub migration_guide_url: Seq<char>,
    pub reason: Seq<char>,
    pub affected_endpoints: Seq<Seq<char>>,
    pub replacement_version: Seq<char>,
}

impl View for DeprecationNotice {
    type V = NoticeView;

    open spec fn view(&self) -> NoticeView {
        NoticeView {
            version: self.version@,
            deprecated_since: self.deprecated_since@,
            sunset_date: self.sunset_date@,
            migration_guide_url: self.migration_guide_url@,
            reason: self.reason@,
            affected_endpoints: texts_view(self.affected_endpoints@),
            replacement_version: self.replacement_version@,
        }
    }
}

/// The single active notice: v1 is deprecated in favour of v2.
pub open spec fn v1_notice_spec() -> NoticeView {
    NoticeView {
        version: "v1"@,
        deprecated_since: "2026-05-01"@,
        sunset_date: "2027-01-01"@,
        migration_guide_url: "https://docs.blinks.app/api/migration/v1-to-v2"@,
        reason: "v2 introduces payment dispute management, enhanced analytics, and improved response schemas. v1 will no longer receive feature updates."@,
        affected_endpoints: v1_affected_endpoints(),
        replacement_version: "v2"@,
    }
}

pub open spec fn notices_view(v: Seq<DeprecationNotice>) -> Seq<NoticeView> {
    v.map_values(|n: DeprecationNotice| n@)
}

/// The active deprecation notices.
pub fn build_deprecation_notices() -> (r: Vec<DeprecationNotice>)
    ensures
        notices_view(r@) == seq![v1_notice_spec()],
        r@.len() == 1,
{
    let mut affected: Vec<&'static str> = Vec::new();
    affected.push("POST /api/v1/payments");
    affected.push("GET  /api/v1/payments/:id");
    affected.push("GET  /api/v1/payments/:id/status");
    affected.push("POST /api/v1/transfers");
    affected.push("POST /api/v1/withdrawals");
    proof {
        assert(texts_view(affected@) =~= v1_affected_endpoints());
    }
    let notice = DeprecationNotice {
        version: "v1".to_owned(),
        deprecated_since: "2026-05-01",
        sunset_date: "2027-01-01",
        migration_guide_url: "https://docs.blinks.app/api/migration/v1-to-v2",
        reason: "v2 introduces payment dispute management, enhanced analytics, and improved response schemas. v1 will no longer receive feature updates.",
        affected_endpoints: affected,
        replacement_version: "v2".to_owned(),
    };
    let mut r: Vec<DeprecationNotice> = Vec::new();
    r.push(notice);
    proof {
        assert(notices_view(r@) =~= seq![v1_notice_spec()]);
    }
    r
}

/// All active deprecation notices and their number.
pub fn list_deprecations() -> (r: DeprecationListResponse)
    ensures
        notices_view(r.deprecations@) == seq![v1_notice_spec()],
        r.total == 1,
{
    let deprecations = build_deprecation_notices();
    let total = deprecations.len();
    DeprecationListResponse { deprecations, total }
}

/// The message for an unknown version.
pub open spec fn unknown_version_message(version: Seq<char>) -> Seq<char> {
    "API version '"@ + version + "' not found. Supported versions: v1, v2"@
}

fn unknown_version(version: &str) -> (e: ApiError)
    ensures
        e matches ApiError::NotFound(m) && m@ == unknown_version_message(version@),
{
    let m = concat(concat("API version '", version).as_str(), "' not found. Supported versions: v1, v2");
    ApiError::NotFound(m)
}

/// The capabilities of the version named exactly `v1` or `v2`.
pub fn get_version_capabilities(version: &str) -> (r: Result<VersionCapabilities, ApiError>)
    ensures
        match r {
            Ok(c) => (version@ == "v1"@ && c@ == v1_capabilities_spec()) || (version@ == "v2"@ && version@ != "v1"@
                && c@ == v2_capabilities_spec()),
            Err(e) => {
                &&& version@ != "v1"@
                &&& version@ != "v2"@
                &&& e matches ApiError::NotFound(m) && m@ == unknown_version_message(version@)
            },
        },
{
    if crate::text::str_eq(version, "v1") {
        Ok(v1_capabilities())
    } else if crate::text::str_eq(version, "v2") {
        Ok(v2_capabilities())
    } else {
        Err(unknown_version(version))
    }
}

/// A negotiation answer with its texts as character sequences.
pub struct NegotiationView {
    pub recommended_version: Seq<char>,
    pub requested_version: Option<Seq<char>>,
    pub is_deprecated: bool,
    pub sunset_date: Option<Seq<char>>,
    pub migration_guide_url: Option<Seq<char>>,
    pub available_versions: Seq<Seq<char>>,
    pub latest_version: Seq<char>,
}

pub open spec fn opt_view(t: Option<String>) -> Option<Seq<char>> {
    match t {
        Some(s) => Some(s@),
        None => None,
    }
}

impl View for NegotiationResponse {
    type V = NegotiationView;

    open spec fn view(&self) -> NegotiationView {
        NegotiationView {
            recommended_version: self.recommended_version@,
            requested_version: opt_view(self.requested_version),
            is_deprecated: self.is_deprecated,
            sunset_date: opt_view(self.sunset_date),
            migration_guide_url: opt_view(self.migration_guide_url),
            available_versions: self.available_versions@.map_values(|t: String| t@),
            latest_version: self.latest_version@,
        }
    }
}

/// The negotiation answer: the latest version is recommended; a requested
/// version that parses is echoed by its name with its deprecation details,
/// one that does not is echoed as given.
pub open spec fn negotiation_spec(requested: Option<Seq<char>>) -> NegotiationView {
    let (requested_version, is_deprecated, sunset_date, migration_guide_url) = match requested {
        Some(req) => match version_of_header(req) {
            Some(v) => (Some(version_text(v)), v == ApiVersion::V1, sunset_text(v), guide_text(v)),
            None => (Some(req), false, None, None),
        },
        None => (None, false, None, None),
    };
    NegotiationView {
        recommended_version: version_text(spec_latest()),
        requested_version,
        is_deprecated,
        sunset_date,
        migration_guide_url,
        available_versions: seq!["v1"@, "v2"@],
        latest_version: version_text(spec_latest()),
    }
}

fn owned(t: Option<&'static str>) -> (r: Option<String>)
    ensures
        match t {
            Some(s) => r matches Some(o) && o@ == s@,
            None => r is None,
        },
{
    match t {
        Some(s) => Some(s.to_owned()),
        None => None,
    }
}

/// Answers a version negotiation request.
pub fn negotiate_version(query: &NegotiateQuery) -> (r: NegotiationResponse)
    ensures
        r@ == negotiation_spec(opt_view(query.requested)),
{
    let mut available: Vec<String> = Vec::new();
    available.push("v1".to_owned());
    available.push("v2".to_owned());
    let latest = ApiVersion::latest();
    let (requested_version, is_deprecated, sunset_date, migration_guide_url) = match &query.requested {
        Some(req) => match ApiVersion::from_header_value(req.as_str()) {
            Some(version) => (
                Some(version.as_str().to_owned()),
                version.is_deprecated(),
                owned(version.sunset_date()),
                owned(version.migration_guide_url()),
            ),
            None => (Some(req.clone()), false, None, None),
        },
        None => (None, false, None, None),
    };
    let r = NegotiationResponse {
        recommended_version: latest.as_str().to_owned(),
        requested_version,
        is_deprecated,
        sunset_date,
        migration_guide_url,
        available_versions: available,
        latest_version: latest.as_str().to_owned(),
    };
    proof {
        assert(r@.available_versions =~= seq!["v1"@, "v2"@]);
    }
    r
}

/// The Unix second that an RFC 2822 date names, as chrono parses it; `None`
/// where chrono rejects the text. RFC 2822 dates carry no fraction of a
/// second.
pub uninterp spec fn rfc2822_unix_seconds(text: Seq<char>) -> Option<i64>;

/// Parses an RFC 2822 date with `chrono::DateTime::parse_from_rfc2822` and
/// gives its Unix timestamp; the contract names the result by
/// `rfc2822_unix_seconds` of the text.
#[verifier::external_body]
fn parse_rfc2822_seconds(text: &str) -> (r: Option<i64>)
    ensures
        r == rfc2822_unix_seconds(text@),
{
    match chrono::DateTime::parse_from_rfc2822(text) {
        Ok(t) => Some(t.timestamp()),
        Err(_) => None,
    }
}

/// A lifecycle report with its texts as character sequences.
pub struct CompatibilityView {
    pub version: Seq<char>,
    pub is_supported: bool,
    pub is_deprecated: bool,
    pub status: Seq<char>,
    pub sunset_date: Option<Seq<char>>,
    pub days_until_sunset: Option<i64>,
    pub recommended_version: Seq<char>,
    pub upgrade_required_by: Option<Seq<char>>,
}

pub open spec fn static_opt_view(t: Option<&'static str>) -> Option<Seq<char>> {
    match t {
        Some(s) => Some(s@),
        None => None,
    }
}

impl View for CompatibilityInfo {
    type V = CompatibilityView;

    open spec fn view(&self) -> CompatibilityView {
        CompatibilityView {
            version: self.version@,
            is_supported: self.is_supported,
            is_deprecated: self.is_deprecated,
            status: self.status@,
            sunset_date: static_opt_view(self.sunset_date),
            days_until_sunset: self.days_until_sunset,
            recommended_version: self.recommended_version@,
            upgrade_required_by: static_opt_view(self.upgrade_required_by),
        }
    }
}

/// The lifecycle of version `v` at `now`, given the Unix second its sunset
/// date names (if it has one that parses): the whole days left until then,
/// rounded toward zero.
pub open spec fn compatibility_spec(v: ApiVersion, sunset_seconds: Option<i64>, now: Moment) -> CompatibilityView {
    CompatibilityView {
        version: version_text(v),
        is_supported: true,
        is_deprecated: v == ApiVersion::V1,
        status: if v == ApiVersion::V1 {
            "deprecated"@
        } else {
            "current"@
        },
        sunset_date: sunset_text(v),
        days_until_sunset: match sunset_seconds {
            Some(s) => Some(days_between(Moment { secs: s, nanos: 0 }, now) as i64),
            None => None,
        },
        recommended_version: version_text(spec_latest()),
        upgrade_required_by: sunset_text(v),
    }
}

/// The lifecycle report of `version` at `now`, given the Unix second its
/// sunset date names.
pub fn compatibility_report(version: ApiVersion, sunset_seconds: Option<i64>, now: Moment) -> (r: CompatibilityInfo)
    requires
        moment_wf(now),
        sunset_seconds matches Some(s) ==> moment_wf(Moment { secs: s, nanos: 0 }),
    ensures
        r@ == compatibility_spec(version, sunset_seconds, now),
{
    let days_until_sunset = match sunset_seconds {
        Some(s) => Some(days_since(Moment { secs: s, nanos: 0 }, now)),
        None => None,
    };
    let (status, is_deprecated): (&'static str, bool) = if version.is_deprecated() {
        ("deprecated", true)
    } else {
        ("current", false)
    };
    CompatibilityInfo {
        version: version.as_str().to_owned(),
        is_supported: true,
        is_deprecated,
        status,
        sunset_date: version.sunset_date(),
        days_until_sunset,
        recommended_version: ApiVersion::latest().as_str().to_owned(),
        upgrade_required_by: version.sunset_date(),
    }
}

/// The Unix second the sunset date of `v` names, where it has one that
/// parses and it is a representable instant.
pub open spec fn sunset_seconds_of(v: ApiVersion) -> Option<i64> {
    match sunset_text(v) {
        Some(t) => match rfc2822_unix_seconds(t) {
            Some(s) => if moment_wf(Moment { secs: s, nanos: 0 }) {
                Some(s)
            } else {
                None
            },
            None => None,
        },
        None => None,
    }
}

/// The lifecycle of the version `version` names (as a header value would)
/// at `now`; an unknown version is not found.
pub fn check_compatibility(version: &str, now: Moment) -> (r: Result<CompatibilityInfo, ApiError>)
    requires
        moment_wf(now),
    ensures
        match version_of_header(version@) {
            Some(v) => r matches Ok(info) && info@ == compatibility_spec(v, sunset_seconds_of(v), now),
            None => r matches Err(e) && (e matches ApiError::NotFound(m) && m@ == unknown_version_message(
                version@,
            )),
        },
{
    let api_version = match ApiVersion::from_header_value(version) {
        Some(v) => v,
        None => {
            return Err(unknown_version(version));
        },
    };
    let sunset_seconds = match api_version.sunset_date() {
        Some(text) => match parse_rfc2822_seconds(text) {
            Some(s) => match Moment::new(s, 0) {
                Some(_) => Some(s),
                None => None,
            },
            None => None,
        },
        None => None,
    };
    Ok(compatibility_report(api_version, sunset_seconds, now))
}

} // verus!
