//! Logging configuration: the format chosen from `LOG_FORMAT`, the default
//! filter, and the shape of the metrics scrape answer.

use vstd::prelude::*;
use crate::text::{lowercase_of, str_eq, to_lowercase};

verus! {

#[derive(Debug, Clone)]
pub struct TelemetryConfig {
    /// Structured JSON logs (for log aggregation) instead of compact text.
    pub json_format: bool,
    /// The log filter, such as `info` or `zaps_backend=debug,tower_http=info`.
    pub log_filter: Option<String>,
}

/// The configuration for a `LOG_FORMAT` value: JSON logs when it reads
/// `json` in any letter case, no explicit filter.
pub fn telemetry_config_for(log_format: Option<&str>) -> (r: TelemetryConfig)
    ensures
        r.json_format == (match log_format {
            Some(v) => lowercase_of(v@) == "json"@,
            None => false,
        }),
        r.log_filter is None,
{
    match log_format {
        Some(v) => telemetry_config_from_lowercase(Some(to_lowercase(v).as_str())),
        None => telemetry_config_from_lowercase(None),
    }
}

/// The configuration for a `LOG_FORMAT` value already in lower case: JSON
/// logs exactly when it reads `json`, no explicit filter.
pub fn telemetry_config_from_lowercase(log_format: Option<&str>) -> (r: TelemetryConfig)
    ensures
        r.json_format == (match log_format {
            Some(v) => v@ == "json"@,
            None => false,
        }),
        r.log_filter is None,
{
    let json_format = match log_format {
        Some(v) => str_eq(v, "json"),
        None => false,
    };
    TelemetryConfig { json_format, log_filter: None }
}

/// The filter used when none is configured or set in the environment.
pub fn default_log_filter() -> (r: &'static str)
    ensures
        r@ == "zaps_backend=info,tower_http=info"@,
{
    "zaps_backend=info,tower_http=info"
}

/// Metrics in the Prometheus text exposition format.
#[derive(Debug, Clone)]
pub struct PrometheusMetrics(pub String);

/// The content type of a Prometheus scrape answer.
pub fn prometheus_content_type() -> (r: &'static str)
    ensures
        r@ == "text/plain; version=0.0.4; charset=utf-8"@,
{
    "text/plain; version=0.0.4; charset=utf-8"
}

} // verus!
