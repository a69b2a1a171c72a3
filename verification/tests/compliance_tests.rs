use zaps::api_error::ApiError;
use zaps::compliance::{
    assess_transaction_risk, check_velocity_limits, combine_screenings, needs_review_case, needs_velocity_totals,
    review_case_priority, sanctions_provider_configured, saturating_add_i64, screening_decision,
    suspicious_pattern_findings, unconfigured_screening, within_business_hours, ProviderOutcome, RiskLevel,
    SanctionsApiResponse,
};
use zaps::config::{RiskThresholds, VelocityLimits};
use zaps::currency::{
    check_rate_age, exchange_rate_cache_key, get_supported_currencies, is_supported_code, rate_is_stale,
    rate_not_found, supported_currency_list, Currency, RateSource,
};

fn limits() -> VelocityLimits {
    VelocityLimits { daily_transaction_limit: 10_000, monthly_transaction_limit: 50_000, max_transaction_amount: 5_000 }
}

fn thresholds() -> RiskThresholds {
    RiskThresholds { high_risk_amount: 10_000, medium_risk_amount: 1_000, suspicious_patterns: vec!["bad".to_string(), "".to_string()] }
}

fn clean() -> SanctionsApiResponse {
    SanctionsApiResponse { sanctioned: false, risk_score: None, reasons: vec![] }
}

#[test]
fn velocity_limits_bound_single_daily_and_monthly_totals() {
    let l = limits();
    assert!(check_velocity_limits(1_000, &l, 0, 0));
    assert!(!check_velocity_limits(5_001, &l, 0, 0));
    assert!(!check_velocity_limits(-1, &l, 0, 0));
    assert!(check_velocity_limits(1_000, &l, 9_000, 0));
    assert!(!check_velocity_limits(1_000, &l, 9_001, 0));
    assert!(!check_velocity_limits(1_000, &l, 0, 49_001));
    assert!(!check_velocity_limits(1, &l, i64::MAX, 0));
    assert!(needs_velocity_totals(5_000, &l));
    assert!(!needs_velocity_totals(5_001, &l));
    assert_eq!(saturating_add_i64(i64::MAX, 1), i64::MAX);
    assert_eq!(saturating_add_i64(i64::MIN, -1), i64::MIN);
    assert_eq!(saturating_add_i64(2, 3), 5);
}

#[test]
fn screenings_combine_sanction_score_and_reasons_in_order() {
    let outcomes = vec![
        ProviderOutcome::Screened { provider_name: "alpha".to_string(), sanctioned: false, risk_score: Some(30), reasons: vec!["watch".to_string()] },
        ProviderOutcome::Failed { provider_name: "beta".to_string() },
        ProviderOutcome::Screened { provider_name: "gamma".to_string(), sanctioned: true, risk_score: Some(90), reasons: vec![] },
        ProviderOutcome::Lost,
    ];
    let r = combine_screenings(outcomes).unwrap();
    assert!(r.sanctioned);
    assert_eq!(r.risk_score, Some(90));
    assert_eq!(r.reasons, vec!["watch", "beta: screening failed", "gamma: sanctioned", "provider_timeout"]);

    let quiet = combine_screenings(vec![ProviderOutcome::Failed { provider_name: "only".to_string() }]).unwrap();
    assert!(!quiet.sanctioned);
    assert_eq!(quiet.risk_score, None);

    match combine_screenings(vec![]) {
        Err(ApiError::Compliance(m)) => assert_eq!(m, "No sanctions providers configured"),
        other => panic!("unexpected {:?}", other),
    }
}

#[test]
fn provider_configuration_and_fallback_screening() {
    assert!(!sanctions_provider_configured("https://api.example.com/screen", "real"));
    assert!(!sanctions_provider_configured("https://screen.io", "api-key"));
    assert!(sanctions_provider_configured("https://screen.io", "secret"));
    let u = unconfigured_screening();
    assert!(!u.sanctioned);
    assert_eq!(u.risk_score, None);
    assert_eq!(u.reasons, vec!["sanctions_provider_not_configured"]);
}

#[test]
fn risk_assessment_levels_and_reasons() {
    let t = thresholds();
    let low = assess_transaction_risk("u1", "GABC", 10, clean(), true, &t);
    assert_eq!(low.risk_score, 0);
    assert_eq!(low.risk_level, RiskLevel::Low);
    assert!(low.reasons.is_empty());
    assert_eq!(low.user_id, "u1");
    assert_eq!(low.address, "GABC");

    let medium = assess_transaction_risk("u1", "GABC", 1_000, clean(), true, &t);
    assert_eq!(medium.risk_score, 45);
    assert_eq!(medium.risk_level, RiskLevel::Medium);
    assert_eq!(medium.reasons, vec!["medium_value_transaction"]);

    let high = assess_transaction_risk("u1", "GABC", 10_000, clean(), false, &t);
    assert_eq!(high.risk_score, 80);
    assert_eq!(high.risk_level, RiskLevel::High);
    assert!(high.velocity_limit_exceeded);
    assert_eq!(high.reasons, vec!["high_value_transaction", "velocity_limit_exceeded"]);

    let marked = assess_transaction_risk("u1", "GXbadY", 10, clean(), true, &t);
    assert_eq!(marked.risk_score, 70);
    assert_eq!(marked.risk_level, RiskLevel::Medium);
    assert_eq!(marked.reasons, vec!["suspicious_pattern:bad"]);

    let sanctioned = SanctionsApiResponse { sanctioned: true, risk_score: Some(20), reasons: vec!["p: sanctioned".to_string()] };
    let blocked = assess_transaction_risk("u1", "GABC", 10, sanctioned, true, &t);
    assert_eq!(blocked.risk_score, 100);
    assert_eq!(blocked.risk_level, RiskLevel::Blocked);
    assert!(blocked.sanctions_match);
    assert_eq!(blocked.reasons, vec!["p: sanctioned", "sanctions_match"]);

    // A negative amount is read as unsigned and so counts as high value.
    let negative = assess_transaction_risk("u1", "GABC", -1, clean(), true, &t);
    assert_eq!(negative.risk_score, 80);
}

#[test]
fn decisions_cases_and_findings() {
    assert_eq!(RiskLevel::Blocked.to_string(), "blocked");
    assert_eq!(RiskLevel::Low.to_string(), "low");
    assert_eq!(screening_decision(RiskLevel::Blocked), "blocked");
    assert_eq!(screening_decision(RiskLevel::High), "flagged");
    assert_eq!(screening_decision(RiskLevel::Medium), "approved");
    assert!(needs_review_case(RiskLevel::High));
    assert!(!needs_review_case(RiskLevel::Medium));
    assert_eq!(review_case_priority(RiskLevel::Blocked), "critical");
    assert_eq!(review_case_priority(RiskLevel::High), "high");
    assert!(within_business_hours(9));
    assert!(within_business_hours(17));
    assert!(!within_business_hours(18));

    let f = suspicious_pattern_findings(6, 3, 11);
    assert_eq!(f.len(), 3);
    assert_eq!(f[0].indicator_type, "structured_transaction");
    assert_eq!(f[0].description, "Detected 6 potential structuring transactions");
    assert_eq!(f[1].description, "Detected circular money flows with 3 addresses");
    assert_eq!(f[2].severity, "critical");
    assert_eq!(f[2].description, "Detected potential layering: 11 transactions in 1 hour");
    assert!(suspicious_pattern_findings(5, 2, 10).is_empty());
}

#[test]
fn currencies_parse_in_any_case() {
    assert_eq!(Currency::parse("usd").unwrap(), Currency::USD);
    assert_eq!(Currency::parse("Eur").unwrap(), Currency::EUR);
    assert_eq!("jpy".parse::<Currency>().unwrap(), Currency::JPY);
    let bad = Currency::parse("xyz").unwrap_err();
    assert_eq!(bad.input, "xyz");
    assert_eq!(bad.message(), "Invalid currency: xyz");
    assert_eq!(Currency::from_code("gbp"), None);
    assert_eq!(Currency::from_code("GBP"), Some(Currency::GBP));
    assert!(is_supported_code("USD"));
    assert!(!is_supported_code("usd"));
    assert_eq!(Currency::GBP.display_name(), "British Pound");
    assert_eq!(Currency::JPY.to_string(), "JPY");
    assert_eq!(get_supported_currencies(), vec![Currency::USD, Currency::EUR, Currency::GBP, Currency::JPY]);
    let list = supported_currency_list();
    assert_eq!(list.currencies.len(), 4);
    assert_eq!(list.currencies[1].code, "EUR");
    assert_eq!(list.currencies[1].name, "Euro");
}

#[test]
fn exchange_rates_cache_keys_and_staleness() {
    assert_eq!(exchange_rate_cache_key("USD", "EUR"), "exchange_rate:USD:EUR");
    assert!(rate_is_stale(301, 300));
    assert!(!rate_is_stale(300, 300));
    assert!(check_rate_age(Currency::USD, Currency::EUR, 100, 300, RateSource::Cache).is_ok());
    match check_rate_age(Currency::USD, Currency::EUR, 400, 300, RateSource::Cache) {
        Err(ApiError::BadRequest(m)) => {
            assert_eq!(m, "Exchange rate for USD/EUR is stale (last updated 400 seconds ago, limit is 300 seconds)")
        }
        other => panic!("unexpected {:?}", other),
    }
    match check_rate_age(Currency::GBP, Currency::JPY, 900, 60, RateSource::Database) {
        Err(ApiError::BadRequest(m)) => assert_eq!(
            m,
            "Exchange rate for GBP/JPY is stale in database (last updated 900 seconds ago, limit is 60 seconds)"
        ),
        other => panic!("unexpected {:?}", other),
    }
    match rate_not_found(Currency::EUR, Currency::USD) {
        ApiError::NotFound(m) => assert_eq!(m, "Exchange rate not found for EUR/USD"),
        other => panic!("unexpected {:?}", other),
    }
}

#[test]
fn api_errors_map_to_status_code_and_message() {
    assert_eq!(ApiError::NotFound("x".to_string()).status_and_code(), (404, "NOT_FOUND"));
    assert_eq!(ApiError::RateLimit("slow".to_string()).status_and_code(), (429, "RATE_LIMIT_EXCEEDED"));
    assert_eq!(ApiError::Pool("p".to_string()).status_and_code(), (500, "DATABASE_ERROR"));
    assert_eq!(ApiError::Compliance("c".to_string()).status_and_code(), (403, "COMPLIANCE_VIOLATION"));
    assert_eq!(ApiError::Validation("bad field".to_string()).message(), "Validation error: bad field");
    assert_eq!(ApiError::InternalServerError.message(), "Internal server error");
    assert_eq!(ApiError::internal_server_error("secret".to_string()).message(), "Internal server error");
}
