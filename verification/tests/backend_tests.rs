use zaps::admin::{
    alert_risk_score, case_filters, case_status_closes, get_dashboard_stats, get_system_health, page_window,
    profile_trend, provider_update, reasons_from_json, report_period_start, report_recommendations, top_risk_factors,
    ComplianceQueryParams, ProviderUpdate, UpdateSanctionsProviderRequest,
};
use zaps::api_error::ApiError;
use zaps::batch::{
    batch_key, batch_status_finishes, new_batch_key, item_outcome, settle_batch, validate_batch_open, validate_batch_size, BatchConfig,
    BatchStatus, ItemOutcome,
};
use zaps::clock::{days_since, plus_hours, seconds_since, Moment};
use zaps::config::{
    default_sanctions_providers, AnchorConfig, BridgeConfig, CacheConfig, CurrencyConfig, EnvironmentType, JwtConfig,
    ObservabilityConfig, RiskThresholds, ServerConfig, StellarNetwork, StorageBackend, StorageConfig, VelocityLimits,
};
use zaps::events::{extract_tx_hash, parse_zaps_event, ZapsEvent};
use zaps::ids::{hex_encode, new_uuid_simple, new_uuid_text, uuid_text};
use zaps::indexer::{
    after_failed_attempt, event_completes_payment, horizon_operations_from_json, horizon_transaction_from_json,
    initial_reconnect_state, latest_ledger_from_json, operation_amount, ReconnectState, ReconnectStep,
};
use zaps::json::{find_nested_i64, find_nested_string, JsonNumber, JsonValue};
use zaps::payments::{
    generate_qr_payment, new_payment_tx_hash, payment_tx_hash, social_payment_currency, stored_visibility, username_for_address,
    validate_nfc_payment, NfcPaymentPayload, QrPaymentPayload, SocialPaymentRecord,
};
use zaps::pool::{resize_pool, PoolLoad};
use zaps::rate_limit::{client_key, RateLimiter, NANOS_PER_SEC};
use zaps::session::{
    detect_suspicious_activity, enforce_concurrent_session_limit, generate_session_token, EventSeverity,
    SecurityEventType, SessionStatus, UserSession,
};
use zaps::telemetry::{default_log_filter, prometheus_content_type, telemetry_config_for};
use zaps::text::{blank, parse_i64, trimmed_chars};
use zaps::users::{get_profile, list_friends, search_plan, send_friend_request, SearchQuery};

fn s(t: &str) -> JsonValue {
    JsonValue::String(t.to_string())
}

fn n(v: i64) -> JsonValue {
    JsonValue::Number(JsonNumber { text: v.to_string(), integer: Some(v) })
}

fn obj(entries: Vec<(&str, JsonValue)>) -> JsonValue {
    JsonValue::Object(entries.into_iter().map(|(k, v)| (k.to_string(), v)).collect())
}

fn at(secs: i64) -> Moment {
    Moment::new(secs, 0).unwrap()
}

fn session(fingerprint: &str, ip: &str) -> UserSession {
    UserSession {
        id: "s".to_string(),
        user_id: "u".to_string(),
        session_token: "t".to_string(),
        device_id: "d".to_string(),
        device_fingerprint: fingerprint.to_string(),
        ip_address: ip.to_string(),
        user_agent: "agent".to_string(),
        status: SessionStatus::Active.to_string(),
        last_activity: at(0),
        created_at: at(0),
        expires_at: at(3600),
    }
}

#[test]
fn session_tokens_are_sixty_four_hex_digits() {
    let a = generate_session_token();
    let b = generate_session_token();
    assert_eq!(a.len(), 64);
    assert!(a.chars().all(|c| c.is_ascii_hexdigit() && !c.is_ascii_uppercase()));
    assert_ne!(a, b);
    assert_eq!(hex_encode(&vec![0x00, 0xab, 0x0f, 0xff]), "00ab0fff");
}

#[test]
fn concurrent_limit_evicts_the_least_recent_session() {
    let sessions = vec![session("f", "1"), session("f", "2"), session("f", "3")];
    let (i, ev) = enforce_concurrent_session_limit(&sessions, 3).unwrap();
    assert_eq!(i, 2);
    assert_eq!(ev.event_type, SecurityEventType::ConcurrentSession);
    assert_eq!(ev.severity, EventSeverity::Medium);
    assert!(enforce_concurrent_session_limit(&sessions, 4).is_none());
    assert!(enforce_concurrent_session_limit(&vec![], 0).is_none());
    assert_eq!(SecurityEventType::ConcurrentSession.to_string(), "concurrent_session");
    assert_eq!(EventSeverity::Critical.to_string(), "critical");
    assert_eq!(SessionStatus::Revoked.to_string(), "revoked");
}

#[test]
fn suspicious_activity_reports_device_before_address() {
    let sessions = vec![session("fp", "1.1.1.1"), session("other", "2.2.2.2")];
    assert!(detect_suspicious_activity(&vec![session("fp", "1.1.1.1")], "fp", "1.1.1.1").is_none());
    let (i, ev) = detect_suspicious_activity(&sessions, "fp", "1.1.1.1").unwrap();
    assert_eq!(i, 1);
    assert_eq!(ev.event_type, SecurityEventType::DeviceChange);
    assert_eq!(ev.severity, EventSeverity::High);
    let (j, moved) = detect_suspicious_activity(&sessions, "fp", "9.9.9.9").unwrap();
    assert_eq!(j, 0);
    assert_eq!(moved.event_type, SecurityEventType::LocationChange);
    assert!(!moved.with_device);
}

#[test]
fn batches_validate_and_settle() {
    let c = BatchConfig::default();
    assert_eq!((c.batch_size, c.batch_timeout_secs, c.max_retries), (100, 300, 3));
    assert!(validate_batch_size(1).is_ok());
    assert!(validate_batch_size(10_000).is_ok());
    match validate_batch_size(0) {
        Err(ApiError::Validation(m)) => assert_eq!(m, "Batch size must be between 1 and 10000"),
        other => panic!("unexpected {:?}", other),
    }
    assert!(validate_batch_size(10_001).is_err());
    assert!(validate_batch_open("pending").is_ok());
    match validate_batch_open("processing") {
        Err(ApiError::Validation(m)) => assert_eq!(m, "Cannot add items to a non-pending batch"),
        other => panic!("unexpected {:?}", other),
    }
    assert_eq!(batch_key("m1", "abc"), "m1-abc");
    assert!(batch_status_finishes("completed"));
    assert!(batch_status_finishes("failed"));
    assert!(!batch_status_finishes("partial_failure"));
    assert_eq!(BatchStatus::PartialFailure.as_str(), "partial_failure");

    assert_eq!(item_outcome(0, 3, true), ItemOutcome::Processed);
    assert_eq!(item_outcome(2, 3, false), ItemOutcome::AttemptFailed);
    assert_eq!(item_outcome(3, 3, true), ItemOutcome::RetriesExhausted);

    let all = settle_batch(&vec![ItemOutcome::Processed, ItemOutcome::Processed]);
    assert_eq!((all.processed, all.failed, all.status), (2, 0, BatchStatus::Completed));
    let some = settle_batch(&vec![ItemOutcome::Processed, ItemOutcome::AttemptFailed]);
    assert_eq!((some.processed, some.failed, some.status), (1, 1, BatchStatus::PartialFailure));
    let none = settle_batch(&vec![ItemOutcome::RetriesExhausted]);
    assert_eq!(none.status, BatchStatus::Failed);
    assert_eq!(settle_batch(&vec![]).status, BatchStatus::Completed);
}

#[test]
fn horizon_answers_are_read_field_by_field() {
    let tx = obj(vec![
        ("id", s("t1")),
        ("hash", s("abc")),
        ("ledger", n(42)),
        ("created_at", s("2026-01-01T00:00:00Z")),
        ("source_account", s("GSRC")),
        ("operation_count", n(3)),
    ]);
    let t = horizon_transaction_from_json(&tx);
    assert_eq!((t.id.as_str(), t.hash.as_str(), t.ledger, t.operations_count), ("t1", "abc", 42, 3));
    let empty = horizon_transaction_from_json(&obj(vec![("ledger", s("x"))]));
    assert_eq!((empty.id.as_str(), empty.ledger), ("", 0));

    let listing = obj(vec![(
        "_embedded",
        obj(vec![(
            "records",
            JsonValue::Array(vec![
                obj(vec![("id", s("o1")), ("type", s("payment")), ("destination", s("GDST")), ("amount", s("15"))]),
                obj(vec![("id", s("o2")), ("type", s("create_account"))]),
            ]),
        )]),
    )]);
    let ops = horizon_operations_from_json(&listing);
    assert_eq!(ops.len(), 2);
    assert_eq!(ops[0].operation_type, "payment");
    assert_eq!(ops[0].destination.as_deref(), Some("GDST"));
    assert_eq!(operation_amount(&ops[0]), 15);
    assert_eq!(ops[1].destination, None);
    assert_eq!(operation_amount(&ops[1]), 0);
    assert!(horizon_operations_from_json(&JsonValue::Null).is_empty());

    let ledgers = obj(vec![("_embedded", obj(vec![("records", JsonValue::Array(vec![obj(vec![("sequence", n(777))])]))]))]);
    assert_eq!(latest_ledger_from_json(&ledgers).unwrap(), 777);
    match latest_ledger_from_json(&obj(vec![])) {
        Err(ApiError::Stellar(m)) => assert_eq!(m, "Invalid ledger sequence in response"),
        other => panic!("unexpected {:?}", other),
    }
    assert!(event_completes_payment(true, true, 1));
    assert!(!event_completes_payment(true, true, 0));
}

#[test]
fn reconnection_backs_off_exponentially_up_to_a_minute() {
    let mut state = initial_reconnect_state();
    assert_eq!(state, ReconnectState { retry_count: 0, backoff_ms: 1000 });
    let mut waits = Vec::new();
    loop {
        match after_failed_attempt(state, 10) {
            ReconnectStep::Retry { wait_ms, next } => {
                waits.push(wait_ms);
                state = next;
            }
            ReconnectStep::GiveUp => break,
        }
    }
    assert_eq!(waits, vec![1000, 2000, 4000, 8000, 16000, 32000, 60000, 60000, 60000]);
    assert_eq!(after_failed_attempt(initial_reconnect_state(), 1), ReconnectStep::GiveUp);
}

#[test]
fn events_decode_from_nested_payloads() {
    let payload = obj(vec![
        ("data", obj(vec![("address", s("GUSER")), ("amount", s("2500"))])),
        ("meta", JsonValue::Array(vec![obj(vec![("txHash", s("h1"))])])),
    ]);
    match parse_zaps_event("YieldDeposited", &payload) {
        ZapsEvent::YieldDeposited(e) => {
            assert_eq!(e.address, "GUSER");
            assert_eq!(e.amount, 2500);
            assert_eq!(e.tx_hash, "h1");
        }
        _ => panic!("expected a deposit"),
    }
    let rate = obj(vec![("apy", n(650)), ("tx_hash", s("h2")), ("transactionHash", s("h3"))]);
    match parse_zaps_event("YieldRateUpdated", &rate) {
        ZapsEvent::YieldRateUpdated(e) => {
            assert_eq!(e.apy, 650);
            assert_eq!(e.tx_hash, "h2");
        }
        _ => panic!("expected a rate update"),
    }
    assert!(matches!(parse_zaps_event("Other", &rate), ZapsEvent::Unknown));
    assert_eq!(extract_tx_hash(&obj(vec![])), "unknown");
    assert_eq!(find_nested_string(&payload, "address").as_deref(), Some("GUSER"));
    assert_eq!(find_nested_i64(&payload, "amount"), Some(2500));
    assert_eq!(find_nested_i64(&payload, "missing"), None);
}

#[test]
fn payments_uris_nfc_window_and_usernames() {
    let qr = QrPaymentPayload {
        merchant_id: "m1".to_string(),
        amount: 500,
        asset: "USDC".to_string(),
        memo: Some("order-9".to_string()),
        expiry: 1_700_000_000,
    };
    assert_eq!(generate_qr_payment(&qr), "ZAPS://pay?merchant=m1&amount=500&asset=USDC&expiry=1700000000&memo=order-9");
    let no_memo = QrPaymentPayload { memo: None, amount: -5, ..qr };
    assert_eq!(generate_qr_payment(&no_memo), "ZAPS://pay?merchant=m1&amount=-5&asset=USDC&expiry=1700000000&memo=");

    let nfc = |timestamp: i64| NfcPaymentPayload {
        merchant_id: "m".to_string(),
        amount: 1,
        asset: "XLM".to_string(),
        memo: None,
        timestamp,
    };
    assert!(validate_nfc_payment(&nfc(1_300), 1_000));
    assert!(!validate_nfc_payment(&nfc(1_301), 1_000));
    assert!(validate_nfc_payment(&nfc(0), 1_000));

    assert_eq!(payment_tx_hash("abc"), "tx_abc");
    assert_eq!(social_payment_currency(), "NGN");
    let rec = SocialPaymentRecord {
        sender: "a".to_string(),
        receiver: "b".to_string(),
        amount: 1,
        memo: String::new(),
        visibility: "friends".to_string(),
        tx_hash: "h".to_string(),
    };
    assert_eq!(stored_visibility(&rec), "FRIENDS");
    assert_eq!(username_for_address("GABCDEFGHIJKLMNOPQRS"), "u_abcdefghijklmn");
}

#[test]
fn admin_listings_reports_and_updates() {
    let stats = get_dashboard_stats();
    assert_eq!(stats.total_users, 0);
    let health = get_system_health();
    assert_eq!(health.database, "healthy");
    assert_eq!(health.services, vec!["identity", "payment"]);
    let defaults = ComplianceQueryParams { limit: None, offset: None, priority: None, status: None };
    assert_eq!(page_window(&defaults), (50, 0));
    let big = ComplianceQueryParams { limit: Some(900), offset: Some(20), priority: Some("high".to_string()), status: None };
    assert_eq!(page_window(&big), (500, 20));
    assert_eq!(case_filters(&defaults), ("open".to_string(), None));
    assert_eq!(case_filters(&big), ("open".to_string(), Some("high".to_string())));
    assert_eq!(profile_trend(6), "increasing");
    assert_eq!(profile_trend(3), "stable");
    assert_eq!(profile_trend(2), "decreasing");
    assert_eq!(
        provider_update(&UpdateSanctionsProviderRequest { enabled: Some(true), priority: None }),
        ProviderUpdate::Enabled { enabled: true }
    );
    assert_eq!(provider_update(&UpdateSanctionsProviderRequest { enabled: None, priority: None }), ProviderUpdate::Nothing);
    assert!(case_status_closes("resolved"));
    assert!(!case_status_closes("open"));
    let reasons = JsonValue::Array(vec![s("a"), n(1), s("b")]);
    assert_eq!(reasons_from_json(&reasons), vec!["a", "b"]);
    assert!(reasons_from_json(&s("a")).is_empty());
    let factors = top_risk_factors(1, 2, 3);
    assert_eq!(factors[2], ("velocity_limit_exceeded".to_string(), 3));
    assert_eq!(report_recommendations().len(), 4);
    assert_eq!(alert_risk_score(300), 44);
    assert_eq!(report_period_start(2_592_000), 0);
}

#[test]
fn text_parsing_and_blankness() {
    assert_eq!(parse_i64("42"), Some(42));
    assert_eq!(parse_i64("-17"), Some(-17));
    assert_eq!(parse_i64("+8"), Some(8));
    assert_eq!(parse_i64("9223372036854775807"), Some(i64::MAX));
    assert_eq!(parse_i64("-9223372036854775808"), Some(i64::MIN));
    assert_eq!(parse_i64("9223372036854775808"), None);
    assert_eq!(parse_i64(""), None);
    assert_eq!(parse_i64("1.5"), None);
    assert_eq!(parse_i64("-"), None);
    assert!(blank(""));
    assert!(blank(" \t\n"));
    assert!(!blank(" x "));
    assert_eq!(trimmed_chars("  hi there \t"), vec!['h', 'i', ' ', 't', 'h', 'e', 'r', 'e']);
}

#[test]
fn rate_limiter_refills_by_whole_seconds() {
    let mut limiter = RateLimiter::new(1, 2);
    let key = client_key(Some("10.0.0.1".to_string()), Some("peer".to_string()));
    assert_eq!(key, "10.0.0.1");
    assert_eq!(client_key(None, Some("peer".to_string())), "peer");
    assert_eq!(client_key(None, None), "unknown");
    let t0 = 5 * NANOS_PER_SEC;
    assert!(limiter.check_rate(key.clone(), t0));
    assert!(limiter.check_rate(key.clone(), t0 + 10));
    assert!(!limiter.check_rate(key.clone(), t0 + 20));
    // Another client has its own bucket.
    assert!(limiter.check_rate("other".to_string(), t0));
    // Half a second is not enough to refill.
    assert!(!limiter.check_rate(key.clone(), t0 + NANOS_PER_SEC / 2));
    assert!(limiter.check_rate(key.clone(), t0 + 3 * NANOS_PER_SEC));
}

#[test]
fn telemetry_and_users_endpoints() {
    assert!(telemetry_config_for(Some("JSON")).json_format);
    assert!(telemetry_config_for(Some("json")).json_format);
    assert!(!telemetry_config_for(Some("text")).json_format);
    assert!(!telemetry_config_for(None).json_format);
    assert_eq!(default_log_filter(), "zaps_backend=info,tower_http=info");
    assert_eq!(prometheus_content_type(), "text/plain; version=0.0.4; charset=utf-8");
    assert_eq!(get_profile().username, "ebube.zaps");
    let plan = search_plan(&SearchQuery { q: "eb".to_string(), limit: None, offset: Some(5) });
    assert_eq!(plan, ("eb%".to_string(), 20, 5));
    assert!(list_friends().is_empty());
    assert_eq!(send_friend_request(&zaps::users::FriendRequest { friend_address: "G".to_string() }), "pending");
}

#[test]
fn clock_differences_round_toward_zero() {
    let a = Moment::new(100, 500_000_000).unwrap();
    let b = Moment::new(98, 900_000_000).unwrap();
    assert_eq!(seconds_since(a, b), 1);
    assert_eq!(seconds_since(b, a), -1);
    assert_eq!(days_since(at(3 * 86_400 + 5), at(0)), 3);
    assert_eq!(days_since(at(0), at(86_399)), 0);
    assert_eq!(days_since(at(0), at(2 * 86_400 + 1)), -2);
    let later = plus_hours(a, 24);
    assert_eq!((later.secs, later.nanos), (86_500, 500_000_000));
    assert_eq!(plus_hours(at(7_200), -2), at(0));
}

#[test]
fn pool_grows_when_busy_and_shrinks_to_its_minimum() {
    assert_eq!(resize_pool(16, 4, 2, PoolLoad::AtOrAboveHigh), 18);
    assert_eq!(resize_pool(usize::MAX, 4, 2, PoolLoad::AtOrAboveHigh), usize::MAX);
    assert_eq!(resize_pool(16, 4, 2, PoolLoad::AtOrBelowLow), 14);
    assert_eq!(resize_pool(5, 4, 2, PoolLoad::AtOrBelowLow), 4);
    assert_eq!(resize_pool(4, 4, 2, PoolLoad::AtOrBelowLow), 4);
    assert_eq!(resize_pool(16, 4, 2, PoolLoad::Between), 16);
    assert_eq!(resize_pool(0, 4, 2, PoolLoad::AtOrAboveHigh), 0);
}

#[test]
fn configuration_defaults() {
    assert_eq!(ServerConfig::default().port, 3000);
    let jwt = JwtConfig::default();
    assert_eq!((jwt.expiration_hours, jwt.refresh_expiration_hours), (24, 168));
    assert_eq!(EnvironmentType::default(), EnvironmentType::Development);
    assert_eq!(StellarNetwork::default().horizon_url, "https://horizon-testnet.stellar.org");
    assert!(AnchorConfig::default().kyc_required);
    let bridge = BridgeConfig::default();
    assert_eq!(bridge.supported_assets, vec!["USDC", "USDT"]);
    assert_eq!((bridge.min_bridge_amount, bridge.max_bridge_amount), (1_000_000, 100_000_000));
    assert_eq!(VelocityLimits::default().max_transaction_amount, 5_000_000);
    assert!(RiskThresholds::default().suspicious_patterns.is_empty());
    let providers = default_sanctions_providers();
    assert_eq!(providers.len(), 2);
    assert_eq!((providers[0].provider_type.as_str(), providers[0].priority), ("ofac", 1));
    assert_eq!((providers[1].provider_type.as_str(), providers[1].timeout_seconds), ("un", 5));
    assert_eq!(ObservabilityConfig::default().log_retention_days, 30);
    assert_eq!(CacheConfig::default().hot_data_ttl_seconds, 60);
    assert_eq!(CurrencyConfig::default().conversion_fee_bps, 50);
    let storage = StorageConfig::default();
    assert_eq!(storage.backend, StorageBackend::Local);
    assert_eq!(storage.local_path.as_deref(), Some("./uploads"));
}

#[test]
fn fresh_identifiers_have_the_uuid_shapes() {
    let bytes: Vec<u8> = (0u8..16).map(|i| i * 17).collect();
    assert_eq!(uuid_text(&bytes), "00112233-4455-6677-8899-aabbccddeeff");
    let text = new_uuid_text();
    assert_eq!(text.len(), 36);
    assert_eq!(text.chars().nth(14), Some('4'));
    assert_eq!(text.matches('-').count(), 4);
    let simple = new_uuid_simple();
    assert_eq!(simple.len(), 32);
    assert!(simple.chars().all(|c| c.is_ascii_hexdigit() && !c.is_ascii_uppercase()));
    let tx = new_payment_tx_hash();
    assert!(tx.starts_with("tx_"));
    assert_eq!(tx.len(), 35);
    assert_ne!(new_payment_tx_hash(), tx);
    let key = new_batch_key("m42");
    assert!(key.starts_with("m42-"));
    assert_eq!(key.len(), 4 + 36);
}

#[test]
fn usernames_take_the_address_bytes_one_to_fifteen() {
    assert_eq!(zaps::payments::username_from_part("abc"), "u_abc");
    // "é" takes two bytes, so bytes 1 to 15 are "é" and twelve letters.
    assert_eq!(username_for_address("GéABCDEFGHIJKLMN"), "u_éabcdefghijkl");
}

#[test]
fn indicators_share_one_assessment_and_carry_their_own_ids() {
    let now = at(1_000);
    let found = zaps::compliance::detect_suspicious_patterns(6, 3, 11, now);
    assert_eq!(found.len(), 3);
    assert_eq!(found[0].indicator_type, "structured_transaction");
    assert_eq!(found[1].indicator_type, "circular_flow");
    assert_eq!(found[2].severity, "critical");
    assert_eq!(found[2].description, "Detected potential layering: 11 transactions in 1 hour");
    assert!(found.iter().all(|i| i.assessment_id == found[0].assessment_id && i.detected_at == now));
    assert!(found.iter().all(|i| i.id.len() == 36 && i.assessment_id.len() == 36));
    assert_ne!(found[0].id, found[1].id);
    assert!(zaps::compliance::detect_suspicious_patterns(1, 1, 1, now).is_empty());
}

#[test]
fn a_draining_rate_refuses_once_a_second_has_passed() {
    let mut limiter = RateLimiter::new(-1, 1);
    assert!(limiter.check_rate("k".to_string(), 0));
    assert!(!limiter.check_rate("k".to_string(), 5 * NANOS_PER_SEC));
    let mut extreme = RateLimiter::new(i64::MIN, 3);
    assert!(extreme.check_rate("k".to_string(), 0));
    assert!(!extreme.check_rate("k".to_string(), u64::MAX));
}

#[test]
fn lower_case_decisions_after_case_mapping() {
    assert!(zaps::telemetry::telemetry_config_from_lowercase(Some("json")).json_format);
    assert!(!zaps::telemetry::telemetry_config_from_lowercase(Some("JSON")).json_format);
    assert!(!zaps::telemetry::telemetry_config_from_lowercase(None).json_format);
    assert_eq!(zaps::role::Role::from_lowercase_name("merchant"), zaps::role::Role::Merchant);
    assert_eq!(zaps::role::Role::from_lowercase_name("Admin"), zaps::role::Role::User);
}
