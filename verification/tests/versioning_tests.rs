use zaps::api_error::ApiError;
use zaps::clock::Moment;
use zaps::version_catalog::{
    build_deprecation_notices, check_compatibility, compatibility_report, get_version_capabilities, list_deprecations,
    negotiate_version, v1_capabilities, v2_capabilities, NegotiateQuery,
};
use zaps::versioning::{
    extract_version_from_headers, extract_version_from_path, resolve_version, version_response_headers,
    ApiVersion, VersionHeaders,
};

#[test]
fn test_v1_capabilities_status_is_deprecated() {
    let caps = v1_capabilities();
    assert_eq!(caps.status, "deprecated");
}

#[test]
fn test_v2_capabilities_includes_disputes() {
    let caps = v2_capabilities();
    assert!(caps.features.contains(&"payment-disputes"));
    assert!(caps.endpoints.iter().any(|e| e.path.contains("disputes")));
}

#[test]
fn test_v2_dispute_endpoints_added_in_v2() {
    let caps = v2_capabilities();
    for ep in caps.endpoints.iter().filter(|e| e.path.contains("disputes")) {
        assert_eq!(ep.added_in, "v2");
    }
}

#[test]
fn test_deprecation_notices_cover_v1() {
    let notices = build_deprecation_notices();
    assert!(!notices.is_empty());
    assert_eq!(notices[0].version, "v1");
    assert_eq!(notices[0].replacement_version, "v2");
}

#[test]
fn test_unknown_version_returns_none() {
    assert!(ApiVersion::from_header_value("v99").is_none());
}

#[test]
fn test_extract_version_from_path() {
    assert_eq!(extract_version_from_path("/api/v1/payments"), Some(ApiVersion::V1));
    assert_eq!(extract_version_from_path("/api/v2/payments"), Some(ApiVersion::V2));
    assert_eq!(extract_version_from_path("/health"), None);
}

#[test]
fn test_v1_is_deprecated() {
    assert!(ApiVersion::V1.is_deprecated());
    assert!(!ApiVersion::V2.is_deprecated());
}

#[test]
fn test_sunset_date() {
    assert!(ApiVersion::V1.sunset_date().is_some());
    assert!(ApiVersion::V2.sunset_date().is_none());
}

#[test]
fn test_from_header_value() {
    assert_eq!(ApiVersion::from_header_value("v1"), Some(ApiVersion::V1));
    assert_eq!(ApiVersion::from_header_value("v2"), Some(ApiVersion::V2));
    assert_eq!(ApiVersion::from_header_value("1"), Some(ApiVersion::V1));
    assert_eq!(ApiVersion::from_header_value("2"), Some(ApiVersion::V2));
    assert_eq!(ApiVersion::from_header_value("  v2  "), Some(ApiVersion::V2));
    assert_eq!(ApiVersion::from_header_value("v3"), None);
    assert_eq!(ApiVersion::from_header_value(""), None);
}

#[test]
fn test_latest_is_v2() {
    assert_eq!(ApiVersion::latest(), ApiVersion::V2);
}

#[test]
fn test_as_numeric() {
    assert_eq!(ApiVersion::V1.as_numeric(), 1);
    assert_eq!(ApiVersion::V2.as_numeric(), 2);
}

#[test]
fn test_version_ordering() {
    assert!(ApiVersion::V1 < ApiVersion::V2);
}

#[test]
fn version_names_round_trip_through_paths_and_headers() {
    for v in [ApiVersion::V1, ApiVersion::V2] {
        assert_eq!(ApiVersion::from_path_segment(v.as_str()), Some(v));
        assert_eq!(ApiVersion::from_header_value(v.as_str()), Some(v));
        assert_eq!(extract_version_from_path(v.as_str()), Some(v));
        assert_eq!(v.is_deprecated(), v.sunset_date().is_some());
        assert_eq!(v.is_deprecated(), v.migration_guide_url().is_some());
    }
}

#[test]
fn path_segments_are_matched_exactly_and_in_order() {
    assert_eq!(extract_version_from_path("/api/v2/x/v1"), Some(ApiVersion::V2));
    assert_eq!(extract_version_from_path("v1"), Some(ApiVersion::V1));
    assert_eq!(extract_version_from_path("/api/v10/payments"), None);
    assert_eq!(extract_version_from_path("/api/V1/payments"), None);
    assert_eq!(extract_version_from_path("/api/v1"), Some(ApiVersion::V1));
    assert_eq!(extract_version_from_path(""), None);
    assert_eq!(extract_version_from_path("//v2//"), Some(ApiVersion::V2));
    assert_eq!(ApiVersion::from_path_segment("1"), None);
}

#[test]
fn header_values_accept_numbers_and_white_space() {
    assert_eq!(ApiVersion::from_header_value("\t1\n"), Some(ApiVersion::V1));
    assert_eq!(ApiVersion::from_header_value("\u{3000}v2"), Some(ApiVersion::V2));
    assert_eq!(ApiVersion::from_header_value("v 2"), None);
    assert_eq!(ApiVersion::from_header_value("V2"), None);
}

#[test]
fn headers_are_checked_in_order_and_path_wins() {
    let headers = VersionHeaders {
        x_api_version: Some("bogus".to_string()),
        accept_version: Some("2".to_string()),
        api_version: Some("1".to_string()),
    };
    assert_eq!(extract_version_from_headers(&headers), Some(ApiVersion::V2));
    assert_eq!(resolve_version("/api/v1/payments", &headers), ApiVersion::V1);
    assert_eq!(resolve_version("/health", &headers), ApiVersion::V2);
    let none = VersionHeaders { x_api_version: None, accept_version: None, api_version: None };
    assert_eq!(extract_version_from_headers(&none), None);
    assert_eq!(resolve_version("/health", &none), ApiVersion::V1);
}

#[test]
fn deprecated_version_headers_announce_the_sunset() {
    let v1 = version_response_headers(ApiVersion::V1);
    let pairs: Vec<(String, String)> = v1.into_iter().map(|h| (h.name, h.value)).collect();
    assert_eq!(pairs.len(), 5);
    assert_eq!(pairs[0], ("x-api-version".to_string(), "v1".to_string()));
    assert_eq!(pairs[1], ("deprecation".to_string(), "true".to_string()));
    assert_eq!(pairs[2], ("sunset".to_string(), "Fri, 01 Jan 2027 00:00:00 GMT".to_string()));
    assert_eq!(
        pairs[3],
        ("link".to_string(), "<https://docs.blinks.app/api/migration/v1-to-v2>; rel=\"deprecation\"".to_string())
    );
    assert_eq!(
        pairs[4].1,
        "299 - \"API v1 is deprecated and will be removed on Fri, 01 Jan 2027 00:00:00 GMT. Migrate to v2: https://docs.blinks.app/api/migration/v1-to-v2\""
    );
    let v2 = version_response_headers(ApiVersion::V2);
    assert_eq!(v2.len(), 1);
    assert_eq!(v2[0].value, "v2");
}

#[test]
fn capabilities_tables_have_their_entries() {
    let v1 = v1_capabilities();
    assert_eq!(v1.version, "v1");
    assert_eq!(v1.endpoints.len(), 11);
    assert_eq!(v1.features.len(), 13);
    assert!(!v1.features.contains(&"payment-disputes"));
    let v2 = v2_capabilities();
    assert_eq!(v2.status, "current");
    assert_eq!(v2.endpoints.len(), 16);
    assert_eq!(v2.features.len(), 16);
    assert_eq!(v2.endpoints[8].method, "PATCH");
    assert!(v2.endpoints.iter().all(|e| e.deprecated_in.is_none()));
}

#[test]
fn capabilities_lookup_names_versions_exactly() {
    assert_eq!(get_version_capabilities("v1").unwrap().version, "v1");
    assert_eq!(get_version_capabilities("v2").unwrap().version, "v2");
    match get_version_capabilities("2") {
        Err(ApiError::NotFound(m)) => {
            assert_eq!(m, "API version '2' not found. Supported versions: v1, v2")
        }
        _ => panic!("expected not found"),
    }
}

#[test]
fn deprecation_list_counts_its_notices() {
    let list = list_deprecations();
    assert_eq!(list.total, 1);
    assert_eq!(list.deprecations[0].sunset_date, "2027-01-01");
    assert_eq!(list.deprecations[0].affected_endpoints.len(), 5);
    assert_eq!(list.deprecations[0].affected_endpoints[1], "GET  /api/v1/payments/:id");
}

#[test]
fn negotiation_echoes_the_request() {
    let r = negotiate_version(&NegotiateQuery { requested: Some(" 1 ".to_string()) });
    assert_eq!(r.recommended_version, "v2");
    assert_eq!(r.requested_version.as_deref(), Some("v1"));
    assert!(r.is_deprecated);
    assert_eq!(r.sunset_date.as_deref(), Some("Fri, 01 Jan 2027 00:00:00 GMT"));
    assert_eq!(r.available_versions, vec!["v1".to_string(), "v2".to_string()]);

    let unknown = negotiate_version(&NegotiateQuery { requested: Some("v9".to_string()) });
    assert_eq!(unknown.requested_version.as_deref(), Some("v9"));
    assert!(!unknown.is_deprecated);
    assert!(unknown.migration_guide_url.is_none());

    let none = negotiate_version(&NegotiateQuery { requested: None });
    assert!(none.requested_version.is_none());
    assert_eq!(none.latest_version, "v2");
}

#[test]
fn compatibility_counts_whole_days_to_the_sunset() {
    // 2026-01-01T00:00:00.5Z: 365 days minus half a second before 2027-01-01.
    let now = Moment::new(1_767_225_600, 500_000_000).unwrap();
    let sunset: i64 = 1_798_761_600;
    let info = compatibility_report(ApiVersion::V1, Some(sunset), now);
    assert_eq!(info.status, "deprecated");
    assert!(info.is_deprecated);
    assert_eq!(info.days_until_sunset, Some(364));
    assert_eq!(info.upgrade_required_by, Some("Fri, 01 Jan 2027 00:00:00 GMT"));

    let exact = Moment::new(1_767_225_600, 0).unwrap();
    assert_eq!(compatibility_report(ApiVersion::V1, Some(sunset), exact).days_until_sunset, Some(365));

    // One day and a second after the sunset.
    let after = Moment::new(sunset + 86_401, 0).unwrap();
    assert_eq!(compatibility_report(ApiVersion::V1, Some(sunset), after).days_until_sunset, Some(-1));

    // The sunset date parses, so the day count is reported.
    let checked = check_compatibility("v1", now).unwrap();
    assert_eq!(checked.status, "deprecated");
    assert_eq!(checked.days_until_sunset, Some(364));
    assert_eq!(checked.sunset_date, Some("Fri, 01 Jan 2027 00:00:00 GMT"));

    let current = check_compatibility("v2", now).unwrap();
    assert_eq!(current.status, "current");
    assert_eq!(current.days_until_sunset, None);
    assert_eq!(current.recommended_version, "v2");

    assert!(matches!(check_compatibility("v3", now), Err(ApiError::NotFound(_))));
}

#[test]
fn versions_compare_by_their_numbers() {
    assert_eq!(ApiVersion::V1.partial_cmp(&ApiVersion::V2), Some(std::cmp::Ordering::Less));
    assert_eq!(ApiVersion::V2.partial_cmp(&ApiVersion::V2), Some(std::cmp::Ordering::Equal));
    assert!(ApiVersion::V2 > ApiVersion::V1);
    assert!(ApiVersion::V1 <= ApiVersion::latest());
    assert_eq!(ApiVersion::V1.cmp(&ApiVersion::V2), std::cmp::Ordering::Less);
    assert_eq!(ApiVersion::from_header_value(&ApiVersion::V2.as_numeric().to_string()), Some(ApiVersion::V2));
}
