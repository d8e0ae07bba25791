use marchproxy_filters::license::{
    decide, is_feature_enabled, required_feature, response_annotation, LicenseConfig,
    LicenseDecision,
};

const UPGRADE_URL: &str = "https://marchproxy.penguintech.io/pricing";

fn enterprise_config() -> LicenseConfig {
    LicenseConfig {
        license_key: "ENT-123".to_string(),
        is_enterprise: true,
        features: vec![
            ("basic_proxy".to_string(), true),
            ("rate_limiting".to_string(), true),
            ("advanced_routing".to_string(), true),
            ("multi_cloud".to_string(), true),
            ("distributed_tracing".to_string(), true),
            ("zero_trust".to_string(), true),
        ],
        max_proxies: 100,
        current_proxies: 10,
    }
}

fn reject_parts(d: LicenseDecision) -> (u16, Vec<(String, String)>, String) {
    match d {
        LicenseDecision::Reject { status, headers, body } => (status, headers, body),
        LicenseDecision::Continue { .. } => panic!("expected a rejection"),
    }
}

#[test]
fn gated_path_with_feature_disabled_is_402() {
    let cfg = LicenseConfig::default();
    let (status, headers, body) = reject_parts(decide(&cfg, "/api/v1/multi-cloud"));
    assert_eq!(status, 402);
    assert_eq!(
        headers,
        vec![
            ("content-type".to_string(), "application/json".to_string()),
            ("x-license-required".to_string(), "enterprise".to_string()),
        ]
    );
    assert_eq!(
        body,
        format!(
            "{{\"error\":\"Enterprise license required for feature: multi_cloud\",\"upgrade_url\":\"{}\"}}",
            UPGRADE_URL
        )
    );
}

#[test]
fn path_to_feature_mapping() {
    assert_eq!(required_feature("/api/v1/traffic-shaping").as_deref(), Some("advanced_routing"));
    assert_eq!(required_feature("/api/v1/multi-cloud/x").as_deref(), Some("multi_cloud"));
    assert_eq!(required_feature("/api/v1/tracing").as_deref(), Some("distributed_tracing"));
    assert_eq!(required_feature("/api/v1/zero-trust").as_deref(), Some("zero_trust"));
    assert_eq!(required_feature("/api/v1/advanced-rate-limit").as_deref(), Some("rate_limiting"));
    assert_eq!(required_feature("/api/v1/other"), None);
    assert_eq!(required_feature("/"), None);
}

#[test]
fn each_gated_path_is_refused_under_community_defaults() {
    let cfg = LicenseConfig::default();
    for (path, feature) in [
        ("/api/v1/traffic-shaping", "advanced_routing"),
        ("/api/v1/multi-cloud", "multi_cloud"),
        ("/api/v1/tracing", "distributed_tracing"),
        ("/api/v1/zero-trust", "zero_trust"),
        ("/api/v1/advanced-rate-limit", "rate_limiting"),
    ] {
        let (status, _, body) = reject_parts(decide(&cfg, path));
        assert_eq!(status, 402);
        assert!(body.contains(feature), "{} should name {}", body, feature);
        assert!(body.contains(UPGRADE_URL));
    }
}

#[test]
fn gated_path_with_feature_enabled_continues() {
    let cfg = enterprise_config();
    let d = decide(&cfg, "/api/v1/multi-cloud");
    match d {
        LicenseDecision::Continue { request_headers } => {
            assert_eq!(
                request_headers,
                vec![
                    ("x-license-edition".to_string(), "enterprise".to_string()),
                    ("x-license-key".to_string(), "ENT-123".to_string()),
                ]
            );
        }
        _ => panic!("expected Continue"),
    }
}

#[test]
fn ungated_path_continues_with_community_annotations() {
    let cfg = LicenseConfig::default();
    match decide(&cfg, "/api/v1/anything-else") {
        LicenseDecision::Continue { request_headers } => {
            assert_eq!(
                request_headers,
                vec![
                    ("x-license-edition".to_string(), "community".to_string()),
                    ("x-license-key".to_string(), "COMMUNITY".to_string()),
                ]
            );
        }
        _ => panic!("expected Continue"),
    }
}

#[test]
fn proxy_count_at_limit_continues() {
    let mut cfg = enterprise_config();
    cfg.max_proxies = 3;
    cfg.current_proxies = 3;
    assert!(matches!(decide(&cfg, "/plain"), LicenseDecision::Continue { .. }));
}

#[test]
fn proxy_count_over_limit_is_429_with_exact_body() {
    let mut cfg = enterprise_config();
    cfg.max_proxies = 3;
    cfg.current_proxies = 4;
    let (status, headers, body) = reject_parts(decide(&cfg, "/plain"));
    assert_eq!(status, 429);
    assert_eq!(
        headers,
        vec![
            ("content-type".to_string(), "application/json".to_string()),
            ("x-license-limit-exceeded".to_string(), "true".to_string()),
        ]
    );
    assert_eq!(
        body,
        format!(
            "{{\"error\":\"Proxy count limit exceeded\",\"current\":4,\"limit\":3,\"upgrade_url\":\"{}\"}}",
            UPGRADE_URL
        )
    );
}

#[test]
fn feature_gate_takes_precedence_over_quota() {
    let mut cfg = LicenseConfig::default();
    cfg.max_proxies = 1;
    cfg.current_proxies = 5;
    let (status, _, _) = reject_parts(decide(&cfg, "/api/v1/zero-trust"));
    assert_eq!(status, 402);
}

#[test]
fn absent_feature_key_counts_as_disabled() {
    let mut cfg = enterprise_config();
    cfg.features = vec![("basic_proxy".to_string(), true)];
    assert!(!is_feature_enabled(&cfg, "multi_cloud"));
    let (status, _, _) = reject_parts(decide(&cfg, "/api/v1/multi-cloud"));
    assert_eq!(status, 402);
}

#[test]
fn feature_present_but_false_is_disabled() {
    let mut cfg = enterprise_config();
    cfg.features = vec![("multi_cloud".to_string(), false)];
    assert!(!is_feature_enabled(&cfg, "multi_cloud"));
}

#[test]
fn response_annotation_names_the_edition() {
    let community = LicenseConfig::default();
    let (name, value) = response_annotation(&community);
    assert_eq!(name, "x-marchproxy-edition");
    assert_eq!(value, "community");
    let (_, value) = response_annotation(&enterprise_config());
    assert_eq!(value, "enterprise");
}

#[test]
fn default_license_config_values() {
    let cfg = LicenseConfig::default();
    assert_eq!(cfg.license_key, "COMMUNITY");
    assert!(!cfg.is_enterprise);
    assert_eq!(cfg.max_proxies, 3);
    assert_eq!(cfg.current_proxies, 0);
    assert!(is_feature_enabled(&cfg, "basic_proxy"));
    for f in ["rate_limiting", "advanced_routing", "multi_cloud", "distributed_tracing",
        "zero_trust"]
    {
        assert!(!is_feature_enabled(&cfg, f), "{} should default to off", f);
    }
}
