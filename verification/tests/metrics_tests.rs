use marchproxy_filters::metrics::{
    on_exchange_end, on_request_body, on_request_headers, on_response_body, on_response_headers,
    path_prefix, sampling_decision, ExchangeContext, MetricKind, MetricsConfig, MetricUpdate,
};

fn names(updates: &[MetricUpdate]) -> Vec<&str> {
    updates.iter().map(|u| u.name.as_str()).collect()
}

#[test]
fn full_sample_rate_samples_every_exchange() {
    let cfg = MetricsConfig::default();
    for now_ms in [0u64, 1, 499, 999, 1000, 123_456_789] {
        assert!(sampling_decision(&cfg, now_ms));
    }
}

#[test]
fn zero_sample_rate_samples_nothing() {
    let mut cfg = MetricsConfig::default();
    cfg.sample_rate_permille = 0;
    for now_ms in [0u64, 1, 499, 999, 1000, 123_456_789] {
        assert!(!sampling_decision(&cfg, now_ms));
    }
}

#[test]
fn partial_sample_rate_follows_the_clock() {
    let mut cfg = MetricsConfig::default();
    cfg.sample_rate_permille = 500;
    assert!(sampling_decision(&cfg, 2_499));
    assert!(!sampling_decision(&cfg, 2_500));
    assert!(!sampling_decision(&cfg, 2_999));
    assert!(sampling_decision(&cfg, 3_000));
}

#[test]
fn request_headers_emit_the_three_counters() {
    let cfg = MetricsConfig::default();
    let mut ctx = ExchangeContext::default();
    let u = on_request_headers(&cfg, &mut ctx, 42, 7, "GET", "/api/v1/users");
    assert_eq!(ctx.start_time_ns, 42);
    assert!(ctx.sampled);
    assert_eq!(
        names(&u),
        vec![
            "marchproxy_requests_total",
            "marchproxy_requests_by_method_get",
            "marchproxy_requests_by_path_api",
        ]
    );
    assert!(u.iter().all(|m| m.value == 1 && m.kind == MetricKind::Counter));
}

#[test]
fn unsampled_exchange_emits_nothing() {
    let mut cfg = MetricsConfig::default();
    cfg.sample_rate_permille = 0;
    let mut ctx = ExchangeContext::default();
    let u = on_request_headers(&cfg, &mut ctx, 42, 7, "GET", "/api/v1/users");
    assert!(!ctx.sampled);
    assert!(u.is_empty());
    on_response_body(&cfg, &mut ctx, 100);
    assert_eq!(ctx.response_size_bytes, 0);
    assert!(on_exchange_end(&cfg, &ctx).is_empty());
}

#[test]
fn request_metrics_toggle_off_emits_nothing() {
    let mut cfg = MetricsConfig::default();
    cfg.enable_request_metrics = false;
    let mut ctx = ExchangeContext::default();
    let u = on_request_headers(&cfg, &mut ctx, 42, 7, "GET", "/x");
    assert!(ctx.sampled);
    assert!(u.is_empty());
}

#[test]
fn path_bucket_is_the_first_segment_sanitized() {
    assert_eq!(path_prefix("/api/v1/users"), "api");
    assert_eq!(path_prefix("api/v1"), "api");
    assert_eq!(path_prefix("//double"), "double");
    assert_eq!(path_prefix("/we!rd$seg/x"), "werdseg");
    assert_eq!(path_prefix("/a-b_c9/x"), "a-b_c9");
}

#[test]
fn path_without_segments_goes_to_the_root_bucket() {
    assert_eq!(path_prefix(""), "root");
    assert_eq!(path_prefix("/"), "root");
    assert_eq!(path_prefix("///"), "root");
}

#[test]
fn status_404_increments_status_and_class_counters() {
    let cfg = MetricsConfig::default();
    let mut ctx = ExchangeContext::default();
    let _ = on_request_headers(&cfg, &mut ctx, 0, 0, "GET", "/x");
    let u = on_response_headers(&cfg, &ctx, "404", 0);
    let n = names(&u);
    assert!(n.contains(&"marchproxy_responses_total"));
    assert!(n.contains(&"marchproxy_responses_by_status_404"));
    assert!(n.contains(&"marchproxy_responses_by_class_4xx"));
}

#[test]
fn unreadable_status_counts_as_code_zero() {
    let cfg = MetricsConfig::default();
    let mut ctx = ExchangeContext::default();
    let _ = on_request_headers(&cfg, &mut ctx, 0, 0, "GET", "/x");
    let u = on_response_headers(&cfg, &ctx, "abc", 0);
    let n = names(&u);
    assert!(n.contains(&"marchproxy_responses_by_status_0"));
    assert!(n.contains(&"marchproxy_responses_by_class_0xx"));
}

#[test]
fn duration_is_whole_milliseconds() {
    let cfg = MetricsConfig::default();
    let mut ctx = ExchangeContext::default();
    let _ = on_request_headers(&cfg, &mut ctx, 1_000_000, 0, "GET", "/x");
    let u = on_response_headers(&cfg, &ctx, "200", 6_500_000);
    let timing = u.last().unwrap();
    assert_eq!(timing.name, "marchproxy_request_duration_ms");
    assert_eq!(timing.value, 5);
    assert_eq!(timing.kind, MetricKind::Histogram);
}

#[test]
fn clock_going_backwards_degrades_to_zero_duration() {
    let cfg = MetricsConfig::default();
    let mut ctx = ExchangeContext::default();
    let _ = on_request_headers(&cfg, &mut ctx, 9_000_000, 0, "GET", "/x");
    let u = on_response_headers(&cfg, &ctx, "200", 1_000_000);
    assert_eq!(u.last().unwrap().value, 0);
}

#[test]
fn response_toggles_control_the_update_list() {
    let mut cfg = MetricsConfig::default();
    cfg.enable_response_metrics = false;
    let mut ctx = ExchangeContext::default();
    let _ = on_request_headers(&cfg, &mut ctx, 0, 0, "GET", "/x");
    let u = on_response_headers(&cfg, &ctx, "200", 0);
    assert_eq!(names(&u), vec!["marchproxy_request_duration_ms"]);
    cfg.enable_timing_metrics = false;
    assert!(on_response_headers(&cfg, &ctx, "200", 0).is_empty());
}

#[test]
fn body_chunks_add_up_to_the_size_summary() {
    let cfg = MetricsConfig::default();
    let mut ctx = ExchangeContext::default();
    let _ = on_request_headers(&cfg, &mut ctx, 0, 0, "POST", "/x");
    on_response_body(&cfg, &mut ctx, 100);
    on_response_body(&cfg, &mut ctx, 250);
    assert_eq!(ctx.response_size_bytes, 350);
    let u = on_exchange_end(&cfg, &ctx);
    assert_eq!(names(&u), vec!["marchproxy_response_size_bytes"]);
    assert_eq!(u[0].value, 350);
    assert_eq!(u[0].kind, MetricKind::Histogram);
}

#[test]
fn both_sizes_emit_when_both_are_positive() {
    let cfg = MetricsConfig::default();
    let mut ctx = ExchangeContext::default();
    let _ = on_request_headers(&cfg, &mut ctx, 0, 0, "POST", "/x");
    on_request_body(&cfg, &mut ctx, 10);
    on_request_body(&cfg, &mut ctx, 5);
    on_response_body(&cfg, &mut ctx, 7);
    assert_eq!(ctx.request_size_bytes, 15);
    let u = on_exchange_end(&cfg, &ctx);
    assert_eq!(
        names(&u),
        vec!["marchproxy_request_size_bytes", "marchproxy_response_size_bytes"]
    );
    assert_eq!(u[0].value, 15);
    assert_eq!(u[1].value, 7);
}

#[test]
fn zero_sizes_emit_nothing_at_exchange_end() {
    let cfg = MetricsConfig::default();
    let mut ctx = ExchangeContext::default();
    let _ = on_request_headers(&cfg, &mut ctx, 0, 0, "GET", "/x");
    assert!(on_exchange_end(&cfg, &ctx).is_empty());
}

#[test]
fn size_metrics_toggle_off_accumulates_nothing() {
    let mut cfg = MetricsConfig::default();
    cfg.enable_size_metrics = false;
    let mut ctx = ExchangeContext::default();
    let _ = on_request_headers(&cfg, &mut ctx, 0, 0, "POST", "/x");
    on_request_body(&cfg, &mut ctx, 10);
    assert_eq!(ctx.request_size_bytes, 0);
    assert!(on_exchange_end(&cfg, &ctx).is_empty());
}

#[test]
fn default_metrics_config_values() {
    let cfg = MetricsConfig::default();
    assert!(cfg.enable_request_metrics);
    assert!(cfg.enable_response_metrics);
    assert!(cfg.enable_timing_metrics);
    assert!(cfg.enable_size_metrics);
    assert_eq!(cfg.sample_rate_permille, 1000);
}
