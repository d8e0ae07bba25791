//! License and feature-gating engine: maps request paths to the enterprise
//! feature they need, rejects exchanges whose license lacks that feature or
//! whose proxy count is over quota, and annotates the ones it lets through.

use vstd::prelude::*;
use crate::text::{dec_str, starts_with, str_eq, u32_to_dec};

verus! {

/// The license settings of one proxy instance, fixed at configuration time.
#[derive(Clone)]
pub struct LicenseConfig {
    pub license_key: String,
    pub is_enterprise: bool,
    /// Feature flags as a key/value list with unique keys; a key that is
    /// absent counts as a disabled feature.
    pub features: Vec<(String, bool)>,
    pub max_proxies: u32,
    pub current_proxies: u32,
}

impl LicenseConfig {
    /// The feature list never holds the same key twice.
    pub open spec fn wf(&self) -> bool {
        forall|i: int, j: int|
            0 <= i < j < self.features@.len() ==> self.features@[i].0@ != self.features@[j].0@
    }
}

/// True when the feature named `f` is present and switched on; an absent
/// key means the feature is off, never an error.
pub open spec fn feature_enabled(cfg: LicenseConfig, f: Seq<char>) -> bool {
    exists|i: int| 0 <= i < cfg.features@.len() && cfg.features@[i].0@ == f && cfg.features@[i].1
}

/// Looks the feature named `f` up in the configured flags.
pub fn is_feature_enabled(cfg: &LicenseConfig, f: &str) -> (r: bool)
    requires
        cfg.wf(),
    ensures
        r == feature_enabled(*cfg, f@),
{
    let n = cfg.features.len();
    let mut i: usize = 0;
    while i < n
        invariant
            0 <= i <= n,
            n == cfg.features@.len(),
            cfg.wf(),
            forall|k: int| 0 <= k < i ==> cfg.features@[k].0@ != f@,
        decreases n - i,
    {
        if str_eq(cfg.features[i].0.as_str(), f) {
            return cfg.features[i].1;
        }
        i += 1;
    }
    false
}

/// The enterprise feature that a request path needs, if any: the first
/// matching path prefix decides, and an unmatched path needs none.
pub open spec fn required_feature_spec(path: Seq<char>) -> Option<Seq<char>> {
    if "/api/v1/traffic-shaping"@.is_prefix_of(path) {
        Some("advanced_routing"@)
    } else if "/api/v1/multi-cloud"@.is_prefix_of(path) {
        Some("multi_cloud"@)
    } else if "/api/v1/tracing"@.is_prefix_of(path) {
        Some("distributed_tracing"@)
    } else if "/api/v1/zero-trust"@.is_prefix_of(path) {
        Some("zero_trust"@)
    } else if "/api/v1/advanced-rate-limit"@.is_prefix_of(path) {
        Some("rate_limiting"@)
    } else {
        None
    }
}

/// Maps a request path to the enterprise feature it needs, if any.
pub fn required_feature(path: &str) -> (r: Option<String>)
    ensures
        match required_feature_spec(path@) {
            Some(f) => r matches Some(s) && s@ == f,
            None => r is None,
        },
{
    if starts_with(path, "/api/v1/traffic-shaping") {
        Some(String::from_str("advanced_routing"))
    } else if starts_with(path, "/api/v1/multi-cloud") {
        Some(String::from_str("multi_cloud"))
    } else if starts_with(path, "/api/v1/tracing") {
        Some(String::from_str("distributed_tracing"))
    } else if starts_with(path, "/api/v1/zero-trust") {
        Some(String::from_str("zero_trust"))
    } else if starts_with(path, "/api/v1/advanced-rate-limit") {
        Some(String::from_str("rate_limiting"))
    } else {
        None
    }
}

/// What the engine decides for one request.
pub enum LicenseDecision {
    /// Let the request through, adding these request headers.
    Continue { request_headers: Vec<(String, String)> },
    /// Stop the request with this synthesized response.
    Reject { status: u16, headers: Vec<(String, String)>, body: String },
}

/// The abstract outcome of the license check for one request.
pub enum LicenseOutcome {
    Allow,
    FeatureDenied,
    QuotaExceeded,
}

/// The outcome the engine owes for a request path under a configuration:
/// a gated path whose feature is off is denied; otherwise a proxy count
/// strictly over the limit is rejected; otherwise the request is allowed.
pub open spec fn license_outcome(cfg: LicenseConfig, path: Seq<char>) -> LicenseOutcome {
    if required_feature_spec(path) is Some && !feature_enabled(
        cfg,
        required_feature_spec(path).unwrap(),
    ) {
        LicenseOutcome::FeatureDenied
    } else if cfg.current_proxies > cfg.max_proxies {
        LicenseOutcome::QuotaExceeded
    } else {
        LicenseOutcome::Allow
    }
}

/// The edition label used in annotation headers.
pub open spec fn edition_str(is_enterprise: bool) -> Seq<char> {
    if is_enterprise {
        "enterprise"@
    } else {
        "community"@
    }
}

/// The response body sent when a gated path's feature is off.
pub open spec fn feature_denied_body(f: Seq<char>) -> Seq<char> {
    "{\"error\":\"Enterprise license required for feature: "@ + f
        + "\",\"upgrade_url\":\"https://marchproxy.penguintech.io/pricing\"}"@
}

/// The response body sent when the proxy count is over the limit.
pub open spec fn quota_body(current: u32, max: u32) -> Seq<char> {
    "{\"error\":\"Proxy count limit exceeded\",\"current\":"@ + dec_str(current as nat)
        + ",\"limit\":"@ + dec_str(max as nat)
        + ",\"upgrade_url\":\"https://marchproxy.penguintech.io/pricing\"}"@
}

/// Ties a concrete decision to the outcome the engine owes: the exact
/// status, headers and body of each rejection, and the exact annotation
/// headers of an allowed request.
pub open spec fn license_decision_renders(
    d: LicenseDecision,
    cfg: LicenseConfig,
    path: Seq<char>,
) -> bool {
    match license_outcome(cfg, path) {
        LicenseOutcome::Allow => d matches LicenseDecision::Continue { request_headers }
            && request_headers@.len() == 2 && request_headers@[0].0@ == "x-license-edition"@
            && request_headers@[0].1@ == edition_str(cfg.is_enterprise)
            && request_headers@[1].0@ == "x-license-key"@
            && request_headers@[1].1@ == cfg.license_key@,
        LicenseOutcome::FeatureDenied => d matches LicenseDecision::Reject { status, headers, body }
            && status == 402 && headers@.len() == 2 && headers@[0].0@ == "content-type"@
            && headers@[0].1@ == "application/json"@ && headers@[1].0@ == "x-license-required"@
            && headers@[1].1@ == "enterprise"@ && body@ == feature_denied_body(
            required_feature_spec(path).unwrap(),
        ),
        LicenseOutcome::QuotaExceeded => d matches LicenseDecision::Reject { status, headers, body }
            && status == 429 && headers@.len() == 2 && headers@[0].0@ == "content-type"@
            && headers@[0].1@ == "application/json"@ && headers@[1].0@
            == "x-license-limit-exceeded"@ && headers@[1].1@ == "true"@ && body@ == quota_body(
            cfg.current_proxies,
            cfg.max_proxies,
        ),
    }
}

fn edition_value(is_enterprise: bool) -> (r: String)
    ensures
        r@ == edition_str(is_enterprise),
{
    if is_enterprise {
        String::from_str("enterprise")
    } else {
        String::from_str("community")
    }
}

/// Decides one request: feature gate first, then the proxy quota, then
/// Continue with the license annotation headers.
pub fn decide(cfg: &LicenseConfig, path: &str) -> (d: LicenseDecision)
    requires
        cfg.wf(),
    ensures
        license_decision_renders(d, *cfg, path@),
        d is Continue <==> license_outcome(*cfg, path@) is Allow,
{
    if let Some(feature) = required_feature(path) {
        if !is_feature_enabled(cfg, feature.as_str()) {
            let mut headers: Vec<(String, String)> = Vec::new();
            headers.push((String::from_str("content-type"), String::from_str("application/json")));
            headers.push((String::from_str("x-license-required"), String::from_str("enterprise")));
            let body = String::from_str("{\"error\":\"Enterprise license required for feature: ")
                .concat(feature.as_str()).concat(
                "\",\"upgrade_url\":\"https://marchproxy.penguintech.io/pricing\"}",
            );
            assert(body@ =~= feature_denied_body(required_feature_spec(path@).unwrap()));
            return LicenseDecision::Reject { status: 402, headers, body };
        }
    }
    if cfg.current_proxies > cfg.max_proxies {
        let mut headers: Vec<(String, String)> = Vec::new();
        headers.push((String::from_str("content-type"), String::from_str("application/json")));
        headers.push((String::from_str("x-license-limit-exceeded"), String::from_str("true")));
        let body = String::from_str("{\"error\":\"Proxy count limit exceeded\",\"current\":")
            .concat(u32_to_dec(cfg.current_proxies).as_str()).concat(",\"limit\":").concat(
            u32_to_dec(cfg.max_proxies).as_str(),
        ).concat(",\"upgrade_url\":\"https://marchproxy.penguintech.io/pricing\"}");
        assert(body@ =~= quota_body(cfg.current_proxies, cfg.max_proxies));
        return LicenseDecision::Reject { status: 429, headers, body };
    }
    let mut request_headers: Vec<(String, String)> = Vec::new();
    request_headers.push(
        (String::from_str("x-license-edition"), edition_value(cfg.is_enterprise)),
    );
    request_headers.push((String::from_str("x-license-key"), cfg.license_key.clone()));
    LicenseDecision::Continue { request_headers }
}

/// The header added to every response that reaches the response phase,
/// independent of the request-side decision.
pub fn response_annotation(cfg: &LicenseConfig) -> (h: (String, String))
    ensures
        h.0@ == "x-marchproxy-edition"@,
        h.1@ == edition_str(cfg.is_enterprise),
{
    (String::from_str("x-marchproxy-edition"), edition_value(cfg.is_enterprise))
}

/// Law: a path gated behind a feature that the license leaves off is
/// denied, whatever the quota counters say.
pub proof fn lemma_gated_feature_disabled(cfg: LicenseConfig, path: Seq<char>)
    requires
        required_feature_spec(path) is Some,
        !feature_enabled(cfg, required_feature_spec(path).unwrap()),
    ensures
        license_outcome(cfg, path) is FeatureDenied,
{
}

/// Law: the proxy-count limit is exclusive. A count equal to the limit
/// still passes; only a count strictly over it is rejected.
pub proof fn lemma_quota_boundary(cfg: LicenseConfig, path: Seq<char>)
    requires
        required_feature_spec(path) is Some ==> feature_enabled(
            cfg,
            required_feature_spec(path).unwrap(),
        ),
    ensures
        cfg.current_proxies == cfg.max_proxies ==> license_outcome(cfg, path) is Allow,
        cfg.current_proxies > cfg.max_proxies ==> license_outcome(cfg, path) is QuotaExceeded,
{
}

impl Default for LicenseConfig {
    /// The community defaults: every enterprise feature off, three proxies
    /// allowed, none in use.
    fn default() -> (d: Self)
        ensures
            d.wf(),
            d.license_key@ == "COMMUNITY"@,
            !d.is_enterprise,
            d.max_proxies == 3,
            d.current_proxies == 0,
            d.features@.len() == 6,
            feature_enabled(d, "basic_proxy"@),
            !feature_enabled(d, "rate_limiting"@),
            !feature_enabled(d, "advanced_routing"@),
            !feature_enabled(d, "multi_cloud"@),
            !feature_enabled(d, "distributed_tracing"@),
            !feature_enabled(d, "zero_trust"@),
    {
        let mut features: Vec<(String, bool)> = Vec::new();
        features.push((String::from_str("basic_proxy"), true));
        features.push((String::from_str("rate_limiting"), false));
        features.push((String::from_str("advanced_routing"), false));
        features.push((String::from_str("multi_cloud"), false));
        features.push((String::from_str("distributed_tracing"), false));
        features.push((String::from_str("zero_trust"), false));
        proof {
            reveal_strlit("basic_proxy");
            reveal_strlit("rate_limiting");
            reveal_strlit("advanced_routing");
            reveal_strlit("multi_cloud");
            reveal_strlit("distributed_tracing");
            reveal_strlit("zero_trust");
        }
        let d = LicenseConfig {
            license_key: String::from_str("COMMUNITY"),
            is_enterprise: false,
            features,
            max_proxies: 3,
            current_proxies: 0,
        };
        proof {
            assert(d.features@.len() == 6);
            assert(d.features@[0].0@ == "basic_proxy"@ && d.features@[0].1);
            assert(d.features@[1].0@ == "rate_limiting"@ && !d.features@[1].1);
            assert(d.features@[2].0@ == "advanced_routing"@ && !d.features@[2].1);
            assert(d.features@[3].0@ == "multi_cloud"@ && !d.features@[3].1);
            assert(d.features@[4].0@ == "distributed_tracing"@ && !d.features@[4].1);
            assert(d.features@[5].0@ == "zero_trust"@ && !d.features@[5].1);
            assert(d.wf()) by {
                assert(forall|i: int, j: int|
                    0 <= i < j < 6 ==> d.features@[i].0@.len() != d.features@[j].0@.len()
                        || d.features@[i].0@[0] != d.features@[j].0@[0]
                        || d.features@[i].0@[8] != d.features@[j].0@[8]);
            }
        }
        d
    }
}

} // verus!
