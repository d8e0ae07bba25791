//! Metrics aggregator: per-exchange sampling, counter and histogram
//! updates derived from request and response events, and the end-of-
//! exchange size summary. The engine only computes name/value pairs; the
//! host owns persisting them.

use vstd::prelude::*;
use crate::text::{
    dec_str,
    lower_seq,
    lower_str,
    parse_u32,
    parse_u32_or_zero,
    sanitize_seq,
    sanitize_str,
    u32_to_dec,
};

verus! {

/// The metrics settings of one proxy instance, fixed at configuration time.
#[derive(Clone)]
pub struct MetricsConfig {
    pub enable_request_metrics: bool,
    pub enable_response_metrics: bool,
    pub enable_timing_metrics: bool,
    pub enable_size_metrics: bool,
    /// Sampling rate in thousandths of all exchanges; a value of 1000 or
    /// more samples every exchange.
    pub sample_rate_permille: u32,
}

/// Per-exchange state, created at the first request-header event and
/// discarded after the end-of-exchange event.
#[derive(Clone)]
pub struct ExchangeContext {
    pub start_time_ns: u64,
    pub request_size_bytes: u64,
    pub response_size_bytes: u64,
    /// Decided once at request-header time and reused for the whole
    /// exchange.
    pub sampled: bool,
}

/// Whether an update adds to a counter or records one histogram sample.
#[derive(Clone, Copy, Debug, PartialEq, Eq, Structural)]
pub enum MetricKind {
    Counter,
    Histogram,
}

/// One metric update handed to the host's metrics backend.
pub struct MetricUpdate {
    pub name: String,
    pub value: u64,
    pub kind: MetricKind,
}

/// The sampling rule: a rate of 1000 permille or more samples everything,
/// and below that the exchange is sampled when the millisecond clock value
/// modulo 1000 falls under the rate.
pub open spec fn spec_sampled(cfg: MetricsConfig, now_ms: u64) -> bool {
    cfg.sample_rate_permille >= 1000 || (now_ms % 1000) < cfg.sample_rate_permille as u64
}

/// Decides once, from the clock reading, whether this exchange is sampled.
pub fn sampling_decision(cfg: &MetricsConfig, now_ms: u64) -> (r: bool)
    ensures
        r == spec_sampled(*cfg, now_ms),
{
    cfg.sample_rate_permille >= 1000 || (now_ms % 1000) < cfg.sample_rate_permille as u64
}

/// The longest run of characters without a `/` at the start of `path`.
pub open spec fn first_run(path: Seq<char>) -> Seq<char>
    decreases path.len(),
{
    if path.len() == 0 || path[0] == '/' {
        Seq::empty()
    } else {
        seq![path[0]] + first_run(path.skip(1))
    }
}

/// The metric bucket of a request path: its first `/`-delimited segment,
/// kept to letters, digits, `-` and `_`; a path with no segment falls in
/// the `root` bucket.
pub open spec fn path_prefix_spec(path: Seq<char>) -> Seq<char>
    decreases path.len(),
{
    if path.len() == 0 {
        "root"@
    } else if path[0] == '/' {
        path_prefix_spec(path.skip(1))
    } else {
        sanitize_seq(first_run(path))
    }
}

proof fn lemma_first_run_is_subrange(path: Seq<char>, j: int)
    requires
        0 <= j <= path.len(),
        forall|k: int| 0 <= k < j ==> path[k] != '/',
        j == path.len() || path[j] == '/',
    ensures
        first_run(path) == path.subrange(0, j),
    decreases j,
{
    if j == 0 {
        assert(first_run(path) =~= path.subrange(0, 0));
    } else {
        assert(path[0] != '/');
        lemma_first_run_is_subrange(path.skip(1), j - 1);
        assert(first_run(path) == seq![path[0]] + path.skip(1).subrange(0, j - 1));
        assert(seq![path[0]] + path.skip(1).subrange(0, j - 1) =~= path.subrange(0, j));
    }
}

/// Computes the metric bucket of a request path.
pub fn path_prefix(path: &str) -> (r: String)
    ensures
        r@ == path_prefix_spec(path@),
{
    let n = path.unicode_len();
    let mut i: usize = 0;
    proof {
        assert(path@.skip(0) =~= path@);
    }
    while i < n && path.get_char(i) == '/'
        invariant
            0 <= i <= n,
            n == path@.len(),
            path_prefix_spec(path@.skip(i as int)) == path_prefix_spec(path@),
        decreases n - i,
    {
        proof {
            assert(path@.skip(i as int).len() > 0);
            assert(path@.skip(i as int)[0] == path@[i as int]);
            assert(path@.skip(i as int).skip(1) =~= path@.skip(i + 1));
        }
        i += 1;
    }
    if i == n {
        proof {
            assert(path@.skip(n as int).len() == 0);
        }
        return String::from_str("root");
    }
    let mut j: usize = i;
    while j < n && path.get_char(j) != '/'
        invariant
            i <= j <= n,
            n == path@.len(),
            forall|k: int| i <= k < j ==> path@[k] != '/',
        decreases n - j,
    {
        j += 1;
    }
    let seg = path.substring_char(i, j);
    proof {
        let tail = path@.skip(i as int);
        assert(tail.len() > 0);
        assert(tail[0] == path@[i as int]);
        assert(tail[0] != '/');
        lemma_first_run_is_subrange(tail, j - i);
        assert(tail.subrange(0, j - i) =~= path@.subrange(i as int, j as int));
        assert(path_prefix_spec(path@) == sanitize_seq(seg@));
    }
    sanitize_str(seg)
}

/// The three counter updates owed for a sampled request with request
/// metrics enabled.
pub open spec fn request_updates(method: Seq<char>, path: Seq<char>, u: Seq<MetricUpdate>) -> bool {
    u.len() == 3 && u[0].name@ == "marchproxy_requests_total"@ && u[0].value == 1 && u[0].kind
        is Counter && u[1].name@ == "marchproxy_requests_by_method_"@ + lower_seq(method)
        && u[1].value == 1 && u[1].kind is Counter && u[2].name@
        == "marchproxy_requests_by_path_"@ + path_prefix_spec(path) && u[2].value == 1 && u[2].kind
        is Counter
}

/// Handles the request-header event: captures the start time, decides the
/// sampling fate of the exchange, and computes the request counters.
pub fn on_request_headers(
    cfg: &MetricsConfig,
    ctx: &mut ExchangeContext,
    now_ns: u64,
    now_ms: u64,
    method: &str,
    path: &str,
) -> (u: Vec<MetricUpdate>)
    ensures
        final(ctx).start_time_ns == now_ns,
        final(ctx).sampled == spec_sampled(*cfg, now_ms),
        final(ctx).request_size_bytes == old(ctx).request_size_bytes,
        final(ctx).response_size_bytes == old(ctx).response_size_bytes,
        spec_sampled(*cfg, now_ms) && cfg.enable_request_metrics ==> request_updates(
            method@,
            path@,
            u@,
        ),
        !(spec_sampled(*cfg, now_ms) && cfg.enable_request_metrics) ==> u@.len() == 0,
{
    ctx.start_time_ns = now_ns;
    ctx.sampled = sampling_decision(cfg, now_ms);
    let mut u: Vec<MetricUpdate> = Vec::new();
    if ctx.sampled && cfg.enable_request_metrics {
        u.push(
            MetricUpdate {
                name: String::from_str("marchproxy_requests_total"),
                value: 1,
                kind: MetricKind::Counter,
            },
        );
        let method_name = String::from_str("marchproxy_requests_by_method_").concat(
            lower_str(method).as_str(),
        );
        u.push(MetricUpdate { name: method_name, value: 1, kind: MetricKind::Counter });
        let path_name = String::from_str("marchproxy_requests_by_path_").concat(
            path_prefix(path).as_str(),
        );
        u.push(MetricUpdate { name: path_name, value: 1, kind: MetricKind::Counter });
    }
    u
}

/// The accumulated size after one more body chunk, capped at the top of
/// the counter's range.
pub open spec fn accumulated(sofar: u64, chunk: usize) -> u64 {
    if sofar + chunk <= u64::MAX {
        (sofar + chunk) as u64
    } else {
        u64::MAX
    }
}

/// Handles one request-body chunk: chunk sizes add up over the exchange.
pub fn on_request_body(cfg: &MetricsConfig, ctx: &mut ExchangeContext, body_size: usize)
    ensures
        final(ctx).request_size_bytes == if old(ctx).sampled && cfg.enable_size_metrics {
            accumulated(old(ctx).request_size_bytes, body_size)
        } else {
            old(ctx).request_size_bytes
        },
        final(ctx).start_time_ns == old(ctx).start_time_ns,
        final(ctx).response_size_bytes == old(ctx).response_size_bytes,
        final(ctx).sampled == old(ctx).sampled,
{
    if ctx.sampled && cfg.enable_size_metrics {
        ctx.request_size_bytes = ctx.request_size_bytes.saturating_add(body_size as u64);
    }
}

/// Handles one response-body chunk: chunk sizes add up over the exchange.
pub fn on_response_body(cfg: &MetricsConfig, ctx: &mut ExchangeContext, body_size: usize)
    ensures
        final(ctx).response_size_bytes == if old(ctx).sampled && cfg.enable_size_metrics {
            accumulated(old(ctx).response_size_bytes, body_size)
        } else {
            old(ctx).response_size_bytes
        },
        final(ctx).start_time_ns == old(ctx).start_time_ns,
        final(ctx).request_size_bytes == old(ctx).request_size_bytes,
        final(ctx).sampled == old(ctx).sampled,
{
    if ctx.sampled && cfg.enable_size_metrics {
        ctx.response_size_bytes = ctx.response_size_bytes.saturating_add(body_size as u64);
    }
}

/// The exchange duration in whole milliseconds; a clock that went
/// backwards degrades to zero rather than failing the exchange.
pub open spec fn duration_ms(start_ns: u64, now_ns: u64) -> u64 {
    ((if now_ns >= start_ns {
        now_ns - start_ns
    } else {
        0
    }) / 1_000_000) as u64
}

/// The three counter updates owed for a sampled response with response
/// metrics enabled; the status string is read as a decimal code, with
/// anything unreadable counted as code zero.
pub open spec fn status_updates(status: Seq<char>, u: Seq<MetricUpdate>) -> bool {
    let code = parse_u32_or_zero(status);
    u.len() == 3 && u[0].name@ == "marchproxy_responses_total"@ && u[0].value == 1 && u[0].kind
        is Counter && u[1].name@ == "marchproxy_responses_by_status_"@ + dec_str(code as nat)
        && u[1].value == 1 && u[1].kind is Counter && u[2].name@
        == "marchproxy_responses_by_class_"@ + dec_str((code / 100) as nat) + "xx"@ && u[2].value
        == 1 && u[2].kind is Counter
}

/// The histogram sample owed for a sampled response with timing metrics
/// enabled.
pub open spec fn timing_update(start_ns: u64, now_ns: u64, m: MetricUpdate) -> bool {
    m.name@ == "marchproxy_request_duration_ms"@ && m.value == duration_ms(start_ns, now_ns)
        && m.kind is Histogram
}

/// Handles the response-header event: status counters and the duration
/// sample, for a sampled exchange.
pub fn on_response_headers(
    cfg: &MetricsConfig,
    ctx: &ExchangeContext,
    status: &str,
    now_ns: u64,
) -> (u: Vec<MetricUpdate>)
    ensures
        u@.len() == (if ctx.sampled && cfg.enable_response_metrics {
            3int
        } else {
            0int
        }) + (if ctx.sampled && cfg.enable_timing_metrics {
            1int
        } else {
            0int
        }),
        ctx.sampled && cfg.enable_response_metrics ==> status_updates(
            status@,
            u@.subrange(0, 3),
        ),
        ctx.sampled && cfg.enable_timing_metrics ==> timing_update(
            ctx.start_time_ns,
            now_ns,
            u@.last(),
        ),
{
    let mut u: Vec<MetricUpdate> = Vec::new();
    if !ctx.sampled {
        return u;
    }
    if cfg.enable_response_metrics {
        let code = parse_u32(status);
        u.push(
            MetricUpdate {
                name: String::from_str("marchproxy_responses_total"),
                value: 1,
                kind: MetricKind::Counter,
            },
        );
        let status_name = String::from_str("marchproxy_responses_by_status_").concat(
            u32_to_dec(code).as_str(),
        );
        u.push(MetricUpdate { name: status_name, value: 1, kind: MetricKind::Counter });
        let class_name = String::from_str("marchproxy_responses_by_class_").concat(
            u32_to_dec(code / 100).as_str(),
        ).concat("xx");
        u.push(MetricUpdate { name: class_name, value: 1, kind: MetricKind::Counter });
        proof {
            assert(u@.subrange(0, 3) =~= u@);
        }
    }
    if cfg.enable_timing_metrics {
        let elapsed = now_ns.saturating_sub(ctx.start_time_ns);
        u.push(
            MetricUpdate {
                name: String::from_str("marchproxy_request_duration_ms"),
                value: elapsed / 1_000_000,
                kind: MetricKind::Histogram,
            },
        );
    }
    u
}

/// Handles the end-of-exchange event: emits each accumulated size that is
/// greater than zero, for a sampled exchange with size metrics enabled.
pub fn on_exchange_end(cfg: &MetricsConfig, ctx: &ExchangeContext) -> (u: Vec<MetricUpdate>)
    ensures
        u@.len() == if ctx.sampled && cfg.enable_size_metrics {
            (if ctx.request_size_bytes > 0 {
                1int
            } else {
                0int
            }) + (if ctx.response_size_bytes > 0 {
                1int
            } else {
                0int
            })
        } else {
            0int
        },
        ctx.sampled && cfg.enable_size_metrics && ctx.request_size_bytes > 0 ==> u@[0].name@
            == "marchproxy_request_size_bytes"@ && u@[0].value == ctx.request_size_bytes
            && u@[0].kind is Histogram,
        ctx.sampled && cfg.enable_size_metrics && ctx.response_size_bytes > 0 ==> u@.last().name@
            == "marchproxy_response_size_bytes"@ && u@.last().value == ctx.response_size_bytes
            && u@.last().kind is Histogram,
{
    let mut u: Vec<MetricUpdate> = Vec::new();
    if ctx.sampled && cfg.enable_size_metrics {
        if ctx.request_size_bytes > 0 {
            u.push(
                MetricUpdate {
                    name: String::from_str("marchproxy_request_size_bytes"),
                    value: ctx.request_size_bytes,
                    kind: MetricKind::Histogram,
                },
            );
        }
        if ctx.response_size_bytes > 0 {
            u.push(
                MetricUpdate {
                    name: String::from_str("marchproxy_response_size_bytes"),
                    value: ctx.response_size_bytes,
                    kind: MetricKind::Histogram,
                },
            );
        }
    }
    u
}

/// Law: with the sampling rate at its full value, every exchange is
/// sampled, whatever the clock reads.
pub proof fn lemma_full_rate_always_sampled(cfg: MetricsConfig, now_ms: u64)
    requires
        cfg.sample_rate_permille >= 1000,
    ensures
        spec_sampled(cfg, now_ms),
{
}

/// Law: with the sampling rate at zero, no exchange is ever sampled,
/// whatever the clock reads.
pub proof fn lemma_zero_rate_never_sampled(cfg: MetricsConfig, now_ms: u64)
    requires
        cfg.sample_rate_permille == 0,
    ensures
        !spec_sampled(cfg, now_ms),
{
}

impl Default for MetricsConfig {
    /// The defaults: every metric family enabled, every exchange sampled.
    fn default() -> (d: Self)
        ensures
            d.enable_request_metrics,
            d.enable_response_metrics,
            d.enable_timing_metrics,
            d.enable_size_metrics,
            d.sample_rate_permille == 1000,
    {
        MetricsConfig {
            enable_request_metrics: true,
            enable_response_metrics: true,
            enable_timing_metrics: true,
            enable_size_metrics: true,
            sample_rate_permille: 1000,
        }
    }
}

impl Default for ExchangeContext {
    /// A fresh exchange: nothing timed, nothing accumulated, not sampled
    /// until the request-header event decides.
    fn default() -> (d: Self)
        ensures
            d.start_time_ns == 0,
            d.request_size_bytes == 0,
            d.response_size_bytes == 0,
            !d.sampled,
    {
        ExchangeContext {
            start_time_ns: 0,
            request_size_bytes: 0,
            response_size_bytes: 0,
            sampled: false,
        }
    }
}

} // verus!
