//! Authentication engine: exempt-path bypass, `Bearer` header parsing,
//! JWT validation through the configured HMAC secret, and the base64
//! allow-list fallback. Fails closed: an exchange that matches nothing is
//! rejected.

use vstd::prelude::*;
use crate::text::{starts_with, str_eq};

verus! {

/// The HMAC algorithm a JWT signature is checked with.
#[derive(Clone, Copy, Debug)]
pub enum JwtAlgorithm {
    HS256,
    HS384,
    HS512,
}

/// The authentication settings of one proxy instance, fixed at
/// configuration time.
#[derive(Clone)]
pub struct AuthConfig {
    /// HMAC secret for JWT validation; when empty, JWT validation is never
    /// attempted and only the base64 allow-list can admit a token.
    pub jwt_secret: String,
    pub jwt_algorithm: JwtAlgorithm,
    pub require_auth: bool,
    /// Allow-listed opaque tokens, compared literally and by base64 value.
    pub base64_tokens: Vec<String>,
    /// Path prefixes that bypass authentication altogether.
    pub exempt_paths: Vec<String>,
}

/// True when the request path starts with one of the exempt prefixes.
pub open spec fn path_is_exempt(cfg: AuthConfig, path: Seq<char>) -> bool {
    exists|i: int| 0 <= i < cfg.exempt_paths@.len() && cfg.exempt_paths@[i]@.is_prefix_of(path)
}

/// What base64 decoding of a character string yields, or `None` where the
/// string is not valid base64.
pub uninterp spec fn b64_decode(s: Seq<char>) -> Option<Seq<u8>>;

/// Relies on base64::decode (standard alphabet, padding accepted but not
/// required): the result is a pure function of the input characters.
#[verifier::external_body]
fn b64_decode_exec(s: &str) -> (r: Option<Vec<u8>>)
    ensures
        r is Some <==> b64_decode(s@) is Some,
        r matches Some(v) ==> b64_decode(s@) == Some(v@),
{
    match base64::decode(s) {
        Ok(v) => Some(v),
        Err(_) => None,
    }
}

/// Relies on jsonwebtoken::decode with the defaults of Validation::new: the
/// token's HMAC signature is checked against the secret, and the mandatory
/// `exp` claim against the wall clock with a 60-second leeway. The outcome
/// depends on the clock, so nothing is promised of it.
#[verifier::external_body]
fn jwt_accepts(secret: &str, algorithm: &JwtAlgorithm, token: &str) -> bool {
    let alg = match algorithm {
        JwtAlgorithm::HS256 => jsonwebtoken::Algorithm::HS256,
        JwtAlgorithm::HS384 => jsonwebtoken::Algorithm::HS384,
        JwtAlgorithm::HS512 => jsonwebtoken::Algorithm::HS512,
    };
    let validation = jsonwebtoken::Validation::new(alg);
    let key = jsonwebtoken::DecodingKey::from_secret(secret.as_bytes());
    jsonwebtoken::decode::<serde_json::Value>(token, &key, &validation).is_ok()
}

/// True when the allow-list admits `token`: it equals an entry literally,
/// or it decodes from base64 to the same bytes as some entry. A string
/// that fails to decode is skipped, never an error.
pub open spec fn base64_token_matches(cfg: AuthConfig, token: Seq<char>) -> bool {
    ||| exists|i: int| 0 <= i < cfg.base64_tokens@.len() && cfg.base64_tokens@[i]@ == token
    ||| (b64_decode(token) is Some && exists|i: int|
        0 <= i < cfg.base64_tokens@.len() && b64_decode(cfg.base64_tokens@[i]@) == b64_decode(
            token,
        ))
}

fn vec_u8_eq(a: &Vec<u8>, b: &Vec<u8>) -> (r: bool)
    ensures
        r == (a@ == b@),
{
    let n = a.len();
    if n != b.len() {
        return false;
    }
    let mut i: usize = 0;
    while i < n
        invariant
            0 <= i <= n,
            n == a@.len(),
            n == b@.len(),
            forall|k: int| 0 <= k < i ==> a@[k] == b@[k],
        decreases n - i,
    {
        if a[i] != b[i] {
            return false;
        }
        i += 1;
    }
    assert(a@ =~= b@);
    true
}

/// Checks `token` against the base64 allow-list.
pub fn validate_base64(cfg: &AuthConfig, token: &str) -> (r: bool)
    ensures
        r == base64_token_matches(*cfg, token@),
{
    let n = cfg.base64_tokens.len();
    let mut i: usize = 0;
    while i < n
        invariant
            0 <= i <= n,
            n == cfg.base64_tokens@.len(),
            forall|k: int| 0 <= k < i ==> cfg.base64_tokens@[k]@ != token@,
        decreases n - i,
    {
        if str_eq(cfg.base64_tokens[i].as_str(), token) {
            return true;
        }
        i += 1;
    }
    if let Some(decoded) = b64_decode_exec(token) {
        let mut j: usize = 0;
        while j < n
            invariant
                0 <= j <= n,
                n == cfg.base64_tokens@.len(),
                b64_decode(token@) == Some(decoded@),
                forall|k: int|
                    0 <= k < j ==> b64_decode(cfg.base64_tokens@[k]@) != b64_decode(token@),
                forall|k: int| 0 <= k < n ==> cfg.base64_tokens@[k]@ != token@,
            decreases n - j,
        {
            if let Some(valid_decoded) = b64_decode_exec(cfg.base64_tokens[j].as_str()) {
                if vec_u8_eq(&decoded, &valid_decoded) {
                    assert(b64_decode(cfg.base64_tokens@[j as int]@) == b64_decode(token@));
                    return true;
                }
            }
            j += 1;
        }
    }
    false
}

/// What the engine decides for one request.
pub enum AuthDecision {
    /// Let the request through unchanged.
    Continue,
    /// Stop the request with this synthesized response; its content type is
    /// always `application/json`.
    Reject { status: u16, body: String },
}

/// The abstract outcome of the authentication check for one request.
pub enum AuthOutcome {
    Allow,
    MissingHeader,
    BadFormat,
    BadToken,
}

/// True when the header value has the exact, case-sensitive `Bearer ` shape.
pub open spec fn bearer_format(a: Seq<char>) -> bool {
    "Bearer "@.is_prefix_of(a)
}

/// The credential after the seven-character `Bearer ` prefix.
pub open spec fn bearer_token(a: Seq<char>) -> Seq<char> {
    a.skip(7)
}

/// The view of an optional header value.
pub open spec fn view_opt(a: Option<&str>) -> Option<Seq<char>> {
    match a {
        Some(s) => Some(s@),
        None => None,
    }
}

/// The outcome the engine owes, given whether JWT validation accepted the
/// bearer token (`jwt_ok` is only consulted when the secret is non-empty,
/// since an empty secret never attempts JWT validation): exempt paths and
/// disabled enforcement always pass; then a missing or misshapen header is
/// refused; then either a JWT acceptance or an allow-list match admits the
/// token, and everything else is refused.
pub open spec fn auth_outcome(
    cfg: AuthConfig,
    path: Seq<char>,
    auth: Option<Seq<char>>,
    jwt_ok: bool,
) -> AuthOutcome {
    if path_is_exempt(cfg, path) {
        AuthOutcome::Allow
    } else if !cfg.require_auth {
        AuthOutcome::Allow
    } else {
        match auth {
            None => AuthOutcome::MissingHeader,
            Some(a) => if !bearer_format(a) {
                AuthOutcome::BadFormat
            } else if (cfg.jwt_secret@.len() > 0 && jwt_ok) || base64_token_matches(
                cfg,
                bearer_token(a),
            ) {
                AuthOutcome::Allow
            } else {
                AuthOutcome::BadToken
            },
        }
    }
}

/// Ties a concrete decision to an outcome: the exact status and body of
/// each rejection.
pub open spec fn auth_decision_renders(d: AuthDecision, o: AuthOutcome) -> bool {
    match o {
        AuthOutcome::Allow => d is Continue,
        AuthOutcome::MissingHeader => d matches AuthDecision::Reject { status, body } && status
            == 401 && body@ == "{\"error\":\"Missing Authorization header\"}"@,
        AuthOutcome::BadFormat => d matches AuthDecision::Reject { status, body } && status == 401
            && body@ == "{\"error\":\"Invalid Authorization header format. Use: Bearer <token>\"}"@,
        AuthOutcome::BadToken => d matches AuthDecision::Reject { status, body } && status == 403
            && body@ == "{\"error\":\"Invalid authentication token\"}"@,
    }
}

/// Decides one request, with the JWT verdict for its bearer token supplied
/// by the caller; every path through the decision is pinned down exactly.
pub fn decide_with_jwt(
    cfg: &AuthConfig,
    path: &str,
    authorization: Option<&str>,
    jwt_ok: bool,
) -> (d: AuthDecision)
    ensures
        auth_decision_renders(d, auth_outcome(*cfg, path@, view_opt(authorization), jwt_ok)),
        d is Continue <==> auth_outcome(*cfg, path@, view_opt(authorization), jwt_ok) is Allow,
{
    let n = cfg.exempt_paths.len();
    let mut i: usize = 0;
    while i < n
        invariant
            0 <= i <= n,
            n == cfg.exempt_paths@.len(),
            forall|k: int| 0 <= k < i ==> !cfg.exempt_paths@[k]@.is_prefix_of(path@),
        decreases n - i,
    {
        if starts_with(path, cfg.exempt_paths[i].as_str()) {
            return AuthDecision::Continue;
        }
        i += 1;
    }
    if !cfg.require_auth {
        return AuthDecision::Continue;
    }
    match authorization {
        None => AuthDecision::Reject {
            status: 401,
            body: String::from_str("{\"error\":\"Missing Authorization header\"}"),
        },
        Some(a) => {
            proof {
                reveal_strlit("Bearer ");
            }
            if !starts_with(a, "Bearer ") {
                return AuthDecision::Reject {
                    status: 401,
                    body: String::from_str(
                        "{\"error\":\"Invalid Authorization header format. Use: Bearer <token>\"}",
                    ),
                };
            }
            let an = a.unicode_len();
            let token = a.substring_char(7, an);
            assert(token@ =~= bearer_token(a@));
            if cfg.jwt_secret.as_str().unicode_len() > 0 && jwt_ok {
                return AuthDecision::Continue;
            }
            if validate_base64(cfg, token) {
                return AuthDecision::Continue;
            }
            AuthDecision::Reject {
                status: 403,
                body: String::from_str("{\"error\":\"Invalid authentication token\"}"),
            }
        },
    }
}

/// Decides one request: runs JWT validation on the bearer token where a
/// non-empty secret is configured, and hands its verdict to the exact
/// decision logic. The JWT verdict depends on the wall clock, so the
/// contract states what holds whichever way it went.
pub fn decide(cfg: &AuthConfig, path: &str, authorization: Option<&str>) -> (d: AuthDecision)
    ensures
        exists|b: bool|
            auth_decision_renders(d, auth_outcome(*cfg, path@, view_opt(authorization), b)),
        path_is_exempt(*cfg, path@) ==> d is Continue,
        !cfg.require_auth ==> d is Continue,
        !path_is_exempt(*cfg, path@) && cfg.require_auth && authorization is None
            ==> auth_decision_renders(d, AuthOutcome::MissingHeader),
        !path_is_exempt(*cfg, path@) && cfg.require_auth && (authorization matches Some(a)
            && !bearer_format(a@)) ==> auth_decision_renders(d, AuthOutcome::BadFormat),
        authorization matches Some(a) && bearer_format(a@) && base64_token_matches(
            *cfg,
            bearer_token(a@),
        ) ==> d is Continue,
        !path_is_exempt(*cfg, path@) && cfg.require_auth && (authorization matches Some(a)
            && bearer_format(a@) && cfg.jwt_secret@.len() == 0 && !base64_token_matches(
            *cfg,
            bearer_token(a@),
        )) ==> auth_decision_renders(d, AuthOutcome::BadToken),
        d is Reject ==> !path_is_exempt(*cfg, path@) && cfg.require_auth,
{
    proof {
        reveal_strlit("Bearer ");
    }
    let jwt_ok: bool = match authorization {
        Some(a) => {
            if starts_with(a, "Bearer ") && cfg.jwt_secret.as_str().unicode_len() > 0 {
                let an = a.unicode_len();
                let token = a.substring_char(7, an);
                jwt_accepts(cfg.jwt_secret.as_str(), &cfg.jwt_algorithm, token)
            } else {
                false
            }
        },
        None => false,
    };
    let d = decide_with_jwt(cfg, path, authorization, jwt_ok);
    proof {
        assert(auth_decision_renders(
            d,
            auth_outcome(*cfg, path@, view_opt(authorization), jwt_ok),
        ));
    }
    d
}

/// Law: a request whose path carries an exempt prefix is allowed whatever
/// its headers hold and whatever JWT validation would say.
pub proof fn lemma_exempt_path_allows(
    cfg: AuthConfig,
    path: Seq<char>,
    auth: Option<Seq<char>>,
    jwt_ok: bool,
)
    requires
        path_is_exempt(cfg, path),
    ensures
        auth_outcome(cfg, path, auth, jwt_ok) is Allow,
{
}

/// Law: a bearer token that the base64 allow-list admits is allowed even
/// where JWT validation refused it.
pub proof fn lemma_allowlisted_token_allows(
    cfg: AuthConfig,
    path: Seq<char>,
    a: Seq<char>,
    jwt_ok: bool,
)
    requires
        bearer_format(a),
        base64_token_matches(cfg, bearer_token(a)),
    ensures
        auth_outcome(cfg, path, Some(a), jwt_ok) is Allow,
{
}

/// Law: where authentication is enforced on a non-exempt path, a missing
/// `authorization` header is the one outcome that yields the missing-header
/// rejection, and conversely.
pub proof fn lemma_missing_header(cfg: AuthConfig, path: Seq<char>, jwt_ok: bool)
    requires
        !path_is_exempt(cfg, path),
        cfg.require_auth,
    ensures
        auth_outcome(cfg, path, None, jwt_ok) is MissingHeader,
        forall|a: Seq<char>| !(auth_outcome(cfg, path, Some(a), jwt_ok) is MissingHeader),
{
}

impl Default for AuthConfig {
    /// The defaults: authentication enforced, no secret, no allow-list,
    /// and the health, metrics and readiness paths exempt.
    fn default() -> (d: Self)
        ensures
            d.jwt_secret@.len() == 0,
            d.jwt_algorithm is HS256,
            d.require_auth,
            d.base64_tokens@.len() == 0,
            d.exempt_paths@.len() == 3,
            d.exempt_paths@[0]@ == "/healthz"@,
            d.exempt_paths@[1]@ == "/metrics"@,
            d.exempt_paths@[2]@ == "/ready"@,
    {
        let mut exempt_paths: Vec<String> = Vec::new();
        exempt_paths.push(String::from_str("/healthz"));
        exempt_paths.push(String::from_str("/metrics"));
        exempt_paths.push(String::from_str("/ready"));
        AuthConfig {
            jwt_secret: String::new(),
            jwt_algorithm: JwtAlgorithm::HS256,
            require_auth: true,
            base64_tokens: Vec::new(),
            exempt_paths,
        }
    }
}

} // verus!
