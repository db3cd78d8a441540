//! API client layer: provider endpoints, proxy configuration checks, and
//! the decisions of connectivity and protocol tests.
//!
//! Each test has three parts: a `*_client` function gives the settings of
//! the HTTP client it sends with; a `*_request` function says what to send
//! (or gives the result at once when nothing is to be sent); and the
//! function named after the test gives the result from what came back.

use vstd::prelude::*;
use crate::http::{
    ClientSettings, HttpMethod, HttpRequest, JsonExchange, RequestView, reply_view,
    status_display, status_text,
};
use crate::json::{JsonValue, JsonView, json_views, listed_models, model_names, texts};
use crate::provider::{list_result_view, opt_text};
use crate::text::{decimal, decimal_text, join2, join3, owned, same_text, trim, trim_spec};

verus! {

/// API provider types, as the UI names them.
#[derive(Clone, Copy, Debug, PartialEq, Eq, Structural)]
pub enum ApiProviderType {
    OpenAI,
    DeepSeek,
    MiMo,
    Custom,
}

/// API provider types (internal); a custom provider carries its base URL.
#[derive(Clone, Debug)]
pub enum ApiProvider {
    OpenAI,
    DeepSeek,
    MiMo,
    Custom(String),
}

impl ApiProvider {
    /// The base URL of the provider.
    pub open spec fn base(self) -> Seq<char> {
        match self {
            ApiProvider::OpenAI => "https://api.openai.com"@,
            ApiProvider::DeepSeek => "https://api.deepseek.com"@,
            ApiProvider::MiMo => "https://api.mimo.mi.com"@,
            ApiProvider::Custom(url) => url@,
        }
    }

    /// The type of the provider.
    pub open spec fn kind(self) -> ApiProviderType {
        match self {
            ApiProvider::OpenAI => ApiProviderType::OpenAI,
            ApiProvider::DeepSeek => ApiProviderType::DeepSeek,
            ApiProvider::MiMo => ApiProviderType::MiMo,
            ApiProvider::Custom(_) => ApiProviderType::Custom,
        }
    }

    /// The human-readable name of the provider.
    pub open spec fn display_name(self) -> Seq<char> {
        match self {
            ApiProvider::OpenAI => "OpenAI"@,
            ApiProvider::DeepSeek => "DeepSeek"@,
            ApiProvider::MiMo => "MiMo"@,
            ApiProvider::Custom(_) => "Custom API"@,
        }
    }

    pub fn base_url(&self) -> (r: &str)
        ensures
            r@ == self.base(),
    {
        match self {
            ApiProvider::OpenAI => "https://api.openai.com",
            ApiProvider::DeepSeek => "https://api.deepseek.com",
            ApiProvider::MiMo => "https://api.mimo.mi.com",
            ApiProvider::Custom(url) => url.as_str(),
        }
    }

    pub fn responses_endpoint(&self) -> (r: String)
        ensures
            r@ == self.base() + "/v1/responses"@,
    {
        join2(self.base_url(), "/v1/responses")
    }

    pub fn chat_completions_endpoint(&self) -> (r: String)
        ensures
            r@ == self.base() + "/v1/chat/completions"@,
    {
        join2(self.base_url(), "/v1/chat/completions")
    }

    pub fn models_endpoint(&self) -> (r: String)
        ensures
            r@ == self.base() + "/v1/models"@,
    {
        join2(self.base_url(), "/v1/models")
    }

    /// The type of the provider.
    pub fn provider_type(&self) -> (r: ApiProviderType)
        ensures
            r == self.kind(),
    {
        match self {
            ApiProvider::OpenAI => ApiProviderType::OpenAI,
            ApiProvider::DeepSeek => ApiProviderType::DeepSeek,
            ApiProvider::MiMo => ApiProviderType::MiMo,
            ApiProvider::Custom(_) => ApiProviderType::Custom,
        }
    }
}

/// The text of an optional borrowed string.
pub open spec fn opt_str(o: Option<&str>) -> Option<Seq<char>> {
    match o {
        Some(s) => Some(s@),
        None => None,
    }
}

/// The base URL that a custom provider gets when none is given.
pub open spec fn fallback_custom_url() -> Seq<char> {
    "https://api.example.com"@
}

/// The base URL of the provider of a type; a custom provider takes the
/// custom URL, or `https://api.example.com` when there is none.
pub open spec fn type_base(provider_type: ApiProviderType, custom_url: Option<Seq<char>>) -> Seq<char> {
    match provider_type {
        ApiProviderType::OpenAI => "https://api.openai.com"@,
        ApiProviderType::DeepSeek => "https://api.deepseek.com"@,
        ApiProviderType::MiMo => "https://api.mimo.mi.com"@,
        ApiProviderType::Custom => match custom_url {
            Some(u) => u,
            None => fallback_custom_url(),
        },
    }
}

/// The human-readable name of the providers of a type.
pub open spec fn type_display_name(provider_type: ApiProviderType) -> Seq<char> {
    match provider_type {
        ApiProviderType::OpenAI => "OpenAI"@,
        ApiProviderType::DeepSeek => "DeepSeek"@,
        ApiProviderType::MiMo => "MiMo"@,
        ApiProviderType::Custom => "Custom API"@,
    }
}

/// Convert ApiProviderType to ApiProvider; a custom provider takes the
/// custom URL, or `https://api.example.com` when there is none.
pub fn provider_type_to_provider(provider_type: &ApiProviderType, custom_url: Option<&str>) -> (r:
    ApiProvider)
    ensures
        r.kind() == *provider_type,
        r.base() == type_base(*provider_type, opt_str(custom_url)),
        r.display_name() == type_display_name(*provider_type),
{
    match provider_type {
        ApiProviderType::OpenAI => ApiProvider::OpenAI,
        ApiProviderType::DeepSeek => ApiProvider::DeepSeek,
        ApiProviderType::MiMo => ApiProvider::MiMo,
        ApiProviderType::Custom => {
            let url = match custom_url {
                Some(u) => u,
                None => "https://api.example.com",
            };
            ApiProvider::Custom(owned(url))
        },
    }
}

/// Get human-readable provider name.
fn provider_name(provider: &ApiProvider) -> (r: &'static str)
    ensures
        r@ == provider.display_name(),
{
    match provider {
        ApiProvider::OpenAI => "OpenAI",
        ApiProvider::DeepSeek => "DeepSeek",
        ApiProvider::MiMo => "MiMo",
        ApiProvider::Custom(_) => "Custom API",
    }
}


// ---------------------------------------------------------------------------
// Proxy configuration
// ---------------------------------------------------------------------------

/// How requests reach the network.
#[derive(Clone, Copy, Debug, PartialEq, Eq, Structural)]
pub enum ApiProxyMode {
    Direct,
    Manual,
}

/// Proxy configuration: a manual proxy carries its URL.
pub struct ApiProxyConfigPayload {
    pub mode: ApiProxyMode,
    pub url: Option<String>,
}

/// The mathematical form of a proxy configuration.
pub struct ProxyView {
    pub mode: ApiProxyMode,
    pub url: Option<Seq<char>>,
}

impl View for ApiProxyConfigPayload {
    type V = ProxyView;

    open spec fn view(&self) -> ProxyView {
        ProxyView { mode: self.mode, url: opt_text(self.url) }
    }
}

/// What `reqwest::Url::parse` accepts.
pub uninterp spec fn url_parses(text: Seq<char>) -> bool;

/// Whether `reqwest::Url::parse` (the `url` crate's WHATWG URL parser)
/// accepts the text. Which texts it accepts is named `url_parses`; the
/// grammar itself is not stated.
#[verifier::external_body]
fn url_is_valid(text: &str) -> (r: bool)
    ensures
        r == url_parses(text@),
{
    match reqwest::Url::parse(text) {
        Ok(_) => true,
        Err(_) => false,
    }
}

/// The checked form of a proxy configuration: a direct configuration
/// drops any URL; a manual one needs a URL that, trimmed, is not empty and
/// parses, and keeps it trimmed.
pub open spec fn sanitized_proxy(c: ProxyView) -> Result<ProxyView, Seq<char>> {
    match c.mode {
        ApiProxyMode::Direct => Ok(ProxyView { mode: ApiProxyMode::Direct, url: None }),
        ApiProxyMode::Manual => match c.url {
            None => Err("Manual proxy mode requires a proxy URL"@),
            Some(u) => {
                let t = trim_spec(u);
                if t.len() == 0 {
                    Err("Invalid proxy URL"@)
                } else if !url_parses(t) {
                    Err("Invalid proxy URL format"@)
                } else {
                    Ok(ProxyView { mode: ApiProxyMode::Manual, url: Some(t) })
                }
            },
        },
    }
}

/// The view of a proxy configuration result.
pub open spec fn proxy_result_view(r: Result<ApiProxyConfigPayload, String>) -> Result<
    ProxyView,
    Seq<char>,
> {
    match r {
        Ok(c) => Ok(c@),
        Err(e) => Err(e@),
    }
}

/// Sanitize proxy configuration.
pub fn sanitize_proxy_config(config: &ApiProxyConfigPayload) -> (r: Result<
    ApiProxyConfigPayload,
    String,
>)
    ensures
        proxy_result_view(r) == sanitized_proxy(config@),
{
    match config.mode {
        ApiProxyMode::Direct => Ok(ApiProxyConfigPayload { mode: ApiProxyMode::Direct, url: None }),
        ApiProxyMode::Manual => {
            let url = match &config.url {
                Some(u) => trim(u.as_str()),
                None => {
                    return Err(owned("Manual proxy mode requires a proxy URL"));
                },
            };
            if url.unicode_len() == 0 {
                return Err(owned("Invalid proxy URL"));
            }
            if !url_is_valid(url) {
                return Err(owned("Invalid proxy URL format"));
            }
            Ok(ApiProxyConfigPayload { mode: ApiProxyMode::Manual, url: Some(owned(url)) })
        },
    }
}

/// The timeout, in seconds, of the API client.
pub const CLIENT_TIMEOUT_SECS: u64 = 10;

/// The client for a proxy configuration: a 10 s timeout, and, in manual
/// mode, all traffic through the configured proxy URL (as given).
pub fn client_settings(config: &ApiProxyConfigPayload) -> (r: ClientSettings)
    ensures
        r.timeout_secs == CLIENT_TIMEOUT_SECS,
        opt_text(r.proxy_url) == match config.mode {
            ApiProxyMode::Direct => None,
            ApiProxyMode::Manual => opt_text(config.url),
        },
        !r.fallback_to_default,
{
    let proxy_url = match config.mode {
        ApiProxyMode::Direct => None,
        ApiProxyMode::Manual => match &config.url {
            Some(u) => Some(u.clone()),
            None => None,
        },
    };
    ClientSettings { timeout_secs: CLIENT_TIMEOUT_SECS, proxy_url, fallback_to_default: false }
}

/// The direct configuration that the connectivity tests use.
pub fn direct_proxy_config() -> (r: ApiProxyConfigPayload)
    ensures
        r@ == (ProxyView { mode: ApiProxyMode::Direct, url: None }),
{
    ApiProxyConfigPayload { mode: ApiProxyMode::Direct, url: None }
}

/// The settings of a client with a direct connection.
fn direct_client() -> (r: ClientSettings)
    ensures
        r.timeout_secs == CLIENT_TIMEOUT_SECS,
        r.proxy_url is None,
        !r.fallback_to_default,
{
    client_settings(&direct_proxy_config())
}

// ---------------------------------------------------------------------------
// Connectivity tests
// ---------------------------------------------------------------------------

/// Result of a connectivity test.
pub struct ApiProxyTestPayload {
    pub code: String,
    pub reachable: bool,
    pub status_code: Option<i32>,
    pub message: String,
}

/// The mathematical form of a connectivity test result.
pub struct ProxyTestView {
    pub code: Seq<char>,
    pub reachable: bool,
    pub status_code: Option<int>,
    pub message: Seq<char>,
}

impl View for ApiProxyTestPayload {
    type V = ProxyTestView;

    open spec fn view(&self) -> ProxyTestView {
        ProxyTestView {
            code: self.code@,
            reachable: self.reachable,
            status_code: match self.status_code {
                Some(c) => Some(c as int),
                None => None,
            },
            message: self.message@,
        }
    }
}

/// The key sent as the bearer token: the given key, else `test-key`.
pub open spec fn bearer_key(api_key: Option<&str>) -> Seq<char> {
    match api_key {
        Some(k) => k@,
        None => "test-key"@,
    }
}

/// A GET of `url` with `Authorization: Bearer <key>`.
pub open spec fn bearer_get(url: Seq<char>, key: Seq<char>) -> RequestView {
    RequestView {
        method: HttpMethod::Get,
        url: url,
        headers: seq![("Authorization"@, "Bearer "@ + key)],
        body: None,
    }
}

fn bearer_get_request(url: String, api_key: Option<&str>) -> (r: HttpRequest)
    ensures
        r@ == bearer_get(url@, bearer_key(api_key)),
{
    let key = match api_key {
        Some(k) => k,
        None => "test-key",
    };
    let headers = vec![(owned("Authorization"), join2("Bearer ", key))];
    let r = HttpRequest { method: HttpMethod::Get, url, headers, body: None };
    assert(r@.headers =~= seq![("Authorization"@, "Bearer "@ + bearer_key(api_key))]);
    r
}

/// The result when the HTTP client could not be built.
pub open spec fn client_failed_result(e: Seq<char>) -> ProxyTestView {
    ProxyTestView { code: "client_build_failed"@, reachable: false, status_code: None, message: e }
}

/// The result of a connectivity test from what its request gave back: a
/// reply is reachable when its status is 200 (or 401, a reachable API that
/// refused the key).
pub open spec fn connectivity_outcome(label: Seq<char>, reply: Result<u16, Seq<char>>) -> ProxyTestView {
    match reply {
        Ok(status) => {
            let reachable = status == 200 || status == 401;
            ProxyTestView {
                code: if reachable {
                    "ok"@
                } else {
                    "error"@
                },
                reachable: reachable,
                status_code: Some(status as int),
                message: if reachable {
                    label + " is reachable"@
                } else {
                    label + " returned status code: "@ + decimal(status as nat)
                },
            }
        },
        Err(e) => ProxyTestView {
            code: "network_error"@,
            reachable: false,
            status_code: None,
            message: "Network error: "@ + e,
        },
    }
}

fn client_failed_payload(e: &String) -> (r: ApiProxyTestPayload)
    ensures
        r@ == client_failed_result(e@),
{
    ApiProxyTestPayload {
        code: owned("client_build_failed"),
        reachable: false,
        status_code: None,
        message: e.clone(),
    }
}

fn connectivity_payload(label: &str, reply: &Result<u16, String>) -> (r: ApiProxyTestPayload)
    ensures
        r@ == connectivity_outcome(label@, reply_view(*reply)),
{
    match reply {
        Ok(status) => {
            let status = *status;
            let reachable = status == 200 || status == 401;
            let message = if reachable {
                join2(label, " is reachable")
            } else {
                let n = decimal_text(status);
                join3(label, " returned status code: ", n.as_str())
            };
            ApiProxyTestPayload {
                code: if reachable {
                    owned("ok")
                } else {
                    owned("error")
                },
                reachable,
                status_code: Some(status as i32),
                message,
            }
        },
        Err(e) => ApiProxyTestPayload {
            code: owned("network_error"),
            reachable: false,
            status_code: None,
            message: join2("Network error: ", e.as_str()),
        },
    }
}

/// The URL that the API connectivity test reads.
pub open spec fn openai_models_url() -> Seq<char> {
    "https://api.openai.com/v1/models"@
}

/// The URL that the MiMo connectivity test reads.
pub open spec fn mimo_models_url() -> Seq<char> {
    "https://api.mimo.mi.com/v1/models"@
}

/// The settings of the client that the API connectivity test sends with:
/// those of its proxy configuration.
pub fn test_api_connectivity_client(config: &ApiProxyConfigPayload) -> (r: ClientSettings)
    ensures
        r.timeout_secs == CLIENT_TIMEOUT_SECS,
        opt_text(r.proxy_url) == match config.mode {
            ApiProxyMode::Direct => None,
            ApiProxyMode::Manual => opt_text(config.url),
        },
        !r.fallback_to_default,
{
    client_settings(config)
}

/// The settings of the client that proxy detection sends with: a direct
/// connection.
pub fn detect_api_proxy_config_client() -> (r: ClientSettings)
    ensures
        r.timeout_secs == CLIENT_TIMEOUT_SECS,
        r.proxy_url is None,
        !r.fallback_to_default,
{
    direct_client()
}

/// The settings of the client that the MiMo connectivity test sends with: a
/// direct connection.
pub fn test_mimo_connectivity_client() -> (r: ClientSettings)
    ensures
        r.timeout_secs == CLIENT_TIMEOUT_SECS,
        r.proxy_url is None,
        !r.fallback_to_default,
{
    direct_client()
}

/// What the API connectivity test sends once its client
/// (`test_api_connectivity_client`) is ready; when the client could
/// not be built, the result at once.
pub fn test_api_connectivity_request(client: &Result<(), String>, api_key: Option<&str>) -> (r:
    Result<HttpRequest, ApiProxyTestPayload>)
    ensures
        match *client {
            Err(e) => r matches Err(p) && p@ == client_failed_result(e@),
            Ok(_) => r matches Ok(req) && req@ == bearer_get(openai_models_url(), bearer_key(api_key)),
        },
{
    match client {
        Err(e) => Err(client_failed_payload(e)),
        Ok(_) => Ok(bearer_get_request(owned("https://api.openai.com/v1/models"), api_key)),
    }
}

/// Test API connectivity: the result from what the request of
/// `test_api_connectivity_request` gave back.
pub fn test_api_connectivity(reply: &Result<u16, String>) -> (r: ApiProxyTestPayload)
    ensures
        r@ == connectivity_outcome("API"@, reply_view(*reply)),
{
    connectivity_payload("API", reply)
}

/// Detect API proxy configuration: the API connectivity test sent with the
/// client of `detect_api_proxy_config_client`; the result from what its
/// request gave back.
pub fn detect_api_proxy_config(reply: &Result<u16, String>) -> (r: ApiProxyTestPayload)
    ensures
        r@ == connectivity_outcome("API"@, reply_view(*reply)),
{
    test_api_connectivity(reply)
}

/// What the MiMo connectivity test sends once its client
/// (`test_mimo_connectivity_client`) is ready;
/// when the client could not be built, the result at once.
pub fn test_mimo_connectivity_request(client: &Result<(), String>, api_key: Option<&str>) -> (r:
    Result<HttpRequest, ApiProxyTestPayload>)
    ensures
        match *client {
            Err(e) => r matches Err(p) && p@ == client_failed_result(e@),
            Ok(_) => r matches Ok(req) && req@ == bearer_get(mimo_models_url(), bearer_key(api_key)),
        },
{
    match client {
        Err(e) => Err(client_failed_payload(e)),
        Ok(_) => Ok(bearer_get_request(owned("https://api.mimo.mi.com/v1/models"), api_key)),
    }
}

/// Test MiMo API connectivity: the result from what the request of
/// `test_mimo_connectivity_request` gave back.
pub fn test_mimo_connectivity(reply: &Result<u16, String>) -> (r: ApiProxyTestPayload)
    ensures
        r@ == connectivity_outcome("MiMo API"@, reply_view(*reply)),
{
    connectivity_payload("MiMo API", reply)
}


// ---------------------------------------------------------------------------
// Protocol and provider support tests
// ---------------------------------------------------------------------------

/// Result of a protocol support test.
pub struct ApiProtocolTestPayload {
    pub provider: ApiProviderType,
    pub protocol: String,
    pub supported: bool,
    pub endpoint: String,
    pub status_code: Option<i32>,
    pub message: String,
}

/// The mathematical form of a protocol support test result.
pub struct ApiProtocolTestView {
    pub provider: ApiProviderType,
    pub protocol: Seq<char>,
    pub supported: bool,
    pub endpoint: Seq<char>,
    pub status_code: Option<int>,
    pub message: Seq<char>,
}

impl View for ApiProtocolTestPayload {
    type V = ApiProtocolTestView;

    open spec fn view(&self) -> ApiProtocolTestView {
        ApiProtocolTestView {
            provider: self.provider,
            protocol: self.protocol@,
            supported: self.supported,
            endpoint: self.endpoint@,
            status_code: match self.status_code {
                Some(c) => Some(c as int),
                None => None,
            },
            message: self.message@,
        }
    }
}

/// The endpoint tested for a protocol under a base URL: `responses` and
/// `chat_completions` have one; other names have none.
pub open spec fn endpoint_under(base: Seq<char>, protocol: Seq<char>) -> Option<Seq<char>> {
    if protocol == "responses"@ {
        Some(base + "/v1/responses"@)
    } else if protocol == "chat_completions"@ {
        Some(base + "/v1/chat/completions"@)
    } else {
        None
    }
}

/// The endpoint tested for a protocol of a provider.
pub open spec fn protocol_endpoint(provider: ApiProvider, protocol: Seq<char>) -> Option<Seq<char>> {
    endpoint_under(provider.base(), protocol)
}

/// A reply status that shows the endpoint exists: 200, 401 or 403 (it wants
/// credentials), or 405 (it exists but does not take GET).
pub open spec fn endpoint_exists(status: u16) -> bool {
    status == 405 || status == 401 || status == 403 || status == 200
}

/// A protocol test result that carries no reply.
pub open spec fn protocol_failure(provider: ApiProvider, protocol: Seq<char>, message: Seq<char>) -> ApiProtocolTestView {
    ApiProtocolTestView {
        provider: provider.kind(),
        protocol: protocol,
        supported: false,
        endpoint: Seq::empty(),
        status_code: None,
        message: message,
    }
}

/// The message for a protocol that is not known.
pub open spec fn unknown_protocol_message(protocol: Seq<char>) -> Seq<char> {
    "Unknown protocol: "@ + protocol
}

/// The result of a protocol support test of the provider of type `kind`,
/// named `name`, at base URL `base`, from what its request gave back.
pub open spec fn support_outcome_at(
    kind: ApiProviderType,
    name: Seq<char>,
    base: Seq<char>,
    protocol: Seq<char>,
    reply: Result<u16, Seq<char>>,
) -> ApiProtocolTestView {
    match endpoint_under(base, protocol) {
        None => ApiProtocolTestView {
            provider: kind,
            protocol: protocol,
            supported: false,
            endpoint: Seq::empty(),
            status_code: None,
            message: unknown_protocol_message(protocol),
        },
        Some(endpoint) => match reply {
            Ok(status) => {
                let supported = endpoint_exists(status);
                ApiProtocolTestView {
                    provider: kind,
                    protocol: protocol,
                    supported: supported,
                    endpoint: endpoint,
                    status_code: Some(status as int),
                    message: if supported {
                        name + " supports "@ + protocol + " protocol"@
                    } else {
                        name + " does not appear to support "@ + protocol + " protocol (status: "@
                            + decimal(status as nat) + ")"@
                    },
                }
            },
            Err(e) => ApiProtocolTestView {
                provider: kind,
                protocol: protocol,
                supported: false,
                endpoint: endpoint,
                status_code: None,
                message: "Network error: "@ + e,
            },
        },
    }
}

/// The result of a protocol support test, from its attempt: `Err` when its
/// client could not be built (with the error message), else the reply to
/// its request.
pub open spec fn support_attempt_at(
    kind: ApiProviderType,
    name: Seq<char>,
    base: Seq<char>,
    protocol: Seq<char>,
    attempt: Result<Result<u16, Seq<char>>, Seq<char>>,
) -> ApiProtocolTestView {
    match attempt {
        Err(e) => ApiProtocolTestView {
            provider: kind,
            protocol: protocol,
            supported: false,
            endpoint: Seq::empty(),
            status_code: None,
            message: e,
        },
        Ok(reply) => support_outcome_at(kind, name, base, protocol, reply),
    }
}

/// The view of a protocol test attempt.
pub open spec fn attempt_view(a: Result<Result<u16, String>, String>) -> Result<Result<u16, Seq<char>>, Seq<char>> {
    match a {
        Err(e) => Err(e@),
        Ok(reply) => Ok(reply_view(reply)),
    }
}

/// The result of a protocol support test from what its request gave back.
pub open spec fn protocol_support_outcome(
    provider: ApiProvider,
    protocol: Seq<char>,
    reply: Result<u16, Seq<char>>,
) -> ApiProtocolTestView {
    support_outcome_at(provider.kind(), provider.display_name(), provider.base(), protocol, reply)
}

fn protocol_failure_payload(provider: &ApiProvider, protocol: &str, message: String) -> (r:
    ApiProtocolTestPayload)
    ensures
        r@ == protocol_failure(*provider, protocol@, message@),
{
    ApiProtocolTestPayload {
        provider: provider.provider_type(),
        protocol: owned(protocol),
        supported: false,
        endpoint: String::new(),
        status_code: None,
        message,
    }
}

fn endpoint_for(provider: &ApiProvider, protocol: &str) -> (r: Option<String>)
    ensures
        opt_text(r) == protocol_endpoint(*provider, protocol@),
{
    if same_text(protocol, "responses") {
        Some(provider.responses_endpoint())
    } else if same_text(protocol, "chat_completions") {
        Some(provider.chat_completions_endpoint())
    } else {
        None
    }
}

/// The settings of the client that the protocol support test sends with: a
/// direct connection.
pub fn test_protocol_support_client() -> (r: ClientSettings)
    ensures
        r.timeout_secs == CLIENT_TIMEOUT_SECS,
        r.proxy_url is None,
        !r.fallback_to_default,
{
    direct_client()
}

/// What the protocol support test sends once its client
/// (`test_protocol_support_client`) is ready: a
/// GET of the protocol's endpoint with the bearer key. When the client could
/// not be built, or the protocol is unknown, the result at once.
pub fn test_protocol_support_request(
    provider: &ApiProvider,
    protocol: &str,
    api_key: Option<&str>,
    client: &Result<(), String>,
) -> (r: Result<HttpRequest, ApiProtocolTestPayload>)
    ensures
        match *client {
            Err(e) => r matches Err(p) && p@ == protocol_failure(*provider, protocol@, e@),
            Ok(_) => match protocol_endpoint(*provider, protocol@) {
                None => r matches Err(p) && p@ == protocol_failure(
                    *provider,
                    protocol@,
                    unknown_protocol_message(protocol@),
                ),
                Some(endpoint) => r matches Ok(req) && req@ == bearer_get(
                    endpoint,
                    bearer_key(api_key),
                ),
            },
        },
{
    match client {
        Err(e) => Err(protocol_failure_payload(provider, protocol, e.clone())),
        Ok(_) => match endpoint_for(provider, protocol) {
            None => Err(
                protocol_failure_payload(provider, protocol, join2("Unknown protocol: ", protocol)),
            ),
            Some(endpoint) => Ok(bearer_get_request(endpoint, api_key)),
        },
    }
}

/// Test protocol support for a given provider: the result from what the
/// request of `test_protocol_support_request` gave back.
pub fn test_protocol_support(provider: &ApiProvider, protocol: &str, reply: &Result<u16, String>) -> (r:
    ApiProtocolTestPayload)
    ensures
        r@ == protocol_support_outcome(*provider, protocol@, reply_view(*reply)),
{
    let endpoint = match endpoint_for(provider, protocol) {
        Some(e) => e,
        None => {
            return protocol_failure_payload(provider, protocol, join2("Unknown protocol: ", protocol));
        },
    };
    let name = provider_name(provider);
    match reply {
        Ok(status) => {
            let status = *status;
            let supported = status == 405 || status == 401 || status == 403 || status == 200;
            let message = if supported {
                let a = join3(name, " supports ", protocol);
                join2(a.as_str(), " protocol")
            } else {
                let n = decimal_text(status);
                let a = join3(name, " does not appear to support ", protocol);
                let b = join3(a.as_str(), " protocol (status: ", n.as_str());
                join2(b.as_str(), ")")
            };
            ApiProtocolTestPayload {
                provider: provider.provider_type(),
                protocol: owned(protocol),
                supported,
                endpoint,
                status_code: Some(status as i32),
                message,
            }
        },
        Err(e) => ApiProtocolTestPayload {
            provider: provider.provider_type(),
            protocol: owned(protocol),
            supported: false,
            endpoint,
            status_code: None,
            message: join2("Network error: ", e.as_str()),
        },
    }
}

/// Result of a provider support test.
pub struct ApiProviderTestPayload {
    pub provider: ApiProviderType,
    pub reachable: bool,
    pub supports_responses: bool,
    pub supports_chat_completions: bool,
    pub models_available: bool,
    pub message: String,
    pub protocol_tests: Vec<ApiProtocolTestPayload>,
}

/// The mathematical form of a provider support test result.
pub struct ApiProviderTestView {
    pub provider: ApiProviderType,
    pub reachable: bool,
    pub supports_responses: bool,
    pub supports_chat_completions: bool,
    pub models_available: bool,
    pub message: Seq<char>,
    pub protocol_tests: Seq<ApiProtocolTestView>,
}

impl View for ApiProviderTestPayload {
    type V = ApiProviderTestView;

    open spec fn view(&self) -> ApiProviderTestView {
        ApiProviderTestView {
            provider: self.provider,
            reachable: self.reachable,
            supports_responses: self.supports_responses,
            supports_chat_completions: self.supports_chat_completions,
            models_available: self.models_available,
            message: self.message@,
            protocol_tests: self.protocol_tests@.map_values(|p: ApiProtocolTestPayload| p@),
        }
    }
}

/// The result of a provider support test whose client could not be built.
pub open spec fn provider_client_failed(provider_type: ApiProviderType, e: Seq<char>) -> ApiProviderTestView {
    ApiProviderTestView {
        provider: provider_type,
        reachable: false,
        supports_responses: false,
        supports_chat_completions: false,
        models_available: false,
        message: e,
        protocol_tests: Seq::empty(),
    }
}

/// A protocol test run inside a provider support test, from its attempt.
fn nested_protocol_test(
    provider: &ApiProvider,
    protocol: &str,
    attempt: &Result<Result<u16, String>, String>,
) -> (r: ApiProtocolTestPayload)
    ensures
        r@ == support_attempt_at(
            provider.kind(),
            provider.display_name(),
            provider.base(),
            protocol@,
            attempt_view(*attempt),
        ),
{
    match attempt {
        Err(e) => protocol_failure_payload(provider, protocol, e.clone()),
        Ok(reply) => test_protocol_support(provider, protocol, reply),
    }
}

/// The settings of the client that the provider support test sends with:
/// a direct connection.
pub fn test_provider_support_client() -> (r: ClientSettings)
    ensures
        r.timeout_secs == CLIENT_TIMEOUT_SECS,
        r.proxy_url is None,
        !r.fallback_to_default,
{
    direct_client()
}

/// The result of a provider support test from what its steps gave back, in
/// the order they run: the reply to the models request, the responses and
/// chat completions protocol tests (each with its own client, see
/// `test_protocol_support_client`: `Err` when that client could not be
/// built, else the reply to its request), and the reply to the models
/// request sent again. The provider is reachable when the first reply is
/// 200, 401 or 403; its protocol results are the protocol support tests of
/// the same provider; models are available when the last reply is 200.
pub open spec fn provider_support_outcome(
    provider_type: ApiProviderType,
    custom_url: Option<Seq<char>>,
    first: Result<u16, Seq<char>>,
    responses: Result<Result<u16, Seq<char>>, Seq<char>>,
    chat: Result<Result<u16, Seq<char>>, Seq<char>>,
    second: Result<u16, Seq<char>>,
) -> ApiProviderTestView {
    let name = type_display_name(provider_type);
    let base = type_base(provider_type, custom_url);
    let r = support_attempt_at(provider_type, name, base, "responses"@, responses);
    let c = support_attempt_at(provider_type, name, base, "chat_completions"@, chat);
    let reachable = match first {
        Ok(status) => status == 200 || status == 401 || status == 403,
        Err(_) => false,
    };
    ApiProviderTestView {
        provider: provider_type,
        reachable: reachable,
        supports_responses: r.supported,
        supports_chat_completions: c.supported,
        models_available: second == Ok::<u16, Seq<char>>(200),
        message: if reachable {
            name + " is reachable"@
        } else {
            name + " is not reachable"@
        },
        protocol_tests: seq![r, c],
    }
}

/// The requests of a provider support test: the models request (sent first
/// and again last, with the test's own client) and the requests of the
/// responses and chat completions protocol tests (sent in between, in that
/// order, each with a client of its own built from
/// `test_protocol_support_client`).
pub struct ProviderSupportPlan {
    pub models: HttpRequest,
    pub responses: HttpRequest,
    pub chat: HttpRequest,
}

/// What the provider support test sends once its client
/// (`test_provider_support_client`) is ready: GETs of the provider's models,
/// responses and chat completions endpoints, each with the bearer key. When
/// the client could not be built, the result at once.
pub fn test_provider_support_request(
    provider_type: &ApiProviderType,
    custom_url: Option<&str>,
    api_key: Option<&str>,
    client: &Result<(), String>,
) -> (r: Result<ProviderSupportPlan, ApiProviderTestPayload>)
    ensures
        match *client {
            Err(e) => r matches Err(p) && p@ == provider_client_failed(*provider_type, e@),
            Ok(_) => r matches Ok(plan) && {
                let base = type_base(*provider_type, opt_str(custom_url));
                &&& plan.models@ == bearer_get(base + "/v1/models"@, bearer_key(api_key))
                &&& plan.responses@ == bearer_get(base + "/v1/responses"@, bearer_key(api_key))
                &&& plan.chat@ == bearer_get(base + "/v1/chat/completions"@, bearer_key(api_key))
            },
        },
{
    match client {
        Err(e) => {
            let p = ApiProviderTestPayload {
                provider: *provider_type,
                reachable: false,
                supports_responses: false,
                supports_chat_completions: false,
                models_available: false,
                message: e.clone(),
                protocol_tests: Vec::new(),
            };
            assert(p@.protocol_tests =~= Seq::<ApiProtocolTestView>::empty());
            Err(p)
        },
        Ok(_) => {
            let provider = provider_type_to_provider(provider_type, custom_url);
            Ok(
                ProviderSupportPlan {
                    models: bearer_get_request(provider.models_endpoint(), api_key),
                    responses: bearer_get_request(provider.responses_endpoint(), api_key),
                    chat: bearer_get_request(provider.chat_completions_endpoint(), api_key),
                },
            )
        },
    }
}

/// Test comprehensive provider support: the result from what the steps of
/// `test_provider_support_request` gave back, in the order they run (see
/// `provider_support_outcome`).
pub fn test_provider_support(
    provider_type: &ApiProviderType,
    custom_url: Option<&str>,
    first: &Result<u16, String>,
    responses: &Result<Result<u16, String>, String>,
    chat: &Result<Result<u16, String>, String>,
    second: &Result<u16, String>,
) -> (r: ApiProviderTestPayload)
    ensures
        r@ == provider_support_outcome(
            *provider_type,
            opt_str(custom_url),
            reply_view(*first),
            attempt_view(*responses),
            attempt_view(*chat),
            reply_view(*second),
        ),
{
    let provider = provider_type_to_provider(provider_type, custom_url);
    let name = provider_name(&provider);
    let responses_test = nested_protocol_test(&provider, "responses", responses);
    let chat_completions_test = nested_protocol_test(&provider, "chat_completions", chat);
    let reachable = match first {
        Ok(status) => *status == 200 || *status == 401 || *status == 403,
        Err(_) => false,
    };
    let models_available = match second {
        Ok(status) => *status == 200,
        Err(_) => false,
    };
    let message = if reachable {
        join2(name, " is reachable")
    } else {
        join2(name, " is not reachable")
    };
    let supports_responses = responses_test.supported;
    let supports_chat_completions = chat_completions_test.supported;
    let ghost rv = responses_test@;
    let ghost cv = chat_completions_test@;
    let p = ApiProviderTestPayload {
        provider: *provider_type,
        reachable,
        supports_responses,
        supports_chat_completions,
        models_available,
        message,
        protocol_tests: vec![responses_test, chat_completions_test],
    };
    assert(p@.protocol_tests =~= seq![rv, cv]);
    p
}

// ---------------------------------------------------------------------------
// Requests that read a JSON reply
// ---------------------------------------------------------------------------

/// What listing a provider's models sends once its client is ready: a GET of
/// the models endpoint with the bearer key; the client's error otherwise.
pub fn get_available_models_request(
    provider: &ApiProvider,
    api_key: Option<&str>,
    client: &Result<(), String>,
) -> (r: Result<HttpRequest, String>)
    ensures
        match *client {
            Err(e) => r matches Err(m) && m@ == e@,
            Ok(_) => r matches Ok(req) && req@ == bearer_get(
                provider.base() + "/v1/models"@,
                bearer_key(api_key),
            ),
        },
{
    match client {
        Err(e) => Err(e.clone()),
        Ok(_) => Ok(bearer_get_request(provider.models_endpoint(), api_key)),
    }
}

/// The models listed, or the error, from what the models request gave back.
pub open spec fn available_models_outcome(exchange: JsonExchange) -> Result<Seq<Seq<char>>, Seq<char>> {
    match exchange {
        JsonExchange::SendFailed(e) => Err("Request failed: "@ + e@),
        JsonExchange::HttpStatus(status) => Err("Failed to fetch models: "@ + status_display(status)),
        JsonExchange::Unparsable(e) => Err("Failed to parse response: "@ + e@),
        JsonExchange::Parsed(reply) => Ok(listed_models(reply)),
    }
}

/// Get available models for a provider: the names listed in the reply to the
/// request of `get_available_models_request`.
pub fn get_available_models(exchange: &JsonExchange) -> (r: Result<Vec<String>, String>)
    ensures
        list_result_view(r) == available_models_outcome(*exchange),
{
    match exchange {
        JsonExchange::SendFailed(e) => Err(join2("Request failed: ", e.as_str())),
        JsonExchange::HttpStatus(status) => {
            let t = status_text(*status);
            Err(join2("Failed to fetch models: ", t.as_str()))
        },
        JsonExchange::Unparsable(e) => Err(join2("Failed to parse response: ", e.as_str())),
        JsonExchange::Parsed(reply) => Ok(model_names(reply)),
    }
}

/// The body of a completion request:
/// `{"messages": [...], "model": <model>, "stream": false}`.
pub open spec fn completion_body(model: Seq<char>, messages: Seq<JsonValue>) -> JsonView {
    JsonView::Object(
        seq![
            ("messages"@, JsonView::Array(json_views(messages))),
            ("model"@, JsonView::Str(model)),
            ("stream"@, JsonView::Bool(false)),
        ],
    )
}

/// A completion request: a POST of the completion body to `url`, with the
/// bearer key and a JSON content type.
pub open spec fn completion_request_spec(
    url: Seq<char>,
    api_key: Seq<char>,
    model: Seq<char>,
    messages: Seq<JsonValue>,
) -> RequestView {
    RequestView {
        method: HttpMethod::Post,
        url: url,
        headers: seq![
            ("Authorization"@, "Bearer "@ + api_key),
            ("Content-Type"@, "application/json"@),
        ],
        body: Some(completion_body(model, messages)),
    }
}

fn completion_request(url: String, api_key: &str, model: &str, messages: Vec<JsonValue>) -> (r:
    HttpRequest)
    ensures
        r@ == completion_request_spec(url@, api_key@, model@, messages@),
{
    let ghost msgs = messages@;
    let headers = vec![
        (owned("Authorization"), join2("Bearer ", api_key)),
        (owned("Content-Type"), owned("application/json")),
    ];
    let members = vec![
        (owned("messages"), JsonValue::Array(messages)),
        (owned("model"), JsonValue::Str(owned(model))),
        (owned("stream"), JsonValue::Bool(false)),
    ];
    proof {
        let m = members@;
        reveal_with_fuel(crate::json::member_views, 4);
        assert(m.subrange(1, 3).subrange(1, 2) =~= m.subrange(2, 3));
        assert(m.subrange(2, 3).subrange(1, 1) =~= Seq::<(String, JsonValue)>::empty());
        assert(crate::json::member_views(m) =~= seq![
            ("messages"@, JsonView::Array(json_views(msgs))),
            ("model"@, JsonView::Str(model@)),
            ("stream"@, JsonView::Bool(false)),
        ]);
    }
    let r = HttpRequest {
        method: HttpMethod::Post,
        url,
        headers,
        body: Some(JsonValue::Object(members)),
    };
    assert(r@.headers =~= seq![
        ("Authorization"@, "Bearer "@ + api_key@),
        ("Content-Type"@, "application/json"@),
    ]);
    r
}

/// What a responses request sends once its client (from `client_settings`
/// of the configuration) is ready; the client's error otherwise.
pub fn responses_request(
    provider: &ApiProvider,
    api_key: &str,
    model: &str,
    messages: Vec<JsonValue>,
    client: &Result<(), String>,
) -> (r: Result<HttpRequest, String>)
    ensures
        match *client {
            Err(e) => r matches Err(m) && m@ == e@,
            Ok(_) => r matches Ok(req) && req@ == completion_request_spec(
                provider.base() + "/v1/responses"@,
                api_key@,
                model@,
                messages@,
            ),
        },
{
    match client {
        Err(e) => Err(e.clone()),
        Ok(_) => Ok(completion_request(provider.responses_endpoint(), api_key, model, messages)),
    }
}

/// What a chat completions request sends once its client (from
/// `client_settings` of the configuration) is ready; the client's error
/// otherwise.
pub fn chat_completions_request(
    provider: &ApiProvider,
    api_key: &str,
    model: &str,
    messages: Vec<JsonValue>,
    client: &Result<(), String>,
) -> (r: Result<HttpRequest, String>)
    ensures
        match *client {
            Err(e) => r matches Err(m) && m@ == e@,
            Ok(_) => r matches Ok(req) && req@ == completion_request_spec(
                provider.base() + "/v1/chat/completions"@,
                api_key@,
                model@,
                messages@,
            ),
        },
{
    match client {
        Err(e) => Err(e.clone()),
        Ok(_) => Ok(
            completion_request(provider.chat_completions_endpoint(), api_key, model, messages),
        ),
    }
}

/// The reply of a completion request, or the error, from what the request
/// gave back.
pub open spec fn completion_outcome(exchange: JsonExchange) -> Result<JsonView, Seq<char>> {
    match exchange {
        JsonExchange::SendFailed(e) => Err("Request failed: "@ + e@),
        JsonExchange::HttpStatus(status) => Err(
            "API request failed with status: "@ + status_display(status),
        ),
        JsonExchange::Unparsable(e) => Err("Failed to parse response: "@ + e@),
        JsonExchange::Parsed(reply) => Ok(reply@),
    }
}

/// The view of a JSON result.
pub open spec fn json_result_view(r: Result<JsonValue, String>) -> Result<JsonView, Seq<char>> {
    match r {
        Ok(v) => Ok(v@),
        Err(e) => Err(e@),
    }
}

fn completion_result(exchange: JsonExchange) -> (r: Result<JsonValue, String>)
    ensures
        json_result_view(r) == completion_outcome(exchange),
{
    match exchange {
        JsonExchange::SendFailed(e) => Err(join2("Request failed: ", e.as_str())),
        JsonExchange::HttpStatus(status) => {
            let t = status_text(status);
            Err(join2("API request failed with status: ", t.as_str()))
        },
        JsonExchange::Unparsable(e) => Err(join2("Failed to parse response: ", e.as_str())),
        JsonExchange::Parsed(reply) => Ok(reply),
    }
}

/// Send a request using the responses protocol: the reply to the request of
/// `responses_request`.
pub fn send_responses_request(exchange: JsonExchange) -> (r: Result<JsonValue, String>)
    ensures
        json_result_view(r) == completion_outcome(exchange),
{
    completion_result(exchange)
}

/// Send a request using the chat completions protocol: the reply to the
/// request of `chat_completions_request`.
pub fn send_chat_completions_request(exchange: JsonExchange) -> (r: Result<JsonValue, String>)
    ensures
        json_result_view(r) == completion_outcome(exchange),
{
    completion_result(exchange)
}

} // verus!
