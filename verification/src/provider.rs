//! Provider layer: the known provider kinds, the provider store, and the
//! decisions of probing a provider's protocols and model list.

use vstd::prelude::*;
use crate::http::{
    ClientSettings, HttpMethod, HttpRequest, JsonExchange, RequestView, reply_view,
    status_number,
};
use crate::json::{JsonValue, JsonView, listed_models, model_names, texts};
use crate::text::{
    all_ascii, ascii_lower, ascii_lower_char, bool_spec, bool_text, decimal_text, join2, join3,
    lowercased, owned, same_text, to_lowercase, trim, trim_end_char, trim_end_char_spec,
    trim_spec,
};

verus! {

/// Known first-party provider kinds.
#[derive(Clone, Copy, Debug, PartialEq, Eq, Structural)]
pub enum ProviderKind {
    Openai,
    Deepseek,
    Mimo,
    Custom,
}

impl ProviderKind {
    /// The lowercase name of the kind.
    pub open spec fn name(self) -> Seq<char> {
        match self {
            ProviderKind::Openai => "openai"@,
            ProviderKind::Deepseek => "deepseek"@,
            ProviderKind::Mimo => "mimo"@,
            ProviderKind::Custom => "custom"@,
        }
    }

    /// The default base URL of the kind; empty for a custom provider.
    pub open spec fn default_url(self) -> Seq<char> {
        match self {
            ProviderKind::Openai => "https://api.openai.com/v1"@,
            ProviderKind::Deepseek => "https://api.deepseek.com"@,
            ProviderKind::Mimo => "https://token-plan-cn.xiaomimimo.com/v1"@,
            ProviderKind::Custom => ""@,
        }
    }

    pub fn as_str(&self) -> (r: &'static str)
        ensures
            r@ == self.name(),
    {
        match self {
            ProviderKind::Openai => "openai",
            ProviderKind::Deepseek => "deepseek",
            ProviderKind::Mimo => "mimo",
            ProviderKind::Custom => "custom",
        }
    }

    /// The kind named by `s`, compared case-insensitively (after
    /// `to_lowercase`); `None` for any other text. Every name that `as_str`
    /// gives is read back as its kind.
    pub fn from_str_opt(s: &str) -> (r: Option<Self>)
        ensures
            r == kind_named(lowercased(s@)),
            all_ascii(s@) ==> r == kind_named(ascii_lower(s@)),
            forall|k: ProviderKind| s@ == k.name() ==> r == Some(k),
    {
        let lower = to_lowercase(s);
        proof {
            assert forall|k: ProviderKind| s@ == k.name() implies kind_named(lowercased(s@)) == Some(k) by {
                lemma_name_is_lowercase_ascii(k);
            }
        }
        let t = lower.as_str();
        if same_text(t, "openai") {
            Some(ProviderKind::Openai)
        } else if same_text(t, "deepseek") {
            Some(ProviderKind::Deepseek)
        } else if same_text(t, "mimo") {
            Some(ProviderKind::Mimo)
        } else if same_text(t, "custom") {
            Some(ProviderKind::Custom)
        } else {
            None
        }
    }

    /// Default base URL. MiMo defaults to the Token Plan endpoint.
    pub fn default_base_url(&self) -> (r: &'static str)
        ensures
            r@ == self.default_url(),
    {
        match self {
            ProviderKind::Openai => "https://api.openai.com/v1",
            ProviderKind::Deepseek => "https://api.deepseek.com",
            ProviderKind::Mimo => "https://token-plan-cn.xiaomimimo.com/v1",
            ProviderKind::Custom => "",
        }
    }
}

/// The kind whose name is exactly `t`.
pub open spec fn kind_named(t: Seq<char>) -> Option<ProviderKind> {
    if t == "openai"@ {
        Some(ProviderKind::Openai)
    } else if t == "deepseek"@ {
        Some(ProviderKind::Deepseek)
    } else if t == "mimo"@ {
        Some(ProviderKind::Mimo)
    } else if t == "custom"@ {
        Some(ProviderKind::Custom)
    } else {
        None
    }
}

/// Each kind's name is lowercase ASCII, and it names that kind and no other.
pub proof fn lemma_name_is_lowercase_ascii(k: ProviderKind)
    ensures
        all_ascii(k.name()),
        ascii_lower(k.name()) == k.name(),
        kind_named(k.name()) == Some(k),
{
    reveal_strlit("openai");
    reveal_strlit("deepseek");
    reveal_strlit("mimo");
    reveal_strlit("custom");
    let n = k.name();
    assert(ascii_lower(n) =~= n) by {
        assert forall|i: int| 0 <= i < n.len() implies ascii_lower_char(n[i]) == n[i] by {}
    }
    match k {
        ProviderKind::Openai => {},
        ProviderKind::Deepseek => {
            assert("deepseek"@ != "openai"@) by { assert("deepseek"@.len() != "openai"@.len()); }
        },
        ProviderKind::Mimo => {
            assert("mimo"@ != "openai"@) by { assert("mimo"@.len() != "openai"@.len()); }
            assert("mimo"@ != "deepseek"@) by { assert("mimo"@.len() != "deepseek"@.len()); }
        },
        ProviderKind::Custom => {
            assert("custom"@ != "openai"@) by { assert("custom"@[0] != "openai"@[0]); }
            assert("custom"@ != "deepseek"@) by { assert("custom"@.len() != "deepseek"@.len()); }
            assert("custom"@ != "mimo"@) by { assert("custom"@.len() != "mimo"@.len()); }
        },
    }
}


/// The text of an optional string.
pub open spec fn opt_text(o: Option<String>) -> Option<Seq<char>> {
    match o {
        Some(s) => Some(s@),
        None => None,
    }
}

/// A copy of an optional string.
pub fn copy_opt(o: &Option<String>) -> (r: Option<String>)
    ensures
        opt_text(r) == opt_text(*o),
{
    match o {
        Some(s) => Some(s.clone()),
        None => None,
    }
}

/// A copy of a list of strings.
pub fn copy_texts(v: &Vec<String>) -> (r: Vec<String>)
    ensures
        texts(r@) == texts(v@),
{
    let mut r: Vec<String> = Vec::new();
    let mut i: usize = 0;
    while i < v.len()
        invariant
            i <= v.len(),
            r.len() == i,
            texts(r@) == texts(v@.subrange(0, i as int)),
        decreases v.len() - i,
    {
        let ghost before = r@;
        let x = v[i].clone();
        r.push(x);
        assert forall|k: int| 0 <= k <= i implies texts(r@)[k] == texts(v@.subrange(0, i + 1))[k] by {
            if k < i {
                assert(texts(before)[k] == texts(v@.subrange(0, i as int))[k]);
            }
        }
        i = i + 1;
        assert(texts(r@) =~= texts(v@.subrange(0, i as int)));
    }
    assert(v@.subrange(0, v.len() as int) =~= v@);
    r
}

/// Persisted provider configuration.
#[derive(Clone, Debug)]
pub struct ProviderConfig {
    pub provider_type: ProviderKind,
    pub name: String,
    pub base_url: String,
    pub api_key: Option<String>,
    pub supports_responses: bool,
    pub supports_chat_completions: bool,
    pub model_list: Vec<String>,
    pub default_model: Option<String>,
}

/// The mathematical form of a provider configuration.
pub struct ConfigView {
    pub provider_type: ProviderKind,
    pub name: Seq<char>,
    pub base_url: Seq<char>,
    pub api_key: Option<Seq<char>>,
    pub supports_responses: bool,
    pub supports_chat_completions: bool,
    pub model_list: Seq<Seq<char>>,
    pub default_model: Option<Seq<char>>,
}

impl View for ProviderConfig {
    type V = ConfigView;

    open spec fn view(&self) -> ConfigView {
        ConfigView {
            provider_type: self.provider_type,
            name: self.name@,
            base_url: self.base_url@,
            api_key: opt_text(self.api_key),
            supports_responses: self.supports_responses,
            supports_chat_completions: self.supports_chat_completions,
            model_list: texts(self.model_list@),
            default_model: opt_text(self.default_model),
        }
    }
}

/// The configuration with its API key removed.
pub open spec fn without_key(c: ConfigView) -> ConfigView {
    ConfigView { api_key: None, ..c }
}

/// Store of all configured providers.
#[derive(Clone, Debug)]
pub struct ProviderStore {
    pub providers: Vec<ProviderConfig>,
    pub active_provider: Option<ProviderKind>,
    pub active_model: Option<String>,
}

/// The mathematical form of a provider store.
pub struct StoreView {
    pub providers: Seq<ConfigView>,
    pub active_provider: Option<ProviderKind>,
    pub active_model: Option<Seq<char>>,
}

/// The views of a list of configurations.
pub open spec fn config_views(v: Seq<ProviderConfig>) -> Seq<ConfigView> {
    v.map_values(|c: ProviderConfig| c@)
}

impl View for ProviderStore {
    type V = StoreView;

    open spec fn view(&self) -> StoreView {
        StoreView {
            providers: config_views(self.providers@),
            active_provider: self.active_provider,
            active_model: opt_text(self.active_model),
        }
    }
}

/// The store with every API key removed; nothing else changes.
pub open spec fn sanitized_view(s: StoreView) -> StoreView {
    StoreView { providers: s.providers.map_values(|c: ConfigView| without_key(c)), ..s }
}

/// The empty store: no providers, nothing active.
pub open spec fn empty_store() -> StoreView {
    StoreView { providers: Seq::empty(), active_provider: None, active_model: None }
}

impl ProviderConfig {
    /// A copy of the configuration without its API key.
    pub fn without_api_key(&self) -> (r: ProviderConfig)
        ensures
            r@ == without_key(self@),
    {
        ProviderConfig {
            provider_type: self.provider_type,
            name: self.name.clone(),
            base_url: self.base_url.clone(),
            api_key: None,
            supports_responses: self.supports_responses,
            supports_chat_completions: self.supports_chat_completions,
            model_list: copy_texts(&self.model_list),
            default_model: copy_opt(&self.default_model),
        }
    }
}

impl ProviderStore {
    /// Returns a copy with secrets stripped, safe to return to the UI.
    pub fn sanitized(&self) -> (r: ProviderStore)
        ensures
            r@ == sanitized_view(self@),
    {
        let mut providers: Vec<ProviderConfig> = Vec::new();
        let mut i: usize = 0;
        while i < self.providers.len()
            invariant
                i <= self.providers.len(),
                providers.len() == i,
                config_views(providers@) == config_views(self.providers@.subrange(0, i as int)).map_values(
                    |c: ConfigView| without_key(c),
                ),
            decreases self.providers.len() - i,
        {
            let ghost before = providers@;
            let c = self.providers[i].without_api_key();
            providers.push(c);
            assert forall|k: int| 0 <= k <= i implies config_views(providers@)[k] == config_views(
                self.providers@.subrange(0, i + 1),
            ).map_values(|c: ConfigView| without_key(c))[k] by {
                if k < i {
                    assert(config_views(before)[k] == config_views(
                        self.providers@.subrange(0, i as int),
                    ).map_values(|c: ConfigView| without_key(c))[k]);
                }
            }
            i = i + 1;
            assert(config_views(providers@) =~= config_views(
                self.providers@.subrange(0, i as int),
            ).map_values(|c: ConfigView| without_key(c)));
        }
        assert(self.providers@.subrange(0, self.providers.len() as int) =~= self.providers@);
        ProviderStore {
            providers,
            active_provider: self.active_provider,
            active_model: copy_opt(&self.active_model),
        }
    }
}

impl Default for ProviderStore {
    fn default() -> (r: ProviderStore)
        ensures
            r@ == empty_store(),
    {
        let r = ProviderStore { providers: Vec::new(), active_provider: None, active_model: None };
        assert(r@.providers =~= Seq::<ConfigView>::empty());
        r
    }
}

/// Per-protocol probe result.
#[derive(Clone, Debug)]
pub struct ProtocolTestPayload {
    pub provider: String,
    pub protocol: String,
    pub supported: bool,
    pub endpoint: String,
    pub status_code: Option<u16>,
    pub message: String,
}

/// The mathematical form of a protocol probe result.
pub struct ProtocolTestView {
    pub provider: Seq<char>,
    pub protocol: Seq<char>,
    pub supported: bool,
    pub endpoint: Seq<char>,
    pub status_code: Option<u16>,
    pub message: Seq<char>,
}

impl View for ProtocolTestPayload {
    type V = ProtocolTestView;

    open spec fn view(&self) -> ProtocolTestView {
        ProtocolTestView {
            provider: self.provider@,
            protocol: self.protocol@,
            supported: self.supported,
            endpoint: self.endpoint@,
            status_code: self.status_code,
            message: self.message@,
        }
    }
}

/// Full provider probe result.
#[derive(Clone, Debug)]
pub struct ProviderTestPayload {
    pub provider: String,
    pub reachable: bool,
    pub supports_responses: bool,
    pub supports_chat_completions: bool,
    pub models_available: bool,
    pub message: String,
    pub protocol_tests: Vec<ProtocolTestPayload>,
}

/// The mathematical form of a provider probe result.
pub struct ProviderTestView {
    pub provider: Seq<char>,
    pub reachable: bool,
    pub supports_responses: bool,
    pub supports_chat_completions: bool,
    pub models_available: bool,
    pub message: Seq<char>,
    pub protocol_tests: Seq<ProtocolTestView>,
}

impl View for ProviderTestPayload {
    type V = ProviderTestView;

    open spec fn view(&self) -> ProviderTestView {
        ProviderTestView {
            provider: self.provider@,
            reachable: self.reachable,
            supports_responses: self.supports_responses,
            supports_chat_completions: self.supports_chat_completions,
            models_available: self.models_available,
            message: self.message@,
            protocol_tests: self.protocol_tests@.map_values(|p: ProtocolTestPayload| p@),
        }
    }
}


// ---------------------------------------------------------------------------
// Base URL and authentication
// ---------------------------------------------------------------------------

/// The base URL used for a provider: the custom URL trimmed and without
/// trailing slashes when it is not blank, else the kind's default.
pub open spec fn resolved_base(kind: ProviderKind, custom: Option<Seq<char>>) -> Seq<char> {
    match custom {
        Some(u) => if trim_spec(u).len() > 0 {
            trim_end_char_spec(trim_spec(u), '/')
        } else {
            kind.default_url()
        },
        None => kind.default_url(),
    }
}

pub fn resolve_base_url(kind: ProviderKind, custom_url: &Option<String>) -> (r: String)
    ensures
        r@ == resolved_base(kind, opt_text(*custom_url)),
{
    match custom_url {
        Some(u) => {
            let t = trim(u.as_str());
            if t.unicode_len() > 0 {
                owned(trim_end_char(t, '/'))
            } else {
                owned(kind.default_base_url())
            }
        },
        None => owned(kind.default_base_url()),
    }
}

/// The authentication header for a key: MiMo (Token Plan) and custom servers
/// take the key in `api-key`; the others take `Authorization: Bearer <key>`.
/// No key, no header.
pub open spec fn auth_spec(kind: ProviderKind, key: Option<Seq<char>>) -> Option<(Seq<char>, Seq<char>)> {
    match key {
        None => None,
        Some(k) => match kind {
            ProviderKind::Mimo | ProviderKind::Custom => Some(("api-key"@, k)),
            _ => Some(("Authorization"@, "Bearer "@ + k)),
        },
    }
}

/// The texts of a header.
pub open spec fn pair_view(p: (String, String)) -> (Seq<char>, Seq<char>) {
    (p.0@, p.1@)
}

/// The headers that an optional header makes.
pub open spec fn header_list(h: Option<(Seq<char>, Seq<char>)>) -> Seq<(Seq<char>, Seq<char>)> {
    match h {
        Some(p) => seq![p],
        None => Seq::empty(),
    }
}

pub fn auth_header(kind: ProviderKind, api_key: &Option<String>) -> (r: Option<(String, String)>)
    ensures
        match r {
            Some(p) => auth_spec(kind, opt_text(*api_key)) == Some(pair_view(p)),
            None => auth_spec(kind, opt_text(*api_key)) is None,
        },
{
    match api_key {
        None => None,
        Some(k) => match kind {
            ProviderKind::Mimo | ProviderKind::Custom => Some((owned("api-key"), k.clone())),
            _ => Some((owned("Authorization"), join2("Bearer ", k.as_str()))),
        },
    }
}

/// The headers of a probe request.
fn auth_headers(kind: ProviderKind, api_key: &Option<String>) -> (r: Vec<(String, String)>)
    ensures
        crate::http::header_views(r@) == header_list(auth_spec(kind, opt_text(*api_key))),
{
    match auth_header(kind, api_key) {
        Some(p) => {
            let r = vec![p];
            assert(crate::http::header_views(r@) =~= header_list(auth_spec(kind, opt_text(*api_key))));
            r
        },
        None => {
            let r: Vec<(String, String)> = Vec::new();
            assert(crate::http::header_views(r@) =~= header_list(auth_spec(kind, opt_text(*api_key))));
            r
        },
    }
}

// ---------------------------------------------------------------------------
// Probing one protocol
// ---------------------------------------------------------------------------

/// The timeout, in seconds, of the client that sends probes.
pub const PROBE_TIMEOUT_SECS: u64 = 15;

/// The client that sends probes: a 15 s timeout, no proxy, and a client with
/// default settings when that one cannot be built.
pub fn probe_client_settings() -> (r: ClientSettings)
    ensures
        r.timeout_secs == PROBE_TIMEOUT_SECS,
        r.proxy_url is None,
        r.fallback_to_default,
{
    ClientSettings { timeout_secs: PROBE_TIMEOUT_SECS, proxy_url: None, fallback_to_default: true }
}

/// The path probed for a protocol: `chat_completions` probes
/// `/chat/completions`; every other name is treated as the responses protocol.
pub open spec fn probe_path(protocol: Seq<char>) -> Seq<char> {
    if protocol == "chat_completions"@ {
        "/chat/completions"@
    } else {
        "/responses"@
    }
}

/// The body of a probe: `{"input": "ping", "max_output_tokens": 1, "model": "ping"}`.
pub open spec fn ping_body() -> JsonView {
    JsonView::Object(
        seq![
            ("input"@, JsonView::Str("ping"@)),
            ("max_output_tokens"@, JsonView::Number("1"@)),
            ("model"@, JsonView::Str("ping"@)),
        ],
    )
}

fn ping_body_value() -> (r: JsonValue)
    ensures
        r@ == ping_body(),
{
    let members = vec![
        (owned("input"), JsonValue::Str(owned("ping"))),
        (owned("max_output_tokens"), JsonValue::Number(owned("1"))),
        (owned("model"), JsonValue::Str(owned("ping"))),
    ];
    proof {
        let m = members@;
        reveal_with_fuel(crate::json::member_views, 4);
        assert(m.subrange(1, 3).subrange(1, 2) =~= m.subrange(2, 3));
        assert(m.subrange(2, 3).subrange(1, 1) =~= Seq::<(String, JsonValue)>::empty());
        assert(crate::json::member_views(m) =~= seq![
            ("input"@, JsonView::Str("ping"@)),
            ("max_output_tokens"@, JsonView::Number("1"@)),
            ("model"@, JsonView::Str("ping"@)),
        ]);
    }
    JsonValue::Object(members)
}

/// The probe request for a protocol: a POST of the ping body to the
/// protocol's path under the base URL, with the authentication header.
pub open spec fn probe_request_spec(
    kind: ProviderKind,
    base: Seq<char>,
    key: Option<Seq<char>>,
    protocol: Seq<char>,
) -> RequestView {
    RequestView {
        method: HttpMethod::Post,
        url: base + probe_path(protocol),
        headers: header_list(auth_spec(kind, key)),
        body: Some(ping_body()),
    }
}

pub fn protocol_probe_request(
    kind: ProviderKind,
    base_url: &str,
    api_key: &Option<String>,
    protocol: &str,
) -> (r: HttpRequest)
    ensures
        r@ == probe_request_spec(kind, base_url@, opt_text(*api_key), protocol@),
{
    let path = if same_text(protocol, "chat_completions") {
        "/chat/completions"
    } else {
        "/responses"
    };
    HttpRequest {
        method: HttpMethod::Post,
        url: join2(base_url, path),
        headers: auth_headers(kind, api_key),
        body: Some(ping_body_value()),
    }
}

/// A 404, 405 or 501 reply means the endpoint is absent: the protocol is
/// unsupported.
pub open spec fn probe_unsupported(status: u16) -> bool {
    status == 404 || status == 405 || status == 501
}

/// How a probe describes a reply status.
pub open spec fn probe_message(status: u16) -> Seq<char> {
    if 200 <= status <= 299 {
        "Endpoint responded successfully"@
    } else if status == 401 || status == 403 {
        "Endpoint reachable; authentication required"@
    } else if status == 422 {
        "Endpoint reachable (validation error on probe payload)"@
    } else if 400 <= status <= 499 && probe_unsupported(status) {
        "Endpoint not found; protocol likely unsupported"@
    } else if 400 <= status <= 499 {
        "Endpoint reachable (bad request on probe payload)"@
    } else if 500 <= status <= 599 {
        "Server error during probe"@
    } else {
        "HTTP "@ + status_number(status)
    }
}

fn probe_message_text(status: u16) -> (r: String)
    ensures
        r@ == probe_message(status),
{
    if 200 <= status && status <= 299 {
        owned("Endpoint responded successfully")
    } else if status == 401 || status == 403 {
        owned("Endpoint reachable; authentication required")
    } else if status == 422 {
        owned("Endpoint reachable (validation error on probe payload)")
    } else if 400 <= status && status <= 499 && (status == 404 || status == 405
        || status == 501) {
        owned("Endpoint not found; protocol likely unsupported")
    } else if 400 <= status && status <= 499 {
        owned("Endpoint reachable (bad request on probe payload)")
    } else if 500 <= status && status <= 599 {
        owned("Server error during probe")
    } else {
        let n = decimal_text(status);
        join2("HTTP ", n.as_str())
    }
}

/// The result of probing a protocol, from what the send gave back.
pub open spec fn probe_outcome(
    kind: ProviderKind,
    base: Seq<char>,
    protocol: Seq<char>,
    reply: Result<u16, Seq<char>>,
) -> ProtocolTestView {
    let endpoint = base + probe_path(protocol);
    match reply {
        Ok(status) => ProtocolTestView {
            provider: kind.name(),
            protocol: protocol,
            supported: !probe_unsupported(status),
            endpoint: endpoint,
            status_code: Some(status),
            message: probe_message(status),
        },
        Err(e) => ProtocolTestView {
            provider: kind.name(),
            protocol: protocol,
            supported: false,
            endpoint: endpoint,
            status_code: None,
            message: "Request failed: "@ + e,
        },
    }
}

/// The probe result of a protocol once its request (see
/// `protocol_probe_request`) was sent: `reply` is the reply status, or the
/// text of the error that kept the request from being sent.
pub fn protocol_probe_result(
    kind: ProviderKind,
    base_url: &str,
    protocol: &str,
    reply: &Result<u16, String>,
) -> (r: ProtocolTestPayload)
    ensures
        r@ == probe_outcome(kind, base_url@, protocol@, reply_view(*reply)),
{
    let path = if same_text(protocol, "chat_completions") {
        "/chat/completions"
    } else {
        "/responses"
    };
    let endpoint = join2(base_url, path);
    match reply {
        Ok(status) => {
            let status = *status;
            let unsupported = status == 404 || status == 405 || status == 501;
            ProtocolTestPayload {
                provider: owned(kind.as_str()),
                protocol: owned(protocol),
                supported: !unsupported,
                endpoint,
                status_code: Some(status),
                message: probe_message_text(status),
            }
        },
        Err(e) => ProtocolTestPayload {
            provider: owned(kind.as_str()),
            protocol: owned(protocol),
            supported: false,
            endpoint,
            status_code: None,
            message: join2("Request failed: ", e.as_str()),
        },
    }
}

// ---------------------------------------------------------------------------
// Listing models
// ---------------------------------------------------------------------------

/// The request that lists a provider's models: a GET of `<base>/models`
/// with the authentication header.
pub open spec fn models_request_spec(
    kind: ProviderKind,
    base: Seq<char>,
    key: Option<Seq<char>>,
) -> RequestView {
    RequestView {
        method: HttpMethod::Get,
        url: base + "/models"@,
        headers: header_list(auth_spec(kind, key)),
        body: None,
    }
}

pub fn models_list_request(kind: ProviderKind, base_url: &str, api_key: &Option<String>) -> (r: HttpRequest)
    ensures
        r@ == models_request_spec(kind, base_url@, opt_text(*api_key)),
{
    HttpRequest {
        method: HttpMethod::Get,
        url: join2(base_url, "/models"),
        headers: auth_headers(kind, api_key),
        body: None,
    }
}

/// The model list, or the error, from what the models request gave back.
pub open spec fn models_outcome(exchange: JsonExchange) -> Result<Seq<Seq<char>>, Seq<char>> {
    match exchange {
        JsonExchange::SendFailed(e) => Err("models request failed: "@ + e@),
        JsonExchange::HttpStatus(status) => Err(
            "models endpoint returned HTTP "@ + status_number(status),
        ),
        JsonExchange::Unparsable(e) => Err("failed to parse models JSON: "@ + e@),
        JsonExchange::Parsed(reply) => Ok(listed_models(reply)),
    }
}

/// The texts of a list result.
pub open spec fn list_result_view(r: Result<Vec<String>, String>) -> Result<Seq<Seq<char>>, Seq<char>> {
    match r {
        Ok(v) => Ok(texts(v@)),
        Err(e) => Err(e@),
    }
}

/// The models listed, once the models request (see `models_list_request`)
/// was sent and, for a success status, its body parsed.
pub fn list_models_result(exchange: &JsonExchange) -> (r: Result<Vec<String>, String>)
    ensures
        list_result_view(r) == models_outcome(*exchange),
{
    match exchange {
        JsonExchange::SendFailed(e) => Err(join2("models request failed: ", e.as_str())),
        JsonExchange::HttpStatus(status) => {
            let n = decimal_text(*status);
            Err(join2("models endpoint returned HTTP ", n.as_str()))
        },
        JsonExchange::Unparsable(e) => Err(join2("failed to parse models JSON: ", e.as_str())),
        JsonExchange::Parsed(reply) => Ok(model_names(reply)),
    }
}


// ---------------------------------------------------------------------------
// Probing a provider
// ---------------------------------------------------------------------------

/// The kind that a provider name selects; unknown names are custom providers.
pub open spec fn probe_kind(provider_type: Seq<char>) -> ProviderKind {
    match kind_named(lowercased(provider_type)) {
        Some(k) => k,
        None => ProviderKind::Custom,
    }
}

/// The base URL that probes of a provider go to.
pub open spec fn probe_base(provider_type: Seq<char>, custom: Option<Seq<char>>) -> Seq<char> {
    resolved_base(probe_kind(provider_type), custom)
}

/// The message when a provider has no base URL.
pub open spec fn no_base_message() -> Seq<char> {
    "No base URL configured for this provider"@
}

/// The probe result of a provider without a base URL: nothing reachable.
pub open spec fn no_base_provider_result(provider_type: Seq<char>) -> ProviderTestView {
    ProviderTestView {
        provider: provider_type,
        reachable: false,
        supports_responses: false,
        supports_chat_completions: false,
        models_available: false,
        message: no_base_message(),
        protocol_tests: Seq::empty(),
    }
}

/// The summary of a reachable provider.
pub open spec fn reachable_message(responses: bool, chat: bool, models: bool) -> Seq<char> {
    "Provider reachable. responses="@ + bool_spec(responses) + ", chat_completions="@ + bool_spec(
        chat,
    ) + ", models="@ + bool_spec(models)
}

/// The probe result of a provider, from what the two protocol probes and
/// the models request gave back. The provider is reachable when either probe
/// got a reply or the models were listed.
pub open spec fn provider_probe_outcome(
    provider_type: Seq<char>,
    custom: Option<Seq<char>>,
    responses: Result<u16, Seq<char>>,
    chat: Result<u16, Seq<char>>,
    models: Result<Seq<Seq<char>>, Seq<char>>,
) -> ProviderTestView {
    let kind = probe_kind(provider_type);
    let base = resolved_base(kind, custom);
    if base.len() == 0 {
        no_base_provider_result(provider_type)
    } else {
        let r = probe_outcome(kind, base, "responses"@, responses);
        let c = probe_outcome(kind, base, "chat_completions"@, chat);
        let m = models is Ok;
        let reachable = r.status_code is Some || c.status_code is Some || m;
        ProviderTestView {
            provider: provider_type,
            reachable: reachable,
            supports_responses: r.supported,
            supports_chat_completions: c.supported,
            models_available: m,
            message: if reachable {
                reachable_message(r.supported, c.supported, m)
            } else {
                "Provider unreachable. Check base URL and network."@
            },
            protocol_tests: seq![r, c],
        }
    }
}

/// The requests that probe a provider: the responses protocol, the chat
/// completions protocol, and the model list, sent with the probe client
/// (`probe_client_settings`).
pub struct ProbePlan {
    pub responses: HttpRequest,
    pub chat: HttpRequest,
    pub models: HttpRequest,
}

fn no_base_provider_payload(provider_type: &str) -> (r: ProviderTestPayload)
    ensures
        r@ == no_base_provider_result(provider_type@),
{
    let r = ProviderTestPayload {
        provider: owned(provider_type),
        reachable: false,
        supports_responses: false,
        supports_chat_completions: false,
        models_available: false,
        message: owned("No base URL configured for this provider"),
        protocol_tests: Vec::new(),
    };
    assert(r@.protocol_tests =~= Seq::<ProtocolTestView>::empty());
    r
}

/// The kind and base URL that probes of a provider use.
fn probe_target(provider_type: &str, custom_url: &Option<String>) -> (r: (ProviderKind, String))
    ensures
        r.0 == probe_kind(provider_type@),
        r.1@ == probe_base(provider_type@, opt_text(*custom_url)),
{
    let kind = match ProviderKind::from_str_opt(provider_type) {
        Some(k) => k,
        None => ProviderKind::Custom,
    };
    (kind, resolve_base_url(kind, custom_url))
}

/// What to send to probe a provider, or, when it has no base URL, the
/// result at once.
pub fn probe_provider_request(
    provider_type: &str,
    custom_url: &Option<String>,
    api_key: &Option<String>,
) -> (r: Result<ProbePlan, ProviderTestPayload>)
    ensures
        ({
            let kind = probe_kind(provider_type@);
            let base = probe_base(provider_type@, opt_text(*custom_url));
            let key = opt_text(*api_key);
            match r {
                Err(p) => base.len() == 0 && p@ == no_base_provider_result(provider_type@),
                Ok(plan) => {
                    &&& base.len() > 0
                    &&& plan.responses@ == probe_request_spec(kind, base, key, "responses"@)
                    &&& plan.chat@ == probe_request_spec(kind, base, key, "chat_completions"@)
                    &&& plan.models@ == models_request_spec(kind, base, key)
                },
            }
        }),
{
    let (kind, base) = probe_target(provider_type, custom_url);
    if base.as_str().unicode_len() == 0 {
        return Err(no_base_provider_payload(provider_type));
    }
    Ok(
        ProbePlan {
            responses: protocol_probe_request(kind, base.as_str(), api_key, "responses"),
            chat: protocol_probe_request(kind, base.as_str(), api_key, "chat_completions"),
            models: models_list_request(kind, base.as_str(), api_key),
        },
    )
}

/// The probe result of a provider once the requests of its plan (see
/// `probe_provider_request`) were sent.
pub fn probe_provider(
    provider_type: &str,
    custom_url: &Option<String>,
    responses: &Result<u16, String>,
    chat: &Result<u16, String>,
    models: &JsonExchange,
) -> (r: ProviderTestPayload)
    ensures
        r@ == provider_probe_outcome(
            provider_type@,
            opt_text(*custom_url),
            reply_view(*responses),
            reply_view(*chat),
            models_outcome(*models),
        ),
{
    let (kind, base) = probe_target(provider_type, custom_url);
    if base.as_str().unicode_len() == 0 {
        return no_base_provider_payload(provider_type);
    }
    let r = protocol_probe_result(kind, base.as_str(), "responses", responses);
    let c = protocol_probe_result(kind, base.as_str(), "chat_completions", chat);
    let models_available = list_models_result(models).is_ok();
    let reachable = r.status_code.is_some() || c.status_code.is_some() || models_available;
    let message = if reachable {
        let a = join3("Provider reachable. responses=", bool_text(r.supported), ", chat_completions=");
        let b = join3(a.as_str(), bool_text(c.supported), ", models=");
        join2(b.as_str(), bool_text(models_available))
    } else {
        owned("Provider unreachable. Check base URL and network.")
    };
    let supports_responses = r.supported;
    let supports_chat_completions = c.supported;
    let ghost rv = r@;
    let ghost cv = c@;
    let protocol_tests = vec![r, c];
    let p = ProviderTestPayload {
        provider: owned(provider_type),
        reachable,
        supports_responses,
        supports_chat_completions,
        models_available,
        message,
        protocol_tests,
    };
    assert(p@.protocol_tests =~= seq![rv, cv]);
    p
}

/// The result of probing a protocol of a provider without a base URL.
pub open spec fn no_base_protocol_result(provider_type: Seq<char>, protocol: Seq<char>) -> ProtocolTestView {
    ProtocolTestView {
        provider: provider_type,
        protocol: protocol,
        supported: false,
        endpoint: Seq::empty(),
        status_code: None,
        message: no_base_message(),
    }
}

/// The result of probing one protocol of a provider, from what its probe
/// gave back.
pub open spec fn protocol_probe_outcome(
    provider_type: Seq<char>,
    custom: Option<Seq<char>>,
    protocol: Seq<char>,
    reply: Result<u16, Seq<char>>,
) -> ProtocolTestView {
    let kind = probe_kind(provider_type);
    let base = resolved_base(kind, custom);
    if base.len() == 0 {
        no_base_protocol_result(provider_type, protocol)
    } else {
        probe_outcome(kind, base, protocol, reply)
    }
}

fn no_base_protocol_payload(provider_type: &str, protocol: &str) -> (r: ProtocolTestPayload)
    ensures
        r@ == no_base_protocol_result(provider_type@, protocol@),
{
    ProtocolTestPayload {
        provider: owned(provider_type),
        protocol: owned(protocol),
        supported: false,
        endpoint: String::new(),
        status_code: None,
        message: owned("No base URL configured for this provider"),
    }
}

/// What to send (with the probe client, `probe_client_settings`) to probe
/// one protocol of a provider, or, when it has no base URL, the result at
/// once.
pub fn probe_protocol_request(
    provider_type: &str,
    custom_url: &Option<String>,
    protocol: &str,
    api_key: &Option<String>,
) -> (r: Result<HttpRequest, ProtocolTestPayload>)
    ensures
        ({
            let kind = probe_kind(provider_type@);
            let base = probe_base(provider_type@, opt_text(*custom_url));
            match r {
                Err(p) => base.len() == 0 && p@ == no_base_protocol_result(provider_type@, protocol@),
                Ok(req) => base.len() > 0 && req@ == probe_request_spec(
                    kind,
                    base,
                    opt_text(*api_key),
                    protocol@,
                ),
            }
        }),
{
    let (kind, base) = probe_target(provider_type, custom_url);
    if base.as_str().unicode_len() == 0 {
        return Err(no_base_protocol_payload(provider_type, protocol));
    }
    Ok(protocol_probe_request(kind, base.as_str(), api_key, protocol))
}

/// The result of probing one protocol of a provider once its request (see
/// `probe_protocol_request`) was sent.
pub fn probe_protocol(
    provider_type: &str,
    custom_url: &Option<String>,
    protocol: &str,
    reply: &Result<u16, String>,
) -> (r: ProtocolTestPayload)
    ensures
        r@ == protocol_probe_outcome(
            provider_type@,
            opt_text(*custom_url),
            protocol@,
            reply_view(*reply),
        ),
{
    let (kind, base) = probe_target(provider_type, custom_url);
    if base.as_str().unicode_len() == 0 {
        return no_base_protocol_payload(provider_type, protocol);
    }
    protocol_probe_result(kind, base.as_str(), protocol, reply)
}

/// What to send (with the probe client, `probe_client_settings`) to list a
/// provider's models, or the error when it has no base URL.
pub fn fetch_models_request(
    provider_type: &str,
    custom_url: &Option<String>,
    api_key: &Option<String>,
) -> (r: Result<HttpRequest, String>)
    ensures
        ({
            let kind = probe_kind(provider_type@);
            let base = probe_base(provider_type@, opt_text(*custom_url));
            match r {
                Err(e) => base.len() == 0 && e@ == no_base_message(),
                Ok(req) => base.len() > 0 && req@ == models_request_spec(kind, base, opt_text(*api_key)),
            }
        }),
{
    let (kind, base) = probe_target(provider_type, custom_url);
    if base.as_str().unicode_len() == 0 {
        return Err(owned("No base URL configured for this provider"));
    }
    Ok(models_list_request(kind, base.as_str(), api_key))
}

/// The models of a provider once its models request (see
/// `fetch_models_request`) was sent; the no-base-URL error when it has none.
pub fn fetch_models(
    provider_type: &str,
    custom_url: &Option<String>,
    exchange: &JsonExchange,
) -> (r: Result<Vec<String>, String>)
    ensures
        list_result_view(r) == if probe_base(provider_type@, opt_text(*custom_url)).len() == 0 {
            Err(no_base_message())
        } else {
            models_outcome(*exchange)
        },
{
    let (_kind, base) = probe_target(provider_type, custom_url);
    if base.as_str().unicode_len() == 0 {
        return Err(owned("No base URL configured for this provider"));
    }
    list_models_result(exchange)
}


// ---------------------------------------------------------------------------
// The provider store
// ---------------------------------------------------------------------------

/// Some configuration in the list is of kind `k`.
pub open spec fn has_kind(ps: Seq<ConfigView>, k: ProviderKind) -> bool {
    exists|i: int| 0 <= i < ps.len() && ps[i].provider_type == k
}

/// `i` is the position of the first configuration of kind `k`.
pub open spec fn first_of_kind(ps: Seq<ConfigView>, k: ProviderKind, i: int) -> bool {
    &&& 0 <= i < ps.len()
    &&& ps[i].provider_type == k
    &&& forall|j: int| 0 <= j < i ==> ps[j].provider_type != k
}

/// The position of the first configuration of kind `k` (meaningful when
/// there is one).
pub open spec fn kind_index(ps: Seq<ConfigView>, k: ProviderKind) -> int {
    choose|i: int| first_of_kind(ps, k, i)
}

/// The list with `c` in place of the first configuration of its kind, or
/// with `c` appended when there is none of its kind.
pub open spec fn upserted(ps: Seq<ConfigView>, c: ConfigView) -> Seq<ConfigView> {
    if has_kind(ps, c.provider_type) {
        ps.update(kind_index(ps, c.provider_type), c)
    } else {
        ps.push(c)
    }
}

/// The store after `c` is inserted or replaces the configuration of its kind.
pub open spec fn upsert_store(s: StoreView, c: ConfigView) -> StoreView {
    StoreView { providers: upserted(s.providers, c), ..s }
}

/// The store with a provider made active, or the error when the name is
/// unknown or no provider of that kind is configured.
pub open spec fn activate(
    s: StoreView,
    provider_type: Seq<char>,
    model: Option<Seq<char>>,
) -> Result<StoreView, Seq<char>> {
    match kind_named(lowercased(provider_type)) {
        None => Err("unknown provider type: "@ + provider_type),
        Some(k) => if has_kind(s.providers, k) {
            Ok(StoreView { active_provider: Some(k), active_model: model, ..s })
        } else {
            Err("provider '"@ + provider_type + "' is not configured; add it first"@)
        },
    }
}

/// The view of a store result.
pub open spec fn store_result_view(r: Result<ProviderStore, String>) -> Result<StoreView, Seq<char>> {
    match r {
        Ok(s) => Ok(s@),
        Err(e) => Err(e@),
    }
}

/// A first position of a kind is the only one.
pub proof fn lemma_first_of_kind_unique(ps: Seq<ConfigView>, k: ProviderKind, i: int, j: int)
    requires
        first_of_kind(ps, k, i),
        first_of_kind(ps, k, j),
    ensures
        i == j,
{
    if i < j {
        assert(ps[i].provider_type != k);
    } else if j < i {
        assert(ps[j].provider_type != k);
    }
}

/// When some configuration has the kind, `kind_index` is its first position.
pub proof fn lemma_kind_index(ps: Seq<ConfigView>, k: ProviderKind)
    requires
        has_kind(ps, k),
    ensures
        first_of_kind(ps, k, kind_index(ps, k)),
    decreases ps.len(),
{
    if ps[0].provider_type == k {
        assert(first_of_kind(ps, k, 0));
    } else {
        let rest = ps.subrange(1, ps.len() as int);
        let w = choose|i: int| 0 <= i < ps.len() && ps[i].provider_type == k;
        assert(rest[w - 1].provider_type == k);
        lemma_kind_index(rest, k);
        let j = kind_index(rest, k);
        assert(first_of_kind(ps, k, j + 1)) by {
            assert forall|m: int| 0 <= m < j + 1 implies ps[m].provider_type != k by {
                if m > 0 {
                    assert(ps[m] == rest[m - 1]);
                }
            }
        }
    }
}

/// Insert `config`, or put it in place of the first configuration of its
/// kind.
pub fn upsert_provider(store: ProviderStore, config: ProviderConfig) -> (r: ProviderStore)
    ensures
        r@ == upsert_store(store@, config@),
{
    let mut store = store;
    let pt = config.provider_type;
    let n = store.providers.len();
    let mut i: usize = 0;
    while i < n && store.providers[i].provider_type != pt
        invariant
            n == store.providers.len(),
            i <= n,
            forall|j: int| 0 <= j < i ==> store.providers@[j].provider_type != pt,
        decreases n - i,
    {
        i = i + 1;
    }
    let ghost ps = store@.providers;
    let ghost cv = config@;
    if i < n {
        proof {
            assert(ps[i as int].provider_type == pt);
            assert(first_of_kind(ps, pt, i as int));
            lemma_kind_index(ps, pt);
            lemma_first_of_kind_unique(ps, pt, i as int, kind_index(ps, pt));
        }
        store.providers.set(i, config);
        assert(store@.providers =~= ps.update(i as int, cv));
    } else {
        store.providers.push(config);
        assert(store@.providers =~= ps.push(cv));
    }
    store
}

/// Make the provider named `provider_type` active with `model`. Fails when
/// the name is unknown or no provider of that kind is configured; the
/// configured providers never change.
#[verifier::loop_isolation(false)]
pub fn set_active(store: ProviderStore, provider_type: &str, model: Option<String>) -> (r: Result<
    ProviderStore,
    String,
>)
    ensures
        store_result_view(r) == activate(store@, provider_type@, opt_text(model)),
        forall|k: ProviderKind|
            provider_type@ == k.name() ==> (r is Ok <==> has_kind(store@.providers, k)),
{
    let ghost s0 = store@;
    let ghost m0 = opt_text(model);
    let found = ProviderKind::from_str_opt(provider_type);
    let kind = match found {
        Some(k) => k,
        None => {
            proof {
                assert forall|k: ProviderKind| provider_type@ == k.name() implies false by {
                    assert(found == Some(k));
                }
            }
            return Err(join2("unknown provider type: ", provider_type));
        },
    };
    proof {
        assert forall|k: ProviderKind| provider_type@ == k.name() implies k == kind by {
            assert(found == Some(k));
        }
    }
    let mut store = store;
    let n = store.providers.len();
    let mut i: usize = 0;
    while i < n
        invariant
            n == store.providers.len(),
            i <= n,
            store@ == s0,
            m0 == opt_text(model),
            forall|j: int| 0 <= j < i ==> s0.providers[j].provider_type != kind,
        decreases n - i,
    {
        if store.providers[i].provider_type == kind {
            assert(s0.providers[i as int].provider_type == kind);
            assert(has_kind(s0.providers, kind));
            store.active_provider = Some(kind);
            store.active_model = model;
            assert(store@ == StoreView { active_provider: Some(kind), active_model: m0, ..s0 });
            return Ok(store);
        }
        i = i + 1;
    }
    assert(!has_kind(s0.providers, kind));
    Err(join3("provider '", provider_type, "' is not configured; add it first"))
}

/// The store to list: the one read from disk when it was read and parsed,
/// else an empty store.
pub fn list_providers(loaded: Option<ProviderStore>) -> (r: ProviderStore)
    ensures
        r@ == match loaded {
            Some(s) => s@,
            None => empty_store(),
        },
{
    match loaded {
        Some(s) => s,
        None => ProviderStore::default(),
    }
}

} // verus!
