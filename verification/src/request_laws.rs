//! Laws of what is sent: the authentication header of each provider kind,
//! the probe and model-list requests, the bearer requests of the API client,
//! and the checks of a proxy configuration.

use vstd::prelude::*;
use crate::api_client::{
    ApiProviderType, ApiProxyMode, ProxyView, bearer_get, bearer_key, sanitized_proxy,
    type_base, url_parses,
};
use crate::http::{HttpMethod, RequestView};
use crate::json::JsonView;
use crate::provider::{ProviderKind, auth_spec, header_list, models_request_spec, probe_request_spec};
use crate::text::trim_spec;

verus! {

/// MiMo and custom providers take the key in an `api-key` header; OpenAI and
/// DeepSeek take `Authorization: Bearer <key>`. Without a key no header is
/// sent.
pub proof fn lemma_auth_header_by_kind(kind: ProviderKind, key: Seq<char>)
    ensures
        auth_spec(kind, None) is None,
        (kind == ProviderKind::Mimo || kind == ProviderKind::Custom) ==> auth_spec(kind, Some(key))
            == Some(("api-key"@, key)),
        (kind == ProviderKind::Openai || kind == ProviderKind::Deepseek) ==> auth_spec(
            kind,
            Some(key),
        ) == Some(("Authorization"@, "Bearer "@ + key)),
{
}

/// A probe is a POST to `<base>/chat/completions` for `chat_completions`
/// and to `<base>/responses` for any other protocol name, with the kind's
/// authentication header and the body
/// `{"input": "ping", "max_output_tokens": 1, "model": "ping"}`.
pub proof fn lemma_probe_request_shape(
    kind: ProviderKind,
    base: Seq<char>,
    key: Option<Seq<char>>,
    protocol: Seq<char>,
)
    ensures
        ({
            let r = probe_request_spec(kind, base, key, protocol);
            &&& r.method == HttpMethod::Post
            &&& r.url == if protocol == "chat_completions"@ {
                base + "/chat/completions"@
            } else {
                base + "/responses"@
            }
            &&& r.headers == header_list(auth_spec(kind, key))
            &&& r.body == Some(
                JsonView::Object(
                    seq![
                        ("input"@, JsonView::Str("ping"@)),
                        ("max_output_tokens"@, JsonView::Number("1"@)),
                        ("model"@, JsonView::Str("ping"@)),
                    ],
                ),
            )
        }),
{
}

/// Listing a provider's models is a GET of `<base>/models`, with the kind's
/// authentication header and no body.
pub proof fn lemma_models_request_shape(kind: ProviderKind, base: Seq<char>, key: Option<Seq<char>>)
    ensures
        models_request_spec(kind, base, key) == (RequestView {
            method: HttpMethod::Get,
            url: base + "/models"@,
            headers: header_list(auth_spec(kind, key)),
            body: None,
        }),
{
}

/// The API client's requests are GETs that carry exactly one header,
/// `Authorization: Bearer <key>`, where the key is the given one or
/// `test-key` when none is given.
pub proof fn lemma_bearer_request_shape(url: Seq<char>, key: Option<&str>)
    ensures
        bearer_get(url, bearer_key(key)).method == HttpMethod::Get,
        bearer_get(url, bearer_key(key)).url == url,
        bearer_get(url, bearer_key(key)).body is None,
        bearer_get(url, bearer_key(key)).headers == seq![
            ("Authorization"@, "Bearer "@ + match key {
                Some(k) => k@,
                None => "test-key"@,
            }),
        ],
{
}

/// The built-in provider types have fixed base URLs; a custom provider
/// takes its custom URL, or `https://api.example.com` when it has none.
pub proof fn lemma_type_base_by_type(provider_type: ApiProviderType, custom: Option<Seq<char>>)
    ensures
        type_base(provider_type, custom) == match provider_type {
            ApiProviderType::OpenAI => "https://api.openai.com"@,
            ApiProviderType::DeepSeek => "https://api.deepseek.com"@,
            ApiProviderType::MiMo => "https://api.mimo.mi.com"@,
            ApiProviderType::Custom => match custom {
                Some(u) => u,
                None => "https://api.example.com"@,
            },
        },
{
}

/// A manual proxy configuration is refused without a URL, with a blank URL,
/// and with a URL that does not parse, each with its own message; otherwise
/// it is accepted with its URL trimmed.
pub proof fn lemma_manual_proxy_checks(url: Option<Seq<char>>)
    ensures
        ({
            let r = sanitized_proxy(ProxyView { mode: ApiProxyMode::Manual, url: url });
            match url {
                None => r == Err::<ProxyView, Seq<char>>("Manual proxy mode requires a proxy URL"@),
                Some(u) => if trim_spec(u).len() == 0 {
                    r == Err::<ProxyView, Seq<char>>("Invalid proxy URL"@)
                } else if !url_parses(trim_spec(u)) {
                    r == Err::<ProxyView, Seq<char>>("Invalid proxy URL format"@)
                } else {
                    r == Ok::<ProxyView, Seq<char>>(
                        ProxyView { mode: ApiProxyMode::Manual, url: Some(trim_spec(u)) },
                    )
                },
            }
        }),
{
}

} // verus!
