use codexmate::http::{HttpMethod, JsonExchange};
use codexmate::json::JsonValue;
use codexmate::provider::{
    auth_header, fetch_models, fetch_models_request, list_models_result, list_providers,
    models_list_request, probe_client_settings, probe_protocol, probe_protocol_request,
    probe_provider, probe_provider_request, protocol_probe_request, protocol_probe_result,
    resolve_base_url, set_active, upsert_provider, ProviderConfig, ProviderKind, ProviderStore,
};

fn s(t: &str) -> String {
    t.to_string()
}

fn config(kind: ProviderKind, name: &str, key: Option<&str>) -> ProviderConfig {
    ProviderConfig {
        provider_type: kind,
        name: s(name),
        base_url: s("https://example.test/v1"),
        api_key: key.map(s),
        supports_responses: true,
        supports_chat_completions: false,
        model_list: vec![s("m1"), s("m2")],
        default_model: Some(s("m1")),
    }
}

fn models_reply(ids: &[Option<&str>]) -> JsonValue {
    let entries = ids
        .iter()
        .map(|id| match id {
            Some(i) => JsonValue::Object(vec![
                (s("id"), JsonValue::Str(s(i))),
                (s("object"), JsonValue::Str(s("model"))),
            ]),
            None => JsonValue::Object(vec![(s("object"), JsonValue::Str(s("model")))]),
        })
        .collect();
    JsonValue::Object(vec![
        (s("data"), JsonValue::Array(entries)),
        (s("object"), JsonValue::Str(s("list"))),
    ])
}

#[test]
fn kind_names_round_trip() {
    for k in [ProviderKind::Openai, ProviderKind::Deepseek, ProviderKind::Mimo, ProviderKind::Custom] {
        assert_eq!(ProviderKind::from_str_opt(k.as_str()), Some(k));
    }
    assert_eq!(ProviderKind::Openai.as_str(), "openai");
    assert_eq!(ProviderKind::Custom.as_str(), "custom");
}

#[test]
fn kind_names_ignore_case() {
    assert_eq!(ProviderKind::from_str_opt("OpenAI"), Some(ProviderKind::Openai));
    assert_eq!(ProviderKind::from_str_opt("MIMO"), Some(ProviderKind::Mimo));
    assert_eq!(ProviderKind::from_str_opt("DeepSeek"), Some(ProviderKind::Deepseek));
    assert_eq!(ProviderKind::from_str_opt("anthropic"), None);
    assert_eq!(ProviderKind::from_str_opt(""), None);
    assert_eq!(ProviderKind::from_str_opt(" openai"), None);
}

#[test]
fn kind_names_follow_unicode_lowercase() {
    // U+212A KELVIN SIGN lowercases to an ASCII 'k'.
    assert_eq!(ProviderKind::from_str_opt("deepsee\u{212A}"), Some(ProviderKind::Deepseek));
}

#[test]
fn default_base_urls() {
    assert_eq!(ProviderKind::Openai.default_base_url(), "https://api.openai.com/v1");
    assert_eq!(ProviderKind::Deepseek.default_base_url(), "https://api.deepseek.com");
    assert_eq!(ProviderKind::Mimo.default_base_url(), "https://token-plan-cn.xiaomimimo.com/v1");
    assert_eq!(ProviderKind::Custom.default_base_url(), "");
}

#[test]
fn resolve_base_url_trims_custom_urls() {
    assert_eq!(
        resolve_base_url(ProviderKind::Openai, &Some(s("  https://proxy.local/v1// \n"))),
        "https://proxy.local/v1"
    );
    assert_eq!(
        resolve_base_url(ProviderKind::Mimo, &Some(s("\u{3000}https://a.b/\t"))),
        "https://a.b"
    );
    assert_eq!(resolve_base_url(ProviderKind::Mimo, &Some(s("   "))), "https://token-plan-cn.xiaomimimo.com/v1");
    assert_eq!(resolve_base_url(ProviderKind::Deepseek, &None), "https://api.deepseek.com");
    assert_eq!(resolve_base_url(ProviderKind::Openai, &Some(s("///"))), "");
    assert_eq!(resolve_base_url(ProviderKind::Openai, &Some(s("a / "))), "a ");
}

#[test]
fn auth_header_by_kind() {
    assert_eq!(
        auth_header(ProviderKind::Mimo, &Some(s("tp-1"))),
        Some((s("api-key"), s("tp-1")))
    );
    assert_eq!(
        auth_header(ProviderKind::Custom, &Some(s("k"))),
        Some((s("api-key"), s("k")))
    );
    assert_eq!(
        auth_header(ProviderKind::Openai, &Some(s("sk-1"))),
        Some((s("Authorization"), s("Bearer sk-1")))
    );
    assert_eq!(auth_header(ProviderKind::Deepseek, &None), None);
}

#[test]
fn probe_request_shape() {
    let req = protocol_probe_request(ProviderKind::Openai, "https://x/v1", &Some(s("sk")), "chat_completions");
    assert_eq!(req.method, HttpMethod::Post);
    assert_eq!(req.url, "https://x/v1/chat/completions");
    assert_eq!(req.headers, vec![(s("Authorization"), s("Bearer sk"))]);
    match req.body {
        Some(JsonValue::Object(members)) => {
            let keys: Vec<&str> = members.iter().map(|(k, _)| k.as_str()).collect();
            assert_eq!(keys, vec!["input", "max_output_tokens", "model"]);
            assert!(matches!(&members[1].1, JsonValue::Number(n) if n == "1"));
        }
        _ => panic!("probe body must be an object"),
    }
    let other = protocol_probe_request(ProviderKind::Mimo, "https://m", &None, "anything");
    assert_eq!(other.url, "https://m/responses");
    assert!(other.headers.is_empty());
}

#[test]
fn probe_result_classification() {
    let base = "https://x/v1";
    let ok = protocol_probe_result(ProviderKind::Openai, base, "responses", &Ok(200));
    assert!(ok.supported);
    assert_eq!(ok.status_code, Some(200));
    assert_eq!(ok.message, "Endpoint responded successfully");
    assert_eq!(ok.endpoint, "https://x/v1/responses");
    assert_eq!(ok.provider, "openai");
    assert_eq!(ok.protocol, "responses");

    let auth = protocol_probe_result(ProviderKind::Openai, base, "responses", &Ok(401));
    assert!(auth.supported);
    assert_eq!(auth.message, "Endpoint reachable; authentication required");

    let invalid = protocol_probe_result(ProviderKind::Openai, base, "responses", &Ok(422));
    assert!(invalid.supported);
    assert_eq!(invalid.message, "Endpoint reachable (validation error on probe payload)");

    for code in [404u16, 405] {
        let absent = protocol_probe_result(ProviderKind::Openai, base, "responses", &Ok(code));
        assert!(!absent.supported);
        assert_eq!(absent.message, "Endpoint not found; protocol likely unsupported");
    }

    let bad = protocol_probe_result(ProviderKind::Openai, base, "responses", &Ok(400));
    assert!(bad.supported);
    assert_eq!(bad.message, "Endpoint reachable (bad request on probe payload)");

    let not_impl = protocol_probe_result(ProviderKind::Openai, base, "responses", &Ok(501));
    assert!(!not_impl.supported);
    assert_eq!(not_impl.message, "Server error during probe");

    let redirect = protocol_probe_result(ProviderKind::Openai, base, "chat_completions", &Ok(302));
    assert!(redirect.supported);
    assert_eq!(redirect.message, "HTTP 302");
    assert_eq!(redirect.endpoint, "https://x/v1/chat/completions");

    let failed = protocol_probe_result(ProviderKind::Mimo, base, "responses", &Err(s("timed out")));
    assert!(!failed.supported);
    assert_eq!(failed.status_code, None);
    assert_eq!(failed.message, "Request failed: timed out");
    assert_eq!(failed.provider, "mimo");
}

#[test]
fn models_listing() {
    let req = models_list_request(ProviderKind::Deepseek, "https://api.deepseek.com", &Some(s("k")));
    assert_eq!(req.method, HttpMethod::Get);
    assert_eq!(req.url, "https://api.deepseek.com/models");
    assert!(req.body.is_none());

    let listed = list_models_result(&JsonExchange::Parsed(models_reply(&[Some("a"), None, Some("b")])));
    assert_eq!(listed, Ok(vec![s("a"), s("b")]));

    let no_data = list_models_result(&JsonExchange::Parsed(JsonValue::Object(vec![])));
    assert_eq!(no_data, Ok(vec![]));

    let not_array = list_models_result(&JsonExchange::Parsed(JsonValue::Object(vec![(
        s("data"),
        JsonValue::Str(s("x")),
    )])));
    assert_eq!(not_array, Ok(vec![]));

    let numeric_id = list_models_result(&JsonExchange::Parsed(JsonValue::Object(vec![(
        s("data"),
        JsonValue::Array(vec![JsonValue::Object(vec![(s("id"), JsonValue::Number(s("7")))])]),
    )])));
    assert_eq!(numeric_id, Ok(vec![]));

    assert_eq!(
        list_models_result(&JsonExchange::SendFailed(s("dns error"))),
        Err(s("models request failed: dns error"))
    );
    assert_eq!(
        list_models_result(&JsonExchange::HttpStatus(403)),
        Err(s("models endpoint returned HTTP 403"))
    );
    assert_eq!(
        list_models_result(&JsonExchange::Unparsable(s("EOF"))),
        Err(s("failed to parse models JSON: EOF"))
    );
}

#[test]
fn probe_provider_without_base_url() {
    let plan = probe_provider_request("custom", &None, &None);
    match plan {
        Err(p) => {
            assert_eq!(p.provider, "custom");
            assert!(!p.reachable);
            assert_eq!(p.message, "No base URL configured for this provider");
            assert!(p.protocol_tests.is_empty());
        }
        Ok(_) => panic!("a custom provider without URL has nothing to probe"),
    }
    let unknown = probe_provider_request("somebody", &Some(s("  ")), &None);
    assert!(unknown.is_err());
}

#[test]
fn probe_provider_plan_and_result() {
    let plan = match probe_provider_request("MiMo", &None, &Some(s("tp-x"))) {
        Ok(p) => p,
        Err(_) => panic!("mimo has a default base URL"),
    };
    assert_eq!(plan.responses.url, "https://token-plan-cn.xiaomimimo.com/v1/responses");
    assert_eq!(plan.chat.url, "https://token-plan-cn.xiaomimimo.com/v1/chat/completions");
    assert_eq!(plan.models.url, "https://token-plan-cn.xiaomimimo.com/v1/models");
    assert_eq!(plan.models.headers, vec![(s("api-key"), s("tp-x"))]);

    let result = probe_provider(
        "MiMo",
        &None,
        &Ok(200),
        &Ok(404),
        &JsonExchange::Parsed(models_reply(&[Some("mimo-v2")])),
    );
    assert_eq!(result.provider, "MiMo");
    assert!(result.reachable);
    assert!(result.supports_responses);
    assert!(!result.supports_chat_completions);
    assert!(result.models_available);
    assert_eq!(
        result.message,
        "Provider reachable. responses=true, chat_completions=false, models=true"
    );
    assert_eq!(result.protocol_tests.len(), 2);
    assert_eq!(result.protocol_tests[0].protocol, "responses");
    assert_eq!(result.protocol_tests[1].protocol, "chat_completions");

    let down = probe_provider(
        "openai",
        &None,
        &Err(s("refused")),
        &Err(s("refused")),
        &JsonExchange::SendFailed(s("refused")),
    );
    assert!(!down.reachable);
    assert!(!down.models_available);
    assert_eq!(down.message, "Provider unreachable. Check base URL and network.");
}

#[test]
fn probe_one_protocol() {
    let req = probe_protocol_request("deepseek", &None, "responses", &Some(s("k")));
    match req {
        Ok(r) => assert_eq!(r.url, "https://api.deepseek.com/responses"),
        Err(_) => panic!("deepseek has a default base URL"),
    }
    let none = probe_protocol_request("custom", &Some(s("")), "responses", &None);
    match none {
        Err(p) => {
            assert_eq!(p.endpoint, "");
            assert_eq!(p.message, "No base URL configured for this provider");
            assert!(!p.supported);
        }
        Ok(_) => panic!("nothing to probe"),
    }
    let r = probe_protocol("custom", &Some(s("https://my.host/")), "chat_completions", &Ok(405));
    assert_eq!(r.provider, "custom");
    assert_eq!(r.endpoint, "https://my.host/chat/completions");
    assert!(!r.supported);
}

#[test]
fn fetch_models_paths() {
    assert_eq!(
        fetch_models_request("custom", &None, &None).err(),
        Some(s("No base URL configured for this provider"))
    );
    assert_eq!(
        fetch_models("custom", &None, &JsonExchange::HttpStatus(500)),
        Err(s("No base URL configured for this provider"))
    );
    assert_eq!(
        fetch_models("openai", &None, &JsonExchange::Parsed(models_reply(&[Some("gpt")]))),
        Ok(vec![s("gpt")])
    );
    let req = fetch_models_request("openai", &None, &Some(s("sk"))).ok().unwrap();
    assert_eq!(req.url, "https://api.openai.com/v1/models");
}

#[test]
fn probe_client_is_lenient() {
    let c = probe_client_settings();
    assert_eq!(c.timeout_secs, 15);
    assert!(c.proxy_url.is_none());
    assert!(c.fallback_to_default);
}

#[test]
fn sanitized_strips_only_keys() {
    let store = ProviderStore {
        providers: vec![config(ProviderKind::Openai, "o", Some("sk")), config(ProviderKind::Mimo, "m", None)],
        active_provider: Some(ProviderKind::Mimo),
        active_model: Some(s("mimo-v2")),
    };
    let clean = store.sanitized();
    assert_eq!(clean.providers.len(), 2);
    assert!(clean.providers.iter().all(|p| p.api_key.is_none()));
    assert_eq!(clean.providers[0].name, "o");
    assert_eq!(clean.providers[0].model_list, vec![s("m1"), s("m2")]);
    assert_eq!(clean.providers[0].default_model, Some(s("m1")));
    assert_eq!(clean.active_provider, Some(ProviderKind::Mimo));
    assert_eq!(clean.active_model, Some(s("mimo-v2")));
    let twice = clean.sanitized();
    assert_eq!(twice.providers[1].name, "m");
    assert!(twice.providers.iter().all(|p| p.api_key.is_none()));
}

#[test]
fn upsert_replaces_or_appends() {
    let store = ProviderStore::default();
    assert!(store.providers.is_empty());
    let store = upsert_provider(store, config(ProviderKind::Openai, "first", Some("a")));
    let store = upsert_provider(store, config(ProviderKind::Mimo, "mimo", None));
    assert_eq!(store.providers.len(), 2);
    let store = upsert_provider(store, config(ProviderKind::Openai, "second", Some("b")));
    assert_eq!(store.providers.len(), 2);
    assert_eq!(store.providers[0].name, "second");
    assert_eq!(store.providers[0].api_key, Some(s("b")));
    assert_eq!(store.providers[1].name, "mimo");
    let again = upsert_provider(store, config(ProviderKind::Openai, "second", Some("b")));
    assert_eq!(again.providers.len(), 2);
    assert_eq!(again.providers[0].name, "second");
}

#[test]
fn set_active_checks_the_name_and_the_store() {
    let store = upsert_provider(ProviderStore::default(), config(ProviderKind::Deepseek, "d", None));
    let unknown = set_active(store, "nobody", None);
    assert_eq!(unknown.err(), Some(s("unknown provider type: nobody")));

    let store = upsert_provider(ProviderStore::default(), config(ProviderKind::Deepseek, "d", None));
    let missing = set_active(store, "openai", Some(s("gpt")));
    assert_eq!(missing.err(), Some(s("provider 'openai' is not configured; add it first")));

    let store = upsert_provider(ProviderStore::default(), config(ProviderKind::Deepseek, "d", None));
    let active = set_active(store, "DeepSeek", Some(s("deepseek-chat"))).ok().unwrap();
    assert_eq!(active.active_provider, Some(ProviderKind::Deepseek));
    assert_eq!(active.active_model, Some(s("deepseek-chat")));
    assert_eq!(active.providers.len(), 1);
}

#[test]
fn list_providers_falls_back_to_empty() {
    let empty = list_providers(None);
    assert!(empty.providers.is_empty());
    assert!(empty.active_provider.is_none());
    let stored = upsert_provider(ProviderStore::default(), config(ProviderKind::Mimo, "m", Some("k")));
    let listed = list_providers(Some(stored));
    assert_eq!(listed.providers.len(), 1);
    assert_eq!(listed.providers[0].api_key, Some(s("k")));
}
