use codexmate::api_client::{
    chat_completions_request, client_settings, detect_api_proxy_config,
    direct_proxy_config, get_available_models, get_available_models_request,
    provider_type_to_provider, responses_request, sanitize_proxy_config,
    send_chat_completions_request, send_responses_request, test_api_connectivity,
    test_api_connectivity_request, test_mimo_connectivity, test_mimo_connectivity_request,
    test_protocol_support, test_protocol_support_request, test_provider_support,
    test_provider_support_request, ApiProvider, ApiProviderType, ApiProxyConfigPayload,
    ApiProxyMode, detect_api_proxy_config_client, test_api_connectivity_client,
    test_mimo_connectivity_client, test_protocol_support_client, test_provider_support_client,
};
use codexmate::http::{
    body_exchange, client_failure, status_exchange, status_is_success, ClientFailure, HttpMethod,
    JsonExchange,
};
use codexmate::json::JsonValue;

fn s(t: &str) -> String {
    t.to_string()
}

fn manual(url: Option<&str>) -> ApiProxyConfigPayload {
    ApiProxyConfigPayload { mode: ApiProxyMode::Manual, url: url.map(s) }
}

#[test]
fn provider_base_urls_and_endpoints() {
    assert_eq!(ApiProvider::OpenAI.base_url(), "https://api.openai.com");
    assert_eq!(ApiProvider::DeepSeek.base_url(), "https://api.deepseek.com");
    assert_eq!(ApiProvider::MiMo.base_url(), "https://api.mimo.mi.com");
    let custom = ApiProvider::Custom(s("https://llm.local"));
    assert_eq!(custom.base_url(), "https://llm.local");
    assert_eq!(ApiProvider::OpenAI.responses_endpoint(), "https://api.openai.com/v1/responses");
    assert_eq!(
        ApiProvider::DeepSeek.chat_completions_endpoint(),
        "https://api.deepseek.com/v1/chat/completions"
    );
    assert_eq!(ApiProvider::MiMo.models_endpoint(), "https://api.mimo.mi.com/v1/models");
    assert_eq!(custom.responses_endpoint(), "https://llm.local/v1/responses");
    assert_eq!(custom.chat_completions_endpoint(), "https://llm.local/v1/chat/completions");
    assert_eq!(custom.models_endpoint(), "https://llm.local/v1/models");
}

#[test]
fn provider_type_conversion() {
    for t in [ApiProviderType::OpenAI, ApiProviderType::DeepSeek, ApiProviderType::MiMo, ApiProviderType::Custom] {
        assert_eq!(provider_type_to_provider(&t, None).provider_type(), t);
    }
    assert_eq!(provider_type_to_provider(&ApiProviderType::Custom, None).base_url(), "https://api.example.com");
    assert_eq!(
        provider_type_to_provider(&ApiProviderType::Custom, Some("https://h")).base_url(),
        "https://h"
    );
    assert_eq!(
        provider_type_to_provider(&ApiProviderType::OpenAI, Some("https://h")).base_url(),
        "https://api.openai.com"
    );
}

#[test]
fn proxy_configuration_checks() {
    let direct = sanitize_proxy_config(&ApiProxyConfigPayload { mode: ApiProxyMode::Direct, url: Some(s("x")) });
    let direct = direct.ok().unwrap();
    assert_eq!(direct.mode, ApiProxyMode::Direct);
    assert!(direct.url.is_none());

    assert_eq!(
        sanitize_proxy_config(&manual(None)).err(),
        Some(s("Manual proxy mode requires a proxy URL"))
    );
    assert_eq!(sanitize_proxy_config(&manual(Some("  \t"))).err(), Some(s("Invalid proxy URL")));
    assert_eq!(
        sanitize_proxy_config(&manual(Some("not a url"))).err(),
        Some(s("Invalid proxy URL format"))
    );
    let ok = sanitize_proxy_config(&manual(Some("  http://127.0.0.1:7890 "))).ok().unwrap();
    assert_eq!(ok.mode, ApiProxyMode::Manual);
    assert_eq!(ok.url, Some(s("http://127.0.0.1:7890")));
    let again = sanitize_proxy_config(&ok).ok().unwrap();
    assert_eq!(again.url, Some(s("http://127.0.0.1:7890")));
}

#[test]
fn client_settings_follow_the_mode() {
    let c = client_settings(&manual(Some(" http://p:1 ")));
    assert_eq!(c.timeout_secs, 10);
    assert_eq!(c.proxy_url, Some(s(" http://p:1 ")));
    assert!(!c.fallback_to_default);
    let d = client_settings(&ApiProxyConfigPayload { mode: ApiProxyMode::Direct, url: Some(s("http://p")) });
    assert!(d.proxy_url.is_none());
    let e = client_settings(&direct_proxy_config());
    assert!(e.proxy_url.is_none());
    assert_eq!(
        client_failure(&c, &ClientFailure::Proxy(s("bad scheme"))),
        Some(s("Failed to create proxy: bad scheme"))
    );
    assert_eq!(
        client_failure(&c, &ClientFailure::Build(s("tls"))),
        Some(s("Failed to build HTTP client: tls"))
    );
    let lenient = codexmate::provider::probe_client_settings();
    assert_eq!(client_failure(&lenient, &ClientFailure::Build(s("tls"))), None);
}

#[test]
fn connectivity_requests() {
    let req = test_api_connectivity_request(&Ok(()), None).ok().unwrap();
    assert_eq!(req.method, HttpMethod::Get);
    assert_eq!(req.url, "https://api.openai.com/v1/models");
    assert_eq!(req.headers, vec![(s("Authorization"), s("Bearer test-key"))]);
    let failed = test_api_connectivity_request(&Err(s("no tls")), Some("k")).err().unwrap();
    assert_eq!(failed.code, "client_build_failed");
    assert!(!failed.reachable);
    assert_eq!(failed.message, "no tls");
    let mimo = test_mimo_connectivity_request(&Ok(()), Some("tp")).ok().unwrap();
    assert_eq!(mimo.url, "https://api.mimo.mi.com/v1/models");
    assert_eq!(mimo.headers, vec![(s("Authorization"), s("Bearer tp"))]);
}

#[test]
fn connectivity_results() {
    let ok = test_api_connectivity(&Ok(200));
    assert_eq!(ok.code, "ok");
    assert!(ok.reachable);
    assert_eq!(ok.status_code, Some(200));
    assert_eq!(ok.message, "API is reachable");

    let key_refused = detect_api_proxy_config(&Ok(401));
    assert_eq!(key_refused.code, "ok");
    assert!(key_refused.reachable);

    let blocked = test_api_connectivity(&Ok(403));
    assert_eq!(blocked.code, "error");
    assert!(!blocked.reachable);
    assert_eq!(blocked.message, "API returned status code: 403");

    let down = test_mimo_connectivity(&Err(s("connection refused")));
    assert_eq!(down.code, "network_error");
    assert_eq!(down.status_code, None);
    assert_eq!(down.message, "Network error: connection refused");

    let mimo = test_mimo_connectivity(&Ok(502));
    assert_eq!(mimo.message, "MiMo API returned status code: 502");
    let mimo_ok = test_mimo_connectivity(&Ok(200));
    assert_eq!(mimo_ok.message, "MiMo API is reachable");
}

#[test]
fn protocol_support_requests() {
    let p = ApiProvider::DeepSeek;
    let req = test_protocol_support_request(&p, "chat_completions", Some("k"), &Ok(())).ok().unwrap();
    assert_eq!(req.url, "https://api.deepseek.com/v1/chat/completions");
    assert_eq!(req.headers, vec![(s("Authorization"), s("Bearer k"))]);

    let unknown = test_protocol_support_request(&p, "grpc", None, &Ok(())).err().unwrap();
    assert_eq!(unknown.message, "Unknown protocol: grpc");
    assert_eq!(unknown.endpoint, "");
    assert_eq!(unknown.provider, ApiProviderType::DeepSeek);

    let no_client = test_protocol_support_request(&p, "grpc", None, &Err(s("boom"))).err().unwrap();
    assert_eq!(no_client.message, "boom");
    assert!(!no_client.supported);
}

#[test]
fn protocol_support_results() {
    let p = ApiProvider::OpenAI;
    let yes = test_protocol_support(&p, "responses", &Ok(405));
    assert!(yes.supported);
    assert_eq!(yes.status_code, Some(405));
    assert_eq!(yes.endpoint, "https://api.openai.com/v1/responses");
    assert_eq!(yes.message, "OpenAI supports responses protocol");

    let no = test_protocol_support(&ApiProvider::Custom(s("https://c")), "chat_completions", &Ok(404));
    assert!(!no.supported);
    assert_eq!(no.provider, ApiProviderType::Custom);
    assert_eq!(no.message, "Custom API does not appear to support chat_completions protocol (status: 404)");

    let err = test_protocol_support(&ApiProvider::MiMo, "responses", &Err(s("timeout")));
    assert!(!err.supported);
    assert_eq!(err.message, "Network error: timeout");
    assert_eq!(err.endpoint, "https://api.mimo.mi.com/v1/responses");

    let unknown = test_protocol_support(&p, "smtp", &Ok(200));
    assert!(!unknown.supported);
    assert_eq!(unknown.message, "Unknown protocol: smtp");
}

#[test]
fn provider_support() {
    let plan = test_provider_support_request(&ApiProviderType::Custom, Some("https://c"), None, &Ok(()))
        .ok()
        .unwrap();
    assert_eq!(plan.models.url, "https://c/v1/models");
    assert_eq!(plan.responses.url, "https://c/v1/responses");
    assert_eq!(plan.chat.url, "https://c/v1/chat/completions");
    assert_eq!(plan.chat.headers, vec![(s("Authorization"), s("Bearer test-key"))]);
    let failed = test_provider_support_request(&ApiProviderType::MiMo, None, None, &Err(s("x"))).err().unwrap();
    assert_eq!(failed.provider, ApiProviderType::MiMo);
    assert_eq!(failed.message, "x");
    assert!(failed.protocol_tests.is_empty());

    let result = test_provider_support(&ApiProviderType::MiMo, None, &Ok(403), &Ok(Ok(401)), &Ok(Ok(404)), &Ok(403));
    assert!(result.reachable);
    assert!(result.supports_responses);
    assert!(!result.supports_chat_completions);
    assert!(!result.models_available);
    assert_eq!(result.message, "MiMo is reachable");
    assert_eq!(result.protocol_tests.len(), 2);
    assert_eq!(result.protocol_tests[0].endpoint, "https://api.mimo.mi.com/v1/responses");
    assert_eq!(result.protocol_tests[0].message, "MiMo supports responses protocol");
    assert_eq!(result.protocol_tests[1].protocol, "chat_completions");

    let down = test_provider_support(&ApiProviderType::MiMo, None, &Err(s("e")), &Ok(Err(s("e"))), &Ok(Err(s("e"))), &Ok(200));
    assert!(!down.reachable);
    assert!(down.models_available);
    assert_eq!(down.message, "MiMo is not reachable");
}

#[test]
fn provider_support_of_unreachable_custom_provider() {
    let e = || Err(s("connection refused"));
    let r = test_provider_support(&ApiProviderType::Custom, None, &e(), &Ok(e()), &Ok(e()), &e());
    assert_eq!(r.provider, ApiProviderType::Custom);
    assert!(!r.reachable);
    assert!(!r.supports_responses);
    assert!(!r.supports_chat_completions);
    assert!(!r.models_available);
    assert_eq!(r.message, "Custom API is not reachable");
    assert_eq!(r.protocol_tests[0].endpoint, "https://api.example.com/v1/responses");
    assert_eq!(r.protocol_tests[1].endpoint, "https://api.example.com/v1/chat/completions");
    assert_eq!(r.protocol_tests[0].message, "Network error: connection refused");
}

#[test]
fn provider_support_reports_nested_client_failures() {
    let r = test_provider_support(
        &ApiProviderType::OpenAI,
        None,
        &Ok(200),
        &Err(s("no tls backend")),
        &Ok(Ok(405)),
        &Ok(200),
    );
    assert!(r.reachable);
    assert!(!r.supports_responses);
    assert!(r.supports_chat_completions);
    assert!(r.models_available);
    assert_eq!(r.protocol_tests[0].message, "no tls backend");
    assert_eq!(r.protocol_tests[0].endpoint, "");
    assert_eq!(r.protocol_tests[0].status_code, None);
    assert_eq!(r.protocol_tests[1].endpoint, "https://api.openai.com/v1/chat/completions");
}

#[test]
fn json_exchanges_from_replies() {
    assert!(matches!(status_exchange(Err(s("reset"))), Some(JsonExchange::SendFailed(m)) if m == "reset"));
    assert!(matches!(status_exchange(Ok(404)), Some(JsonExchange::HttpStatus(404))));
    assert!(matches!(status_exchange(Ok(302)), Some(JsonExchange::HttpStatus(302))));
    assert!(status_exchange(Ok(200)).is_none());
    assert!(status_exchange(Ok(204)).is_none());
    assert!(matches!(body_exchange(Ok(JsonValue::Null)), JsonExchange::Parsed(JsonValue::Null)));
    assert!(matches!(body_exchange(Err(s("eof"))), JsonExchange::Unparsable(m) if m == "eof"));
}

#[test]
fn test_clients_are_direct() {
    for c in [
        detect_api_proxy_config_client(),
        test_mimo_connectivity_client(),
        test_protocol_support_client(),
        test_provider_support_client(),
    ] {
        assert_eq!(c.timeout_secs, 10);
        assert!(c.proxy_url.is_none());
        assert!(!c.fallback_to_default);
    }
    let proxied = test_api_connectivity_client(&manual(Some("http://p:8")));
    assert_eq!(proxied.proxy_url, Some(s("http://p:8")));
}

#[test]
fn available_models() {
    let req = get_available_models_request(&ApiProvider::OpenAI, Some("sk"), &Ok(())).ok().unwrap();
    assert_eq!(req.url, "https://api.openai.com/v1/models");
    assert_eq!(req.headers, vec![(s("Authorization"), s("Bearer sk"))]);
    assert_eq!(
        get_available_models_request(&ApiProvider::OpenAI, None, &Err(s("no client"))).err(),
        Some(s("no client"))
    );
    let reply = JsonValue::Object(vec![(
        s("data"),
        JsonValue::Array(vec![
            JsonValue::Object(vec![(s("id"), JsonValue::Str(s("gpt-4o")))]),
            JsonValue::Null,
            JsonValue::Object(vec![(s("id"), JsonValue::Str(s("o3")))]),
        ]),
    )]);
    assert_eq!(
        get_available_models(&JsonExchange::Parsed(reply)),
        Ok(vec![s("gpt-4o"), s("o3")])
    );
    assert_eq!(
        get_available_models(&JsonExchange::HttpStatus(404)),
        Err(s("Failed to fetch models: 404 Not Found"))
    );
    assert_eq!(
        get_available_models(&JsonExchange::SendFailed(s("reset"))),
        Err(s("Request failed: reset"))
    );
    assert_eq!(
        get_available_models(&JsonExchange::Unparsable(s("bad"))),
        Err(s("Failed to parse response: bad"))
    );
}

#[test]
fn completion_requests() {
    let messages = vec![JsonValue::Object(vec![
        (s("content"), JsonValue::Str(s("hi"))),
        (s("role"), JsonValue::Str(s("user"))),
    ])];
    let req = responses_request(&ApiProvider::MiMo, "k", "mimo-v2", messages, &Ok(())).ok().unwrap();
    assert_eq!(req.method, HttpMethod::Post);
    assert_eq!(req.url, "https://api.mimo.mi.com/v1/responses");
    assert_eq!(
        req.headers,
        vec![(s("Authorization"), s("Bearer k")), (s("Content-Type"), s("application/json"))]
    );
    match req.body {
        Some(JsonValue::Object(members)) => {
            assert_eq!(members.len(), 3);
            assert_eq!(members[0].0, "messages");
            assert!(matches!(&members[0].1, JsonValue::Array(items) if items.len() == 1));
            assert!(matches!(&members[1].1, JsonValue::Str(m) if m == "mimo-v2"));
            assert!(matches!(members[2].1, JsonValue::Bool(false)));
        }
        _ => panic!("body must be an object"),
    }
    let chat = chat_completions_request(&ApiProvider::OpenAI, "k", "gpt", vec![], &Ok(())).ok().unwrap();
    assert_eq!(chat.url, "https://api.openai.com/v1/chat/completions");
    assert_eq!(
        chat_completions_request(&ApiProvider::OpenAI, "k", "gpt", vec![], &Err(s("c"))).err(),
        Some(s("c"))
    );
}

#[test]
fn completion_replies() {
    assert!(matches!(
        send_responses_request(JsonExchange::Parsed(JsonValue::Bool(true))),
        Ok(JsonValue::Bool(true))
    ));
    match send_chat_completions_request(JsonExchange::HttpStatus(429)) {
        Err(e) => assert_eq!(e, "API request failed with status: 429 Too Many Requests"),
        Ok(_) => panic!("a 429 is an error"),
    }
    match send_responses_request(JsonExchange::HttpStatus(599)) {
        Err(e) => assert_eq!(e, "API request failed with status: 599 <unknown status code>"),
        Ok(_) => panic!("a 599 is an error"),
    }
    match send_chat_completions_request(JsonExchange::SendFailed(s("eof"))) {
        Err(e) => assert_eq!(e, "Request failed: eof"),
        Ok(_) => panic!("nothing was sent"),
    }
    match send_responses_request(JsonExchange::Unparsable(s("x"))) {
        Err(e) => assert_eq!(e, "Failed to parse response: x"),
        Ok(_) => panic!("nothing was parsed"),
    }
}

#[test]
fn success_statuses() {
    assert!(status_is_success(200));
    assert!(status_is_success(299));
    assert!(!status_is_success(300));
    assert!(!status_is_success(199));
}
