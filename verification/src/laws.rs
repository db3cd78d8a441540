//! Laws of trimming, base URLs, proxy checks and probe results.

use vstd::prelude::*;
use crate::api_client::{
    ApiProvider, ApiProviderType, ApiProxyMode, ProxyView, connectivity_outcome,
    endpoint_exists, protocol_endpoint, protocol_failure, protocol_support_outcome,
    provider_support_outcome,
    sanitized_proxy, type_base, type_display_name,
};
use crate::provider::{
    ProviderKind, probe_base, probe_outcome, probe_path, probe_unsupported,
    protocol_probe_outcome, provider_probe_outcome, resolved_base,
};
use crate::text::{
    decimal, is_white_space, trim_end_char_spec, trim_end_spec, trim_spec,
    trim_start_spec,
};

verus! {

proof fn lemma_trim_start_shape(s: Seq<char>)
    ensures
        trim_start_spec(s).len() <= s.len(),
        trim_start_spec(s) == s.subrange(s.len() - trim_start_spec(s).len(), s.len() as int),
        trim_start_spec(s).len() == 0 || !is_white_space(trim_start_spec(s)[0]),
    decreases s.len(),
{
    if s.len() > 0 && is_white_space(s[0]) {
        lemma_trim_start_shape(s.drop_first());
        let t = trim_start_spec(s.drop_first());
        assert(s.drop_first().subrange(s.len() - 1 - t.len(), s.len() - 1) =~= s.subrange(
            s.len() - t.len(),
            s.len() as int,
        ));
    } else {
        assert(s.subrange(0, s.len() as int) =~= s);
    }
}

proof fn lemma_trim_end_shape(s: Seq<char>)
    ensures
        trim_end_spec(s).len() <= s.len(),
        trim_end_spec(s) == s.subrange(0, trim_end_spec(s).len() as int),
        trim_end_spec(s).len() == 0 || !is_white_space(trim_end_spec(s).last()),
    decreases s.len(),
{
    if s.len() > 0 && is_white_space(s.last()) {
        lemma_trim_end_shape(s.drop_last());
        let t = trim_end_spec(s.drop_last());
        assert(s.drop_last().subrange(0, t.len() as int) =~= s.subrange(0, t.len() as int));
    } else {
        assert(s.subrange(0, s.len() as int) =~= s);
    }
}

/// Trimmed text neither starts nor ends with whitespace.
pub proof fn lemma_trim_edges(s: Seq<char>)
    ensures
        trim_spec(s).len() == 0 || (!is_white_space(trim_spec(s)[0]) && !is_white_space(
            trim_spec(s).last(),
        )),
{
    let t = trim_start_spec(s);
    lemma_trim_start_shape(s);
    lemma_trim_end_shape(t);
    let u = trim_end_spec(t);
    if u.len() > 0 {
        assert(u[0] == t[0]);
    }
}

/// Trimming trimmed text changes nothing.
pub proof fn lemma_trim_idempotent(s: Seq<char>)
    ensures
        trim_spec(trim_spec(s)) == trim_spec(s),
{
    let u = trim_spec(s);
    lemma_trim_edges(s);
    if u.len() > 0 {
        assert(trim_start_spec(u) == u);
        assert(trim_end_spec(u) == u);
    } else {
        assert(trim_start_spec(u) == u);
        assert(trim_end_spec(u) == u);
    }
}

proof fn lemma_trim_end_char_last(s: Seq<char>, c: char)
    ensures
        trim_end_char_spec(s, c).len() == 0 || trim_end_char_spec(s, c).last() != c,
    decreases s.len(),
{
    if s.len() > 0 && s.last() == c {
        lemma_trim_end_char_last(s.drop_last(), c);
    }
}

/// A base URL taken from a custom URL never ends with a slash.
pub proof fn lemma_custom_base_has_no_trailing_slash(kind: ProviderKind, custom: Seq<char>)
    requires
        trim_spec(custom).len() > 0,
    ensures
        resolved_base(kind, Some(custom)) == trim_end_char_spec(trim_spec(custom), '/'),
        resolved_base(kind, Some(custom)).len() == 0 || resolved_base(kind, Some(custom)).last()
            != '/',
{
    lemma_trim_end_char_last(trim_spec(custom), '/');
}

/// A blank or missing custom URL gives the kind's default base URL.
pub proof fn lemma_blank_custom_uses_default(kind: ProviderKind, custom: Option<Seq<char>>)
    requires
        custom matches Some(u) ==> trim_spec(u).len() == 0,
    ensures
        resolved_base(kind, custom) == kind.default_url(),
{
}

/// A checked proxy configuration passes the check again unchanged.
pub proof fn lemma_sanitize_proxy_idempotent(c: ProxyView)
    ensures
        sanitized_proxy(c) matches Ok(d) ==> sanitized_proxy(d) == Ok::<ProxyView, Seq<char>>(d),
{
    if let Some(u) = c.url {
        lemma_trim_idempotent(u);
    }
}

/// A direct configuration is always accepted, and carries no URL.
pub proof fn lemma_direct_proxy_accepted(c: ProxyView)
    requires
        c.mode == ApiProxyMode::Direct,
    ensures
        sanitized_proxy(c) == Ok::<ProxyView, Seq<char>>(
            ProxyView { mode: ApiProxyMode::Direct, url: None },
        ),
{
}

/// A protocol is reported supported exactly when its probe got a reply other
/// than 404, 405 or 501; a status is recorded exactly when a reply came; and
/// the probed endpoint is the protocol's path under the base URL.
pub proof fn lemma_probe_supported(
    kind: ProviderKind,
    base: Seq<char>,
    protocol: Seq<char>,
    reply: Result<u16, Seq<char>>,
)
    ensures
        probe_outcome(kind, base, protocol, reply).supported <==> (reply matches Ok(s)
            && !probe_unsupported(s)),
        probe_outcome(kind, base, protocol, reply).status_code is Some <==> reply is Ok,
        probe_outcome(kind, base, protocol, reply).endpoint == base + probe_path(protocol),
        probe_outcome(kind, base, protocol, reply).provider == kind.name(),
{
}

/// A provider probe reports what its two protocol probes found, in order;
/// the provider is reachable exactly when either probe got a reply or the
/// models were listed. Without a base URL nothing is reachable or supported.
pub proof fn lemma_provider_probe_summary(
    provider_type: Seq<char>,
    custom: Option<Seq<char>>,
    responses: Result<u16, Seq<char>>,
    chat: Result<u16, Seq<char>>,
    models: Result<Seq<Seq<char>>, Seq<char>>,
)
    ensures
        ({
            let r = provider_probe_outcome(provider_type, custom, responses, chat, models);
            if probe_base(provider_type, custom).len() == 0 {
                &&& !r.reachable
                &&& !r.supports_responses
                &&& !r.supports_chat_completions
                &&& !r.models_available
                &&& r.protocol_tests.len() == 0
            } else {
                &&& r.protocol_tests.len() == 2
                &&& r.supports_responses == r.protocol_tests[0].supported
                &&& r.supports_chat_completions == r.protocol_tests[1].supported
                &&& r.protocol_tests[0].protocol == "responses"@
                &&& r.protocol_tests[1].protocol == "chat_completions"@
                &&& r.models_available == models is Ok
                &&& r.reachable == (responses is Ok || chat is Ok || models is Ok)
            }
        }),
{
}

/// The protocol results inside a provider probe are the results that probing
/// each protocol alone gives for the same replies.
pub proof fn lemma_provider_probe_matches_protocol_probes(
    provider_type: Seq<char>,
    custom: Option<Seq<char>>,
    responses: Result<u16, Seq<char>>,
    chat: Result<u16, Seq<char>>,
    models: Result<Seq<Seq<char>>, Seq<char>>,
)
    requires
        probe_base(provider_type, custom).len() > 0,
    ensures
        provider_probe_outcome(provider_type, custom, responses, chat, models).protocol_tests[0]
            == protocol_probe_outcome(provider_type, custom, "responses"@, responses),
        provider_probe_outcome(provider_type, custom, responses, chat, models).protocol_tests[1]
            == protocol_probe_outcome(provider_type, custom, "chat_completions"@, chat),
{
}

/// A connectivity test reports `ok` exactly when the API is reachable.
pub proof fn lemma_connectivity_code(label: Seq<char>, reply: Result<u16, Seq<char>>)
    ensures
        connectivity_outcome(label, reply).reachable <==> connectivity_outcome(label, reply).code
            == "ok"@,
        connectivity_outcome(label, reply).reachable ==> (reply matches Ok(s) && (s == 200 || s
            == 401)),
{
    reveal_strlit("ok");
    reveal_strlit("error");
    reveal_strlit("network_error");
    assert("error"@ != "ok"@) by {
        assert("error"@.len() != "ok"@.len());
    }
    assert("network_error"@ != "ok"@) by {
        assert("network_error"@.len() != "ok"@.len());
    }
}

/// A protocol test reports support only for a known protocol whose endpoint
/// answered 200, 401, 403 or 405.
pub proof fn lemma_protocol_support_needs_reply(
    provider: ApiProvider,
    protocol: Seq<char>,
    reply: Result<u16, Seq<char>>,
)
    ensures
        protocol_support_outcome(provider, protocol, reply).supported ==> {
            &&& protocol_endpoint(provider, protocol) is Some
            &&& (reply matches Ok(s) && endpoint_exists(s))
        },
        protocol_support_outcome(provider, protocol, reply).provider == provider.kind(),
{
}

/// A provider support test reports, in order, the responses and chat
/// completions protocol tests of its own provider (the one that
/// `provider_type_to_provider` gives for its type and URL) for what those
/// tests got (a client failure, or a reply), and its support flags are
/// theirs.
pub proof fn lemma_provider_support_tests_its_provider(
    provider_type: ApiProviderType,
    custom_url: Option<Seq<char>>,
    provider: ApiProvider,
    first: Result<u16, Seq<char>>,
    responses: Result<Result<u16, Seq<char>>, Seq<char>>,
    chat: Result<Result<u16, Seq<char>>, Seq<char>>,
    second: Result<u16, Seq<char>>,
)
    requires
        provider.kind() == provider_type,
        provider.base() == type_base(provider_type, custom_url),
        provider.display_name() == type_display_name(provider_type),
    ensures
        ({
            let r = provider_support_outcome(provider_type, custom_url, first, responses, chat, second);
            &&& r.provider == provider_type
            &&& r.protocol_tests.len() == 2
            &&& r.protocol_tests[0] == match responses {
                Err(e) => protocol_failure(provider, "responses"@, e),
                Ok(reply) => protocol_support_outcome(provider, "responses"@, reply),
            }
            &&& r.protocol_tests[1] == match chat {
                Err(e) => protocol_failure(provider, "chat_completions"@, e),
                Ok(reply) => protocol_support_outcome(provider, "chat_completions"@, reply),
            }
            &&& r.supports_responses == r.protocol_tests[0].supported
            &&& r.supports_chat_completions == r.protocol_tests[1].supported
        }),
{
}

/// The decimal text of a number is made of digits and has no leading zero.
pub proof fn lemma_decimal_digits(n: nat)
    ensures
        decimal(n).len() > 0,
        forall|i: int| 0 <= i < decimal(n).len() ==> '0' <= #[trigger] decimal(n)[i] <= '9',
        n > 0 ==> decimal(n)[0] != '0',
    decreases n,
{
    if n >= 10 {
        lemma_decimal_digits(n / 10);
        let d = decimal(n / 10);
        assert(decimal(n)[0] == d[0]);
        assert forall|i: int| 0 <= i < decimal(n).len() implies '0' <= #[trigger] decimal(n)[i]
            <= '9' by {
            if i < d.len() {
                assert(decimal(n)[i] == d[i]);
            }
        }
    }
}

} // verus!
