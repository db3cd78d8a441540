//! Laws of how the replies of probes and support tests are read: which
//! statuses count as supported or reachable, and which models a `/models`
//! reply lists.

use vstd::prelude::*;
use crate::api_client::{
    ApiProvider, ApiProviderType, available_models_outcome, connectivity_outcome,
    protocol_support_outcome, provider_support_outcome, type_display_name,
};
use crate::http::{JsonExchange, status_display};
use crate::json::{JsonValue, get_field, listed_models, member, model_ids};
use crate::text::decimal;
use crate::provider::{
    ProviderKind, models_outcome, probe_base, probe_outcome, protocol_probe_outcome,
    provider_probe_outcome,
};

verus! {

/// A probe reply with status `status` marks the protocol supported exactly
/// when the status is not 404, 405 or 501; 401 and 403 are supported and
/// described as an endpoint that wants authentication. Each status is
/// described by its range: 2xx answered, 401/403 authentication, 422
/// validation error, 404/405 not found, any other 4xx a bad request, 5xx
/// (501 too) a server error, anything else `HTTP <status>`. A probe whose
/// request failed is never supported and says why. The endpoint is
/// `<base>/chat/completions` for `chat_completions` and `<base>/responses`
/// for any other protocol name.
pub proof fn lemma_probe_status_sort(
    kind: ProviderKind,
    base: Seq<char>,
    protocol: Seq<char>,
    status: u16,
    error: Seq<char>,
)
    ensures
        ({
            let r = probe_outcome(kind, base, protocol, Ok::<u16, Seq<char>>(status));
            &&& r.supported <==> (status != 404 && status != 405 && status != 501)
            &&& r.status_code == Some(status)
            &&& r.message == if 200 <= status <= 299 {
                "Endpoint responded successfully"@
            } else if status == 401 || status == 403 {
                "Endpoint reachable; authentication required"@
            } else if status == 422 {
                "Endpoint reachable (validation error on probe payload)"@
            } else if status == 404 || status == 405 {
                "Endpoint not found; protocol likely unsupported"@
            } else if 400 <= status <= 499 {
                "Endpoint reachable (bad request on probe payload)"@
            } else if 500 <= status <= 599 {
                "Server error during probe"@
            } else {
                "HTTP "@ + decimal(status as nat)
            }
            &&& r.endpoint == if protocol == "chat_completions"@ {
                base + "/chat/completions"@
            } else {
                base + "/responses"@
            }
            &&& r.provider == kind.name()
            &&& r.protocol == protocol
        }),
        ({
            let r = probe_outcome(kind, base, protocol, Err::<u16, Seq<char>>(error));
            &&& !r.supported
            &&& r.status_code is None
            &&& r.message == "Request failed: "@ + error
        }),
{
}

/// Probing one protocol of a provider with a base URL: supported exactly
/// when a reply came whose status is not 404, 405 or 501.
pub proof fn lemma_protocol_probe_status(
    provider_type: Seq<char>,
    custom: Option<Seq<char>>,
    protocol: Seq<char>,
    reply: Result<u16, Seq<char>>,
)
    requires
        probe_base(provider_type, custom).len() > 0,
    ensures
        protocol_probe_outcome(provider_type, custom, protocol, reply).supported <==> match reply {
            Ok(s) => s != 404 && s != 405 && s != 501,
            Err(_) => false,
        },
{
}

/// A provider probe with a base URL supports a protocol exactly when that
/// protocol's probe got a reply whose status is not 404, 405 or 501. Its
/// message lists the two protocol flags and whether models were listed
/// when anything answered, and asks to check the base URL and network when
/// nothing did.
pub proof fn lemma_provider_probe_status(
    provider_type: Seq<char>,
    custom: Option<Seq<char>>,
    responses: Result<u16, Seq<char>>,
    chat: Result<u16, Seq<char>>,
    models: Result<Seq<Seq<char>>, Seq<char>>,
)
    requires
        probe_base(provider_type, custom).len() > 0,
    ensures
        provider_probe_outcome(provider_type, custom, responses, chat, models).supports_responses
            <==> match responses {
            Ok(s) => s != 404 && s != 405 && s != 501,
            Err(_) => false,
        },
        provider_probe_outcome(
            provider_type,
            custom,
            responses,
            chat,
            models,
        ).supports_chat_completions <==> match chat {
            Ok(s) => s != 404 && s != 405 && s != 501,
            Err(_) => false,
        },
        ({
            let r = provider_probe_outcome(provider_type, custom, responses, chat, models);
            let flag = |b: bool|
                if b {
                    "true"@
                } else {
                    "false"@
                };
            r.message == if responses is Ok || chat is Ok || models is Ok {
                "Provider reachable. responses="@ + flag(r.supports_responses)
                    + ", chat_completions="@ + flag(r.supports_chat_completions) + ", models="@
                    + flag(models is Ok)
            } else {
                "Provider unreachable. Check base URL and network."@
            }
        }),
{
}

/// A protocol support test finds the protocol supported exactly when the
/// protocol is `responses` or `chat_completions` and its endpoint answered
/// 200, 401, 403 or 405; it then says that the provider supports it, and
/// otherwise that it does not appear to, with the status. For a known
/// protocol the endpoint tested is `<base>/v1/responses` or
/// `<base>/v1/chat/completions`; any other protocol is reported unknown,
/// with no endpoint and no status. A request that failed finds no support
/// and reports a network error.
pub proof fn lemma_protocol_support_status(
    provider: ApiProvider,
    protocol: Seq<char>,
    status: u16,
    error: Seq<char>,
)
    ensures
        ({
            let r = protocol_support_outcome(provider, protocol, Ok::<u16, Seq<char>>(status));
            let known = protocol == "responses"@ || protocol == "chat_completions"@;
            &&& r.supported <==> (known && (status == 200 || status == 401 || status == 403
                || status == 405))
            &&& r.provider == provider.kind()
            &&& r.protocol == protocol
            &&& known ==> r.status_code == Some(status as int)
            &&& known ==> r.message == if r.supported {
                provider.display_name() + " supports "@ + protocol + " protocol"@
            } else {
                provider.display_name() + " does not appear to support "@ + protocol
                    + " protocol (status: "@ + decimal(status as nat) + ")"@
            }
            &&& protocol == "responses"@ ==> r.endpoint == provider.base() + "/v1/responses"@
            &&& protocol == "chat_completions"@ ==> r.endpoint == provider.base()
                + "/v1/chat/completions"@
            &&& !known ==> r.endpoint.len() == 0 && r.status_code is None && r.message
                == "Unknown protocol: "@ + protocol
        }),
        ({
            let r = protocol_support_outcome(provider, protocol, Err::<u16, Seq<char>>(error));
            &&& !r.supported
            &&& r.status_code is None
            &&& (protocol == "responses"@ || protocol == "chat_completions"@) ==> r.message
                == "Network error: "@ + error
        }),
{
    reveal_strlit("responses");
    reveal_strlit("chat_completions");
    assert("responses"@ != "chat_completions"@) by {
        assert("responses"@.len() != "chat_completions"@.len());
    }
}

/// A provider support test is reachable exactly when its first models
/// request got the status 200, 401 or 403, and says so by name; models are
/// available exactly when the models request sent last got 200.
pub proof fn lemma_provider_support_reachable(
    provider_type: ApiProviderType,
    custom_url: Option<Seq<char>>,
    first: Result<u16, Seq<char>>,
    responses: Result<Result<u16, Seq<char>>, Seq<char>>,
    chat: Result<Result<u16, Seq<char>>, Seq<char>>,
    second: Result<u16, Seq<char>>,
)
    ensures
        ({
            let r = provider_support_outcome(provider_type, custom_url, first, responses, chat, second);
            &&& r.reachable <==> match first {
                Ok(s) => s == 200 || s == 401 || s == 403,
                Err(_) => false,
            }
            &&& r.models_available <==> match second {
                Ok(s) => s == 200,
                Err(_) => false,
            }
            &&& r.message == if r.reachable {
                type_display_name(provider_type) + " is reachable"@
            } else {
                type_display_name(provider_type) + " is not reachable"@
            }
        }),
{
}

/// A connectivity test is reachable exactly when a reply came with status
/// 200 or 401, and then reports `ok` and that the API is reachable; another
/// status is an `error` naming the status; a failed send is a
/// `network_error`.
pub proof fn lemma_connectivity_status(label: Seq<char>, status: u16, error: Seq<char>)
    ensures
        ({
            let r = connectivity_outcome(label, Ok::<u16, Seq<char>>(status));
            &&& r.reachable <==> (status == 200 || status == 401)
            &&& r.status_code == Some(status as int)
            &&& r.reachable ==> r.code == "ok"@ && r.message == label + " is reachable"@
            &&& !r.reachable ==> r.code == "error"@ && r.message == label
                + " returned status code: "@ + decimal(status as nat)
        }),
        ({
            let r = connectivity_outcome(label, Err::<u16, Seq<char>>(error));
            &&& !r.reachable
            &&& r.status_code is None
            &&& r.code == "network_error"@
            &&& r.message == "Network error: "@ + error
        }),
{
}

/// The errors of listing models: the probe's list reports a failed send,
/// an HTTP status (by its number) or an unparsable body; the API client's
/// reports the same, with the status printed with its reason phrase.
pub proof fn lemma_models_errors(error: String, status: u16)
    ensures
        models_outcome(JsonExchange::SendFailed(error)) == Err::<Seq<Seq<char>>, Seq<char>>(
            "models request failed: "@ + error@,
        ),
        models_outcome(JsonExchange::HttpStatus(status)) == Err::<Seq<Seq<char>>, Seq<char>>(
            "models endpoint returned HTTP "@ + decimal(status as nat),
        ),
        models_outcome(JsonExchange::Unparsable(error)) == Err::<Seq<Seq<char>>, Seq<char>>(
            "failed to parse models JSON: "@ + error@,
        ),
        available_models_outcome(JsonExchange::SendFailed(error)) == Err::<
            Seq<Seq<char>>,
            Seq<char>,
        >("Request failed: "@ + error@),
        available_models_outcome(JsonExchange::HttpStatus(status)) == Err::<
            Seq<Seq<char>>,
            Seq<char>,
        >("Failed to fetch models: "@ + status_display(status)),
        available_models_outcome(JsonExchange::Unparsable(error)) == Err::<
            Seq<Seq<char>>,
            Seq<char>,
        >("Failed to parse response: "@ + error@),
{
}

/// The `filter_map` of a sequence that starts with `a` is what `a` gives,
/// followed by the `filter_map` of the rest.
proof fn lemma_filter_map_front<A, B>(a: A, t: Seq<A>, f: spec_fn(A) -> Option<B>)
    ensures
        (seq![a] + t).filter_map(f) == match f(a) {
            Some(b) => seq![b],
            None => Seq::<B>::empty(),
        } + t.filter_map(f),
    decreases t.len(),
{
    let head = match f(a) {
        Some(b) => seq![b],
        None => Seq::<B>::empty(),
    };
    let u = seq![a] + t;
    if t.len() == 0 {
        assert(u =~= seq![a]);
        Seq::<A>::lemma_filter_map_singleton(a, f);
        assert(head + t.filter_map(f) =~= head);
    } else {
        assert(u.drop_last() =~= seq![a] + t.drop_last());
        assert(u.last() == t.last());
        lemma_filter_map_front(a, t.drop_last(), f);
        match f(t.last()) {
            Some(b) => {
                assert(u.filter_map(f) =~= head + t.drop_last().filter_map(f) + seq![b]);
                assert(head + t.drop_last().filter_map(f) + seq![b] =~= head + t.filter_map(f));
            },
            None => {},
        }
    }
}

/// The ids read from a list of entries are the `filter_map` over them of
/// the string `id` of each.
proof fn lemma_model_ids_filter_map(entries: Seq<JsonValue>)
    ensures
        model_ids(entries) == entries.filter_map(
            |e: JsonValue|
            match get_field(e, "id"@) {
                Some(JsonValue::Str(s)) => Some(s@),
                _ => None,
            },
        ),
    decreases entries.len(),
{
    let f = |e: JsonValue|
        match get_field(e, "id"@) {
            Some(JsonValue::Str(s)) => Some(s@),
            _ => None,
        };
    if entries.len() == 0 {
    } else {
        let rest = entries.subrange(1, entries.len() as int);
        lemma_model_ids_filter_map(rest);
        assert(entries =~= seq![entries[0]] + rest);
        lemma_filter_map_front(entries[0], rest, f);
        assert(model_ids(entries) =~= entries.filter_map(f));
    }
}

/// A parsed `/models` reply lists every string `id` of its `data` array, in
/// order, and nothing else (entries without a string id are skipped, and a
/// reply without a `data` array lists nothing); both the probe's model list
/// and the API client's give exactly that list.
pub proof fn lemma_parsed_models_listed(reply: JsonValue)
    ensures
        models_outcome(JsonExchange::Parsed(reply)) == Ok::<Seq<Seq<char>>, Seq<char>>(
            listed_models(reply),
        ),
        available_models_outcome(JsonExchange::Parsed(reply)) == Ok::<
            Seq<Seq<char>>,
            Seq<char>,
        >(listed_models(reply)),
        listed_models(reply) == match get_field(reply, "data"@) {
            Some(JsonValue::Array(entries)) => entries@.filter_map(
                |e: JsonValue|
                match get_field(e, "id"@) {
                    Some(JsonValue::Str(s)) => Some(s@),
                    _ => None,
                },
            ),
            _ => Seq::<Seq<char>>::empty(),
        },
{
    if let Some(JsonValue::Array(entries)) = get_field(reply, "data"@) {
        lemma_model_ids_filter_map(entries@);
    }
}

/// Reading a member of an object finds the first member with the key.
pub proof fn lemma_member_first(members: Seq<(String, JsonValue)>, key: Seq<char>, i: int)
    requires
        0 <= i < members.len(),
        members[i].0@ == key,
        forall|j: int| 0 <= j < i ==> members[j].0@ != key,
    ensures
        member(members, key) == Some(members[i].1),
    decreases i,
{
    if i > 0 {
        let rest = members.subrange(1, members.len() as int);
        assert forall|j: int| 0 <= j < i - 1 implies rest[j].0@ != key by {
            assert(rest[j] == members[j + 1]);
        }
        lemma_member_first(rest, key, i - 1);
    }
}

/// An object with no member of the key has no such member to read.
pub proof fn lemma_member_absent(members: Seq<(String, JsonValue)>, key: Seq<char>)
    requires
        forall|j: int| 0 <= j < members.len() ==> members[j].0@ != key,
    ensures
        member(members, key) is None,
    decreases members.len(),
{
    if members.len() > 0 {
        let rest = members.subrange(1, members.len() as int);
        assert forall|j: int| 0 <= j < rest.len() implies rest[j].0@ != key by {
            assert(rest[j] == members[j + 1]);
        }
        lemma_member_absent(rest, key);
    }
}

} // verus!
