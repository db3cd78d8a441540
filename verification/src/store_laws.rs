//! Laws of the provider store: what inserting a configuration, making a
//! provider active and stripping secrets keep and change.

use vstd::prelude::*;
use crate::provider::{
    ConfigView, ProviderKind, StoreView, activate, first_of_kind, has_kind, kind_index,
    kind_named, lemma_first_of_kind_unique, lemma_kind_index, sanitized_view, upsert_store,
    upserted, without_key,
};
use crate::text::lowercased;

verus! {

/// No two configurations of the list have the same kind.
pub open spec fn unique_kinds(ps: Seq<ConfigView>) -> bool {
    forall|i: int, j: int| 0 <= i < j < ps.len() ==> ps[i].provider_type != ps[j].provider_type
}

/// The configuration of kind `k` that the list holds (its first one).
pub open spec fn config_of(ps: Seq<ConfigView>, k: ProviderKind) -> Option<ConfigView> {
    if has_kind(ps, k) {
        Some(ps[kind_index(ps, k)])
    } else {
        None
    }
}

/// After an upsert the store holds the inserted configuration for its kind.
pub proof fn lemma_upsert_stores_config(ps: Seq<ConfigView>, c: ConfigView)
    ensures
        config_of(upserted(ps, c), c.provider_type) == Some(c),
{
    let k = c.provider_type;
    let res = upserted(ps, c);
    if has_kind(ps, k) {
        lemma_kind_index(ps, k);
        let i = kind_index(ps, k);
        assert(first_of_kind(res, k, i));
        lemma_kind_index(res, k);
        lemma_first_of_kind_unique(res, k, i, kind_index(res, k));
    } else {
        let n = ps.len() as int;
        assert(first_of_kind(res, k, n));
        lemma_kind_index(res, k);
        lemma_first_of_kind_unique(res, k, n, kind_index(res, k));
    }
}

/// An upsert leaves the configuration of every other kind as it was.
pub proof fn lemma_upsert_keeps_other_kinds(ps: Seq<ConfigView>, c: ConfigView, k: ProviderKind)
    requires
        k != c.provider_type,
    ensures
        config_of(upserted(ps, c), k) == config_of(ps, k),
{
    let res = upserted(ps, c);
    if has_kind(ps, c.provider_type) {
        lemma_kind_index(ps, c.provider_type);
    }
    // At every position of both lists, the kind is `k` in one exactly when
    // it is `k` in the other, and then the configurations are the same.
    assert forall|j: int| 0 <= j < ps.len() implies (res[j].provider_type == k) == (
    ps[j].provider_type == k) && (res[j].provider_type == k ==> res[j] == ps[j]) by {
        if has_kind(ps, c.provider_type) {
            lemma_kind_index(ps, c.provider_type);
        }
    }
    if has_kind(ps, k) {
        lemma_kind_index(ps, k);
        let i = kind_index(ps, k);
        assert(res[i].provider_type == k);
        assert forall|j: int| 0 <= j < i implies res[j].provider_type != k by {
            assert(ps[j].provider_type != k);
        }
        assert(first_of_kind(res, k, i));
        lemma_kind_index(res, k);
        lemma_first_of_kind_unique(res, k, i, kind_index(res, k));
    } else {
        if has_kind(res, k) {
            let w = choose|j: int| 0 <= j < res.len() && res[j].provider_type == k;
            if w < ps.len() {
                assert(ps[w].provider_type == k);
            }
        }
    }
}

/// An upsert keeps the kinds of a store unique.
pub proof fn lemma_upsert_keeps_kinds_unique(ps: Seq<ConfigView>, c: ConfigView)
    requires
        unique_kinds(ps),
    ensures
        unique_kinds(upserted(ps, c)),
{
    let res = upserted(ps, c);
    if has_kind(ps, c.provider_type) {
        lemma_kind_index(ps, c.provider_type);
        let i = kind_index(ps, c.provider_type);
        assert forall|a: int, b: int| 0 <= a < b < res.len() implies res[a].provider_type
            != res[b].provider_type by {
            assert(res[a].provider_type == ps[a].provider_type);
            assert(res[b].provider_type == ps[b].provider_type);
        }
    } else {
        assert forall|a: int, b: int| 0 <= a < b < res.len() implies res[a].provider_type
            != res[b].provider_type by {
            if b == ps.len() {
                assert(ps[a].provider_type != c.provider_type);
            }
        }
    }
}

/// Upserting the same configuration twice is upserting it once.
pub proof fn lemma_upsert_idempotent(ps: Seq<ConfigView>, c: ConfigView)
    ensures
        upserted(upserted(ps, c), c) == upserted(ps, c),
{
    let res = upserted(ps, c);
    lemma_upsert_stores_config(ps, c);
    lemma_kind_index(res, c.provider_type);
    assert(res.update(kind_index(res, c.provider_type), c) =~= res);
}

/// An upsert adds one configuration when none of its kind was there, and
/// none otherwise.
pub proof fn lemma_upsert_length(ps: Seq<ConfigView>, c: ConfigView)
    ensures
        upserted(ps, c).len() == ps.len() + if has_kind(ps, c.provider_type) {
            0int
        } else {
            1int
        },
{
    if has_kind(ps, c.provider_type) {
        lemma_kind_index(ps, c.provider_type);
    }
}

/// Removing the key keeps the kind.
proof fn lemma_strip_keeps_kinds(ps: Seq<ConfigView>, k: ProviderKind)
    ensures
        has_kind(ps.map_values(|c: ConfigView| without_key(c)), k) == has_kind(ps, k),
        forall|i: int|
            first_of_kind(ps.map_values(|c: ConfigView| without_key(c)), k, i) == first_of_kind(
                ps,
                k,
                i,
            ),
{
    let qs = ps.map_values(|c: ConfigView| without_key(c));
    assert forall|j: int| 0 <= j < ps.len() implies qs[j].provider_type == ps[j].provider_type by {}
    assert forall|i: int| first_of_kind(qs, k, i) == first_of_kind(ps, k, i) by {
        if 0 <= i < ps.len() {
            assert forall|j: int| 0 <= j < i implies qs[j].provider_type == ps[j].provider_type by {}
        }
    }
    if has_kind(ps, k) {
        let w = choose|j: int| 0 <= j < ps.len() && ps[j].provider_type == k;
        assert(qs[w].provider_type == k);
    }
    if has_kind(qs, k) {
        let w = choose|j: int| 0 <= j < qs.len() && qs[j].provider_type == k;
        assert(ps[w].provider_type == k);
    }
}

/// Stripping secrets twice is stripping them once.
pub proof fn lemma_sanitize_idempotent(s: StoreView)
    ensures
        sanitized_view(sanitized_view(s)) == sanitized_view(s),
{
    assert(sanitized_view(sanitized_view(s)).providers =~= sanitized_view(s).providers);
}

/// A configuration without its key keeps its kind, name, base URL, protocol
/// flags, model list and default model; only the key is gone.
pub proof fn lemma_without_key_fields(c: ConfigView)
    ensures
        without_key(c).api_key is None,
        without_key(c).provider_type == c.provider_type,
        without_key(c).name == c.name,
        without_key(c).base_url == c.base_url,
        without_key(c).supports_responses == c.supports_responses,
        without_key(c).supports_chat_completions == c.supports_chat_completions,
        without_key(c).model_list == c.model_list,
        without_key(c).default_model == c.default_model,
{
}

/// A sanitized store holds no key, and each of its configurations is the
/// configuration it came from with only the key removed: kind, name, base
/// URL, protocol flags, model list and default model are unchanged.
pub proof fn lemma_sanitized_has_no_keys(s: StoreView)
    ensures
        sanitized_view(s).providers.len() == s.providers.len(),
        forall|i: int|
            0 <= i < s.providers.len() ==> {
                &&& (#[trigger] sanitized_view(s).providers[i]).api_key is None
                &&& sanitized_view(s).providers[i] == without_key(s.providers[i])
                &&& sanitized_view(s).providers[i].provider_type == s.providers[i].provider_type
                &&& sanitized_view(s).providers[i].name == s.providers[i].name
                &&& sanitized_view(s).providers[i].base_url == s.providers[i].base_url
                &&& sanitized_view(s).providers[i].supports_responses
                    == s.providers[i].supports_responses
                &&& sanitized_view(s).providers[i].supports_chat_completions
                    == s.providers[i].supports_chat_completions
                &&& sanitized_view(s).providers[i].model_list == s.providers[i].model_list
                &&& sanitized_view(s).providers[i].default_model == s.providers[i].default_model
            },
        sanitized_view(s).active_provider == s.active_provider,
        sanitized_view(s).active_model == s.active_model,
{
}

/// Stripping secrets after an upsert is upserting the stripped configuration
/// into the stripped store.
pub proof fn lemma_sanitize_upsert_commute(s: StoreView, c: ConfigView)
    ensures
        sanitized_view(upsert_store(s, c)) == upsert_store(sanitized_view(s), without_key(c)),
{
    let ps = s.providers;
    let k = c.provider_type;
    let qs = ps.map_values(|x: ConfigView| without_key(x));
    lemma_strip_keeps_kinds(ps, k);
    if has_kind(ps, k) {
        lemma_kind_index(ps, k);
        lemma_kind_index(qs, k);
        lemma_first_of_kind_unique(ps, k, kind_index(ps, k), kind_index(qs, k));
        assert(upserted(ps, c).map_values(|x: ConfigView| without_key(x)) =~= upserted(
            qs,
            without_key(c),
        ));
    } else {
        assert(upserted(ps, c).map_values(|x: ConfigView| without_key(x)) =~= upserted(
            qs,
            without_key(c),
        ));
    }
}

/// Once a configuration of a kind is upserted, making that kind active
/// succeeds (whatever name selects the kind), and sets the active provider
/// and model.
pub proof fn lemma_activate_after_upsert(
    s: StoreView,
    c: ConfigView,
    provider_type: Seq<char>,
    model: Option<Seq<char>>,
)
    requires
        kind_named(lowercased(provider_type)) == Some(c.provider_type),
    ensures
        activate(upsert_store(s, c), provider_type, model) == Ok::<StoreView, Seq<char>>(
            StoreView {
                providers: upserted(s.providers, c),
                active_provider: Some(c.provider_type),
                active_model: model,
            },
        ),
{
    lemma_upsert_stores_config(s.providers, c);
}

/// Making a provider active never changes the configured providers, and
/// succeeds exactly when the name selects a kind that is configured; it then
/// sets that kind and the model as active. An unknown name, or a kind with
/// no configuration, is refused with its own message.
pub proof fn lemma_activate_keeps_providers(
    s: StoreView,
    provider_type: Seq<char>,
    model: Option<Seq<char>>,
)
    ensures
        activate(s, provider_type, model) is Ok <==> (match kind_named(lowercased(provider_type)) {
            Some(k) => has_kind(s.providers, k),
            None => false,
        }),
        activate(s, provider_type, model) matches Ok(t) ==> t.providers == s.providers
            && t.active_provider == kind_named(lowercased(provider_type)) && t.active_model
            == model,
        kind_named(lowercased(provider_type)) is None ==> activate(s, provider_type, model)
            == Err::<StoreView, Seq<char>>("unknown provider type: "@ + provider_type),
        (kind_named(lowercased(provider_type)) matches Some(k) && !has_kind(s.providers, k))
            ==> activate(s, provider_type, model) == Err::<StoreView, Seq<char>>(
            "provider '"@ + provider_type + "' is not configured; add it first"@,
        ),
{
}

/// Stripping secrets and making a provider active can be done in either
/// order.
pub proof fn lemma_sanitize_activate_commute(
    s: StoreView,
    provider_type: Seq<char>,
    model: Option<Seq<char>>,
)
    ensures
        match activate(s, provider_type, model) {
            Ok(t) => activate(sanitized_view(s), provider_type, model) == Ok::<StoreView, Seq<char>>(
                sanitized_view(t),
            ),
            Err(e) => activate(sanitized_view(s), provider_type, model) == Err::<StoreView, Seq<char>>(e),
        },
{
    if let Some(k) = kind_named(lowercased(provider_type)) {
        lemma_strip_keeps_kinds(s.providers, k);
    }
}

} // verus!
