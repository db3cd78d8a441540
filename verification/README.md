# codexmate

The provider layer of codexmate: probing OpenAI-compatible API providers
(OpenAI, DeepSeek, Xiaomi MiMo, custom servers) for the Responses and Chat
Completions protocols, checking proxy settings, and keeping the store of
configured providers. The decisions are proved with Verus.

- `src/` is the verified library. Every function that talks to the network
  is split where the request is sent: a `*_client` function (or
  `client_settings`, `probe_client_settings`) gives the HTTP client to send
  with, a `*_request` function says what to send (or answers at once when
  nothing is to be sent), and the function named after the operation
  computes the answer from what came back.
  - `provider.rs`: provider kinds, base URLs, authentication headers,
    protocol and model probes, and the provider store.
  - `api_client.rs`: provider endpoints, proxy configuration checks,
    connectivity, protocol and provider support tests, model listing and
    completion requests.
  - `http.rs`, `json.rs`, `text.rs`: requests and replies as plain values,
    JSON documents, and text helpers.
  - `store_laws.rs`, `laws.rs`: the laws of the store, trimming, proxy
    checks and probe results.
- `app/` sends the requests with `reqwest`, converts JSON with
  `serde_json`, reads and writes `~/.codex/codexmate/providers.json`, and
  holds the UI commands.
- `tests/` runs the library on concrete values.
