//! Provider layer for OpenAI-compatible APIs: endpoint construction,
//! protocol probing decisions, proxy configuration checks and the
//! provider store, with their contracts proved by Verus.

pub mod api_client;
pub mod http;
pub mod json;
pub mod laws;
pub mod provider;
pub mod reply_laws;
pub mod request_laws;
pub mod store_laws;
pub mod text;
