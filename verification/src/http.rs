//! HTTP exchanges as plain values: what the library asks to have sent, and
//! what came back.

use vstd::prelude::*;
use crate::json::{JsonValue, JsonView};
use crate::text::{decimal, join2};

verus! {

/// The HTTP method of a request.
#[derive(Clone, Copy, Debug, PartialEq, Eq, Structural)]
pub enum HttpMethod {
    Get,
    Post,
}

/// A request to send: method, URL, headers in order, and an optional JSON body.
pub struct HttpRequest {
    pub method: HttpMethod,
    pub url: String,
    pub headers: Vec<(String, String)>,
    pub body: Option<JsonValue>,
}

/// The mathematical form of a request.
pub struct RequestView {
    pub method: HttpMethod,
    pub url: Seq<char>,
    pub headers: Seq<(Seq<char>, Seq<char>)>,
    pub body: Option<JsonView>,
}

/// The texts of a list of headers.
pub open spec fn header_views(h: Seq<(String, String)>) -> Seq<(Seq<char>, Seq<char>)> {
    h.map_values(|p: (String, String)| (p.0@, p.1@))
}

impl View for HttpRequest {
    type V = RequestView;

    open spec fn view(&self) -> RequestView {
        RequestView {
            method: self.method,
            url: self.url@,
            headers: header_views(self.headers@),
            body: match self.body {
                Some(b) => Some(b@),
                None => None,
            },
        }
    }
}

/// How to build the HTTP client that sends requests: its timeout, the proxy
/// that all its traffic goes through (if any), and whether a failure to
/// build it falls back to a client with default settings.
pub struct ClientSettings {
    pub timeout_secs: u64,
    pub proxy_url: Option<String>,
    pub fallback_to_default: bool,
}

/// What came of a request whose reply is read as JSON: it could not be sent;
/// the server answered with a status that is not a success (the body is not
/// read); the body was parsed; or the body could not be parsed. Built by
/// `status_exchange` and `body_exchange`, which never put a success status
/// in `HttpStatus`.
pub enum JsonExchange {
    SendFailed(String),
    HttpStatus(u16),
    Parsed(JsonValue),
    Unparsable(String),
}

/// Why an HTTP client could not be built: the proxy URL was refused, or the
/// builder failed; each carries the text of the error.
pub enum ClientFailure {
    Proxy(String),
    Build(String),
}

/// What follows a failure to build a client: `None` when a client with
/// default settings is used instead (a failed build, for settings that fall
/// back), else the error message.
pub fn client_failure(settings: &ClientSettings, failure: &ClientFailure) -> (r: Option<String>)
    ensures
        match *failure {
            ClientFailure::Proxy(d) => r matches Some(m) && m@ == "Failed to create proxy: "@ + d@,
            ClientFailure::Build(d) => if settings.fallback_to_default {
                r is None
            } else {
                r matches Some(m) && m@ == "Failed to build HTTP client: "@ + d@
            },
        },
{
    match failure {
        ClientFailure::Proxy(d) => Some(join2("Failed to create proxy: ", d.as_str())),
        ClientFailure::Build(d) => if settings.fallback_to_default {
            None
        } else {
            Some(join2("Failed to build HTTP client: ", d.as_str()))
        },
    }
}

/// A status in `200..=299`.
pub open spec fn success_status(code: u16) -> bool {
    200 <= code <= 299
}

/// Whether the status is a success (`StatusCode::is_success`): only then is
/// the body of a JSON reply read.
pub fn status_is_success(code: u16) -> (r: bool)
    ensures
        r == success_status(code),
{
    200 <= code && code <= 299
}

/// What came of a JSON request as far as its status tells: the send failed,
/// or the status is not a success (both final); `None` when the status is a
/// success and the body is to be read (see `body_exchange`).
pub fn status_exchange(reply: Result<u16, String>) -> (r: Option<JsonExchange>)
    ensures
        match reply {
            Err(e) => r matches Some(JsonExchange::SendFailed(m)) && m@ == e@,
            Ok(code) => if success_status(code) {
                r is None
            } else {
                r == Some(JsonExchange::HttpStatus(code))
            },
        },
        r matches Some(JsonExchange::HttpStatus(code)) ==> !success_status(code),
{
    match reply {
        Err(e) => Some(JsonExchange::SendFailed(e)),
        Ok(code) => if status_is_success(code) {
            None
        } else {
            Some(JsonExchange::HttpStatus(code))
        },
    }
}

/// What came of a JSON request whose success reply's body was read: the
/// parsed body, or the text of the parse error.
pub fn body_exchange(body: Result<JsonValue, String>) -> (r: JsonExchange)
    ensures
        match body {
            Ok(v) => r == JsonExchange::Parsed(v),
            Err(e) => r matches JsonExchange::Unparsable(m) && m@ == e@,
        },
{
    match body {
        Ok(v) => JsonExchange::Parsed(v),
        Err(e) => JsonExchange::Unparsable(e),
    }
}

/// The text of a reply to a send: the status, or the transport error's text.
pub open spec fn reply_view(reply: Result<u16, String>) -> Result<u16, Seq<char>> {
    match reply {
        Ok(code) => Ok(code),
        Err(e) => Err(e@),
    }
}

/// What `reqwest::StatusCode` prints for a status (its number and reason
/// phrase).
pub uninterp spec fn status_display(code: u16) -> Seq<char>;

/// `StatusCode::from_u16(code)` printed with `{}`. The text is named
/// `status_display`. For a code in `100..=999` it is the number, a space and
/// the reason phrase (`"{} {}"` in http's `Display` for `StatusCode`); the
/// reason phrases themselves are not stated. For any other code `from_u16`
/// fails, and its error prints "invalid status code".
#[verifier::external_body]
pub(crate) fn status_text(code: u16) -> (r: String)
    ensures
        r@ == status_display(code),
        100 <= code <= 999 ==> exists|reason: Seq<char>| r@ == decimal(code as nat) + " "@ + reason,
        !(100 <= code <= 999) ==> r@ == "invalid status code"@,
{
    match reqwest::StatusCode::from_u16(code) {
        Ok(status) => status.to_string(),
        Err(e) => e.to_string(),
    }
}

/// The decimal text of a status, as `as_u16()` prints.
pub open spec fn status_number(code: u16) -> Seq<char> {
    decimal(code as nat)
}

} // verus!
