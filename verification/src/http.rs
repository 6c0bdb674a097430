//! What the three adapters share of HTTP: the endpoint, the headers, the
//! status codes and the failures of the transport.

use crate::json::Json;
use crate::normalized::{ProviderError, ProviderErrorView};
use crate::text::{decimal, occurs_at, trim_end, without_trailing};
use std::time::Duration;
use vstd::prelude::*;

verus! {

/// A client of the `reqwest` crate.
#[verifier::external_type_specification]
#[verifier::external_body]
pub struct ExClient(reqwest::Client);

/// How long a duration is, in nanoseconds.
pub uninterp spec fn duration_nanos(duration: Duration) -> nat;

/// `Duration::from_millis` makes a duration that is as many milliseconds long.
pub assume_specification[ Duration::from_millis ](millis: u64) -> (duration: Duration)
    ensures
        duration_nanos(duration) == millis * 1_000_000,
;

/// What a client was built with: its user agent, and in nanoseconds how long it
/// waits for a connection.
pub uninterp spec fn client_settings(client: reqwest::Client) -> (Seq<char>, nat);

/// Builds a client with `reqwest::Client::builder`, `user_agent`,
/// `connect_timeout` and `build`. A client that comes of it has the settings
/// that it was given. Whether one does rests on the machine and is left unsaid;
/// a failure is rendered with its `Display`.
#[verifier::external_body]
fn build_client(user_agent: &str, connect_timeout: Duration) -> (client: Result<
    reqwest::Client,
    String,
>)
    ensures
        client matches Ok(built) ==> client_settings(built) == (
            user_agent@,
            duration_nanos(connect_timeout),
        ),
{
    reqwest::Client::builder().user_agent(user_agent).connect_timeout(
        connect_timeout,
    ).build().map_err(|e| e.to_string())
}

/// Every character may stand in the value of a header: tabs, and what is no
/// control character of ASCII.
pub open spec fn header_text(text: Seq<char>) -> bool {
    forall|i: int|
        0 <= i < text.len() ==> (#[trigger] text[i] as u32 == 9 || (text[i] as u32 >= 32
            && text[i] as u32 != 127))
}

/// Calls `reqwest::header::HeaderValue::from_str`, which accepts a text where
/// each of its bytes is a tab, or at least 32 and not 127. The bytes of a
/// character beyond ASCII are all above 127.
#[verifier::external_body]
fn is_header_value(text: &str) -> (accepted: bool)
    ensures
        accepted == header_text(text@),
{
    reqwest::header::HeaderValue::from_str(text).is_ok()
}

/// How `reqwest::StatusCode` is displayed.
pub uninterp spec fn status_text(code: u16) -> Seq<char>;

/// Renders a status code with the `Display` of `reqwest::StatusCode`: the code,
/// a blank and its reason phrase. The phrases are left unsaid.
#[verifier::external_body]
fn render_status(code: u16) -> (text: String)
    requires
        100 <= code <= 999,
    ensures
        text@ == status_text(code),
        occurs_at(text@, decimal(code as nat).push(' '), 0),
{
    reqwest::StatusCode::from_u16(code).map(|status| status.to_string()).unwrap_or_default()
}

/// The name under which the adapters introduce themselves.
pub const USER_AGENT: &'static str = "mcpg-plugin-backend-llm-gemini/1.0";

/// A header of a request.
pub struct Header {
    pub name: String,
    pub value: String,
}

impl View for Header {
    type V = (Seq<char>, Seq<char>);

    open spec fn view(&self) -> (Seq<char>, Seq<char>) {
        (self.name@, self.value@)
    }
}

/// What a list of headers says.
pub open spec fn header_views(headers: Seq<Header>) -> Seq<(Seq<char>, Seq<char>)> {
    headers.map_values(|header: Header| header@)
}

/// The headers of every request: the body is JSON, and the key travels in a
/// header of its own.
pub open spec fn request_headers(api_key: Seq<char>) -> Seq<(Seq<char>, Seq<char>)> {
    seq![("content-type"@, "application/json"@), ("x-goog-api-key"@, api_key)]
}

/// A request that is ready to be sent.
pub struct HttpRequest {
    pub url: String,
    pub headers: Vec<Header>,
    pub body: Json,
}

/// Why a client is of no use for an endpoint, or why the endpoint is none.
pub open spec fn endpoint_error(
    client: Result<reqwest::Client, String>,
    base_url: Seq<char>,
    complaint: Seq<char>,
) -> Option<ProviderErrorView> {
    match client {
        Err(text) => Some(
            ProviderErrorView::Network { message: "build http client: "@ + text@ },
        ),
        Ok(_) => if base_url.len() == 0 {
            Some(ProviderErrorView::BadRequest { message: complaint })
        } else {
            None
        },
    }
}

/// A client of the adapters': it introduces itself by their name, and waits for
/// a connection as long as it is told.
pub open spec fn built_for(client: reqwest::Client, connect_timeout: Duration) -> bool {
    client_settings(client) == (USER_AGENT@, duration_nanos(connect_timeout))
}

/// Where requests go, and with which key.
pub struct Endpoint {
    client: reqwest::Client,
    base_url: String,
    api_key: String,
}

impl Endpoint {
    /// The base of every URL: up to and with the API version, without a slash
    /// at its end.
    pub closed spec fn base(self) -> Seq<char> {
        self.base_url@
    }

    /// The key.
    pub closed spec fn key(self) -> Seq<char> {
        self.api_key@
    }

    /// The client.
    pub closed spec fn sender(self) -> reqwest::Client {
        self.client
    }

    /// The endpoint for a client; `complaint` is what an empty base is answered
    /// with.
    pub fn with_client(
        client: Result<reqwest::Client, String>,
        base_url: &str,
        api_key: &str,
        complaint: &str,
    ) -> (made: Result<Endpoint, ProviderError>)
        ensures
            match made {
                Ok(endpoint) => {
                    &&& endpoint_error(client, base_url@, complaint@) is None
                    &&& endpoint.base() == without_trailing(base_url@, '/')
                    &&& endpoint.key() == api_key@
                    &&& client == Ok::<reqwest::Client, String>(endpoint.sender())
                },
                Err(error) => endpoint_error(client, base_url@, complaint@) == Some(error@),
            },
    {
        let client = match client {
            Ok(client) => client,
            Err(text) => {
                let mut message: String = "build http client: ".to_owned();
                message.append(text.as_str());
                return Err(ProviderError::Network { message });
            },
        };
        if base_url.is_empty() {
            return Err(ProviderError::BadRequest { message: complaint.to_owned() });
        }
        Ok(Endpoint { client, base_url: trim_end(base_url, '/'), api_key: api_key.to_owned() })
    }

    /// The endpoint for a client of its own. Whether there is one rests on the
    /// machine; an empty base is refused in any case.
    pub fn new(base_url: &str, api_key: &str, connect_timeout: Duration, complaint: &str) -> (made:
        Result<Endpoint, ProviderError>)
        ensures
            match made {
                Ok(endpoint) => {
                    &&& base_url@.len() > 0
                    &&& endpoint.base() == without_trailing(base_url@, '/')
                    &&& endpoint.key() == api_key@
                    &&& built_for(endpoint.sender(), connect_timeout)
                },
                Err(error) => exists|client: Result<reqwest::Client, String>| #[trigger]
                    endpoint_error(client, base_url@, complaint@) == Some(error@),
            },
    {
        let client = build_client(USER_AGENT, connect_timeout);
        Endpoint::with_client(client, base_url, api_key, complaint)
    }

    /// The client.
    pub fn client(&self) -> (client: &reqwest::Client)
        ensures
            *client == self.sender(),
    {
        &self.client
    }

    /// The URL of a method of a model.
    pub fn url(&self, model: &str, method: &str) -> (url: String)
        ensures
            url@ == model_url(self.base(), model@, method@),
    {
        let mut url: String = self.base_url.clone();
        url.append("/models/");
        url.append(model);
        url.append(method);
        url
    }

    /// The base of every URL.
    pub fn base_url(&self) -> (base: &str)
        ensures
            base@ == self.base(),
    {
        self.base_url.as_str()
    }

    /// Whether the key is empty.
    pub fn key_is_empty(&self) -> (empty: bool)
        ensures
            empty == (self.key().len() == 0),
    {
        self.api_key.as_str().is_empty()
    }

    /// The headers of every request, where the key can stand in one.
    pub fn headers(&self) -> (headers: Result<Vec<Header>, ProviderError>)
        ensures
            match headers {
                Ok(list) => header_text(self.key()) && header_views(list@) == request_headers(
                    self.key(),
                ),
                Err(error) => !header_text(self.key()) && error@ == unsendable_key(),
            },
    {
        if !is_header_value(self.api_key.as_str()) {
            return Err(
                ProviderError::BadRequest {
                    message: "api_key contains characters not allowed in HTTP headers".to_owned(),
                },
            );
        }
        let mut list: Vec<Header> = Vec::new();
        list.push(
            Header { name: "content-type".to_owned(), value: "application/json".to_owned() },
        );
        list.push(Header { name: "x-goog-api-key".to_owned(), value: self.api_key.clone() });
        assert(header_views(list@) =~= request_headers(self.key()));
        Ok(list)
    }
}

impl Endpoint {
    /// The headers of every request, where the key is not empty and can stand
    /// in one.
    pub fn keyed_headers(&self) -> (headers: Result<Vec<Header>, ProviderError>)
        ensures
            match headers {
                Ok(list) => key_error(self.key()) is None && header_views(list@)
                    == request_headers(self.key()),
                Err(error) => key_error(self.key()) == Some(error@),
            },
    {
        if self.key_is_empty() {
            return Err(ProviderError::AuthFailed { message: "api_key is empty".to_owned() });
        }
        self.headers()
    }
}

/// What is said of a key that is empty, or that no header can carry.
pub open spec fn key_error(key: Seq<char>) -> Option<ProviderErrorView> {
    if key.len() == 0 {
        Some(ProviderErrorView::AuthFailed { message: "api_key is empty"@ })
    } else if !header_text(key) {
        Some(unsendable_key())
    } else {
        None
    }
}

/// The URL of a method of a model.
pub open spec fn model_url(base: Seq<char>, model: Seq<char>, method: Seq<char>) -> Seq<char> {
    base + "/models/"@ + model + method
}

/// What is said of a key that no header can carry.
pub open spec fn unsendable_key() -> ProviderErrorView {
    ProviderErrorView::BadRequest {
        message: "api_key contains characters not allowed in HTTP headers"@,
    }
}

/// A status code that reports success.
pub open spec fn is_success(status: u16) -> bool {
    200 <= status <= 299
}

/// What is said of a status code that no rule covers.
pub open spec fn unexpected_status(status: u16, body: Seq<char>) -> ProviderErrorView {
    ProviderErrorView::Network {
        message: "unexpected status "@ + status_text(status) + ": "@ + body,
    }
}

/// What is said of a status code that no rule covers.
pub(crate) fn unexpected_status_error(status: u16, body: &str) -> (error: ProviderError)
    requires
        100 <= status <= 999,
    ensures
        error@ == unexpected_status(status, body@),
{
    let mut message: String = "unexpected status ".to_owned();
    message.append(render_status(status).as_str());
    message.append(": ");
    message.append(body);
    ProviderError::Network { message }
}

/// A failure of the transport: what kinds it is of, and what it says.
#[derive(Debug)]
pub struct TransportFailure {
    pub timeout: bool,
    pub connect: bool,
    pub request: bool,
    pub body: bool,
    pub decode: bool,
    pub text: String,
}

/// What a failure of the transport is reported as: the first kind that it is of
/// goes before what it says.
pub open spec fn transport_error(failure: TransportFailure) -> ProviderErrorView {
    ProviderErrorView::Network {
        message: if failure.timeout {
            "timeout: "@ + failure.text@
        } else if failure.connect {
            "connect failed: "@ + failure.text@
        } else if failure.request || failure.body || failure.decode {
            "transport: "@ + failure.text@
        } else {
            failure.text@
        },
    }
}

/// Reports a failure of the transport.
pub fn map_transport_error(failure: &TransportFailure) -> (error: ProviderError)
    ensures
        error@ == transport_error(*failure),
{
    let prefix: &str = if failure.timeout {
        "timeout: "
    } else if failure.connect {
        "connect failed: "
    } else if failure.request || failure.body || failure.decode {
        "transport: "
    } else {
        return ProviderError::Network { message: failure.text.clone() };
    };
    let mut message: String = prefix.to_owned();
    message.append(failure.text.as_str());
    ProviderError::Network { message }
}

/// Reports that the transport failed at a stage of a call.
pub fn network_error(stage: &str, text: &str) -> (error: ProviderError)
    ensures
        error@ == (ProviderErrorView::Network { message: stage@ + ": "@ + text@ }),
{
    let mut message: String = stage.to_owned();
    message.append(": ");
    message.append(text);
    ProviderError::Network { message }
}

/// Reports a reply whose body is no JSON.
pub(crate) fn unparsed_error(prefix: &str, text: &str) -> (error: ProviderError)
    ensures
        error@ == (ProviderErrorView::Malformed { message: prefix@ + text@ }),
{
    let mut message: String = prefix.to_owned();
    message.append(text);
    ProviderError::Malformed { message }
}

} // verus!
