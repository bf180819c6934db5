//! The client: the requests of its operations.
//!
//! A [`UcpClient`] sends nothing. Each operation gives the request to send:
//! its method, its URL under the base URL of the configuration, and whether
//! it carries a JSON body. What comes back is judged by the functions of
//! [`crate::response`], and the answer of a streaming search is taken apart
//! by a [`crate::stream::LineDecoder`].

use vstd::prelude::*;
use vstd::utf8::encode_utf8;
use crate::config::{UcpConfig, UcpConfigView};
use crate::error::{prefixed, UcpError, UcpErrorView};

verus! {

/// Whether a byte may stand in the value of a header: any byte from 32 on
/// but 127, and the tab.
pub open spec fn is_header_value_byte(byte: u8) -> bool {
    (byte >= 32 && byte != 127) || byte == 9
}

/// Whether `bytes` can be the value of a header.
pub open spec fn is_header_value(bytes: Seq<u8>) -> bool {
    forall|i: int| 0 <= i < bytes.len() ==> is_header_value_byte(#[trigger] bytes[i])
}

/// Calls `reqwest::header::HeaderValue::from_str` and says whether it took
/// the text. It takes a text if and only if each of its bytes is 32 or more
/// and not 127, or is the tab.
#[verifier::external_body]
fn header_value_accepts(value: &str) -> (accepted: bool)
    ensures
        accepted == is_header_value(encode_utf8(value@)),
{
    reqwest::header::HeaderValue::from_str(value).is_ok()
}

/// The value of the `authorization` header for a credential.
pub open spec fn bearer(credential: Seq<char>) -> Seq<char> {
    "Bearer "@ + credential
}

/// Whether a client can be built from `config`: it has no credential, or
/// one that makes a header value.
pub open spec fn usable(config: UcpConfigView) -> bool {
    config.api_key matches Some(key) ==> is_header_value(encode_utf8(bearer(key)))
}

/// The method of a request.
#[derive(Debug, Clone, Copy, PartialEq, Eq)]
pub enum Method {
    Get,
    Post,
    Delete,
}

/// A header: its name and its value.
#[derive(Debug, Clone, PartialEq, Eq)]
pub struct Header {
    pub name: String,
    pub value: String,
}

impl View for Header {
    type V = (Seq<char>, Seq<char>);

    open spec fn view(&self) -> (Seq<char>, Seq<char>) {
        (self.name@, self.value@)
    }
}

/// The names and values of `headers`.
pub open spec fn headers_view(headers: Seq<Header>) -> Seq<(Seq<char>, Seq<char>)> {
    headers.map_values(|header: Header| header@)
}

/// A request to send.
#[derive(Debug, Clone, PartialEq, Eq)]
pub struct Request {
    pub method: Method,
    pub url: String,
    /// Whether the input of the operation is sent as a JSON body.
    pub json_body: bool,
    /// The headers of this request, beside those that every request carries.
    pub headers: Vec<Header>,
}

/// A request with its texts as sequences of characters.
pub struct RequestView {
    pub method: Method,
    pub url: Seq<char>,
    pub json_body: bool,
    pub headers: Seq<(Seq<char>, Seq<char>)>,
}

impl View for Request {
    type V = RequestView;

    open spec fn view(&self) -> RequestView {
        RequestView {
            method: self.method,
            url: self.url@,
            json_body: self.json_body,
            headers: headers_view(self.headers@),
        }
    }
}

/// A request without a body: only the method and the URL.
pub open spec fn plain_request(method: Method, url: Seq<char>) -> RequestView {
    RequestView { method, url, json_body: false, headers: Seq::empty() }
}

/// A request that posts a JSON body.
pub open spec fn json_request(url: Seq<char>) -> RequestView {
    RequestView { method: Method::Post, url, json_body: true, headers: Seq::empty() }
}

/// The URL under which memories are stored.
pub open spec fn memory_url(base: Seq<char>) -> Seq<char> {
    base + "/api/v1/memory"@
}

/// The URL of one memory of a project.
pub open spec fn memory_item_url(base: Seq<char>, project: Seq<char>, memory_id: Seq<char>) -> Seq<
    char,
> {
    base + "/api/v1/memory/"@ + project + "/"@ + memory_id
}

/// The URL of the search.
pub open spec fn search_url(base: Seq<char>) -> Seq<char> {
    base + "/api/v1/search"@
}

/// The URL of the streaming search.
pub open spec fn search_stream_url(base: Seq<char>) -> Seq<char> {
    base + "/api/v1/search/stream"@
}

/// The URL of the list of projects.
pub open spec fn projects_url(base: Seq<char>) -> Seq<char> {
    base + "/api/v1/projects"@
}

/// The URL of the statistics of a project.
pub open spec fn stats_url(base: Seq<char>, project: Seq<char>) -> Seq<char> {
    base + "/api/v1/stats/"@ + project
}

/// The URL of the health check.
pub open spec fn health_url(base: Seq<char>) -> Seq<char> {
    base + "/api/v1/health"@
}

/// The headers that every request of a client with the settings `config`
/// carries: the content type, and the credential where there is one.
pub open spec fn default_headers_of(config: UcpConfigView) -> Seq<(Seq<char>, Seq<char>)> {
    let content_type = seq![("content-type"@, "application/json"@)];
    match config.api_key {
        Some(key) => content_type.push(("authorization"@, bearer(key))),
        None => content_type,
    }
}

/// The request without a body that has the method `method` and the URL
/// `url`.
fn plain(method: Method, url: String) -> (request: Request)
    ensures
        request@ == plain_request(method, url@),
{
    let headers: Vec<Header> = Vec::new();
    assert(headers_view(headers@) == Seq::<(Seq<char>, Seq<char>)>::empty());
    Request { method, url, json_body: false, headers }
}

/// The request that posts a JSON body to `url`.
fn posting(url: String) -> (request: Request)
    ensures
        request@ == json_request(url@),
{
    let headers: Vec<Header> = Vec::new();
    assert(headers_view(headers@) == Seq::<(Seq<char>, Seq<char>)>::empty());
    Request { method: Method::Post, url, json_body: true, headers }
}

/// A client of one server.
#[derive(Debug)]
pub struct UcpClient {
    config: UcpConfig,
}

impl View for UcpClient {
    type V = UcpConfigView;

    /// The settings of the client.
    closed spec fn view(&self) -> UcpConfigView {
        self.config@
    }
}

impl UcpClient {
    /// The credential of a client makes a header value.
    #[verifier::type_invariant]
    spec fn valid(&self) -> bool {
        usable(self.config@)
    }

    /// Builds a client from `config`. Fails if and only if the configuration
    /// has a credential that cannot be sent in a header.
    pub fn new(config: UcpConfig) -> (result: Result<UcpClient, UcpError>)
        ensures
            match result {
                Ok(client) => usable(config@) && client@ == config@,
                Err(error) => !usable(config@) && error@ == UcpErrorView::ConfigError(
                    "Invalid API key format"@,
                ),
            },
    {
        let accepted = match &config.api_key {
            Some(key) => {
                let value = prefixed("Bearer ", key.as_str());
                header_value_accepts(value.as_str())
            },
            None => true,
        };
        if accepted {
            Ok(UcpClient { config })
        } else {
            Err(UcpError::ConfigError("Invalid API key format".to_string()))
        }
    }

    /// The settings of the client.
    pub fn config(&self) -> (config: &UcpConfig)
        ensures
            config@ == self@,
            usable(self@),
    {
        proof {
            use_type_invariant(self);
        }
        &self.config
    }

    /// The name under which the client announces itself.
    pub fn user_agent() -> (agent: String)
        ensures
            agent@ == "RAFT/0.1.0"@,
    {
        "RAFT/0.1.0".to_string()
    }

    /// The headers that every request of this client carries.
    pub fn default_headers(&self) -> (headers: Vec<Header>)
        ensures
            headers_view(headers@) == default_headers_of(self@),
    {
        let mut headers: Vec<Header> = Vec::new();
        let content_type = Header {
            name: "content-type".to_string(),
            value: "application/json".to_string(),
        };
        headers.push(content_type);
        assert(headers_view(headers@) == seq![("content-type"@, "application/json"@)]);
        match &self.config.api_key {
            Some(key) => {
                let authorization = Header {
                    name: "authorization".to_string(),
                    value: prefixed("Bearer ", key.as_str()),
                };
                proof {
                    assert(headers_view(headers@.push(authorization)) == headers_view(
                        headers@,
                    ).push(authorization@));
                }
                headers.push(authorization);
            },
            None => {},
        }
        headers
    }

    /// The request that stores a memory. Its body is the memory to store.
    pub fn store_memory(&self) -> (request: Request)
        ensures
            request@ == json_request(memory_url(self@.base_url)),
    {
        posting(prefixed(self.config.base_url.as_str(), "/api/v1/memory"))
    }

    /// The request that fetches one memory of a project.
    pub fn get_memory(&self, project: &str, memory_id: &str) -> (request: Request)
        ensures
            request@ == plain_request(
                Method::Get,
                memory_item_url(self@.base_url, project@, memory_id@),
            ),
    {
        plain(Method::Get, self.memory_item(project, memory_id))
    }

    /// The request that searches the memories. Its body is the query.
    pub fn search_memories(&self) -> (request: Request)
        ensures
            request@ == json_request(search_url(self@.base_url)),
    {
        posting(prefixed(self.config.base_url.as_str(), "/api/v1/search"))
    }

    /// The request that searches the memories and asks for the answer as
    /// newline-delimited JSON. Its body is the query.
    pub fn search_memories_stream(&self) -> (request: Request)
        ensures
            request@ == (RequestView {
                headers: seq![("Accept"@, "application/x-ndjson"@)],
                ..json_request(search_stream_url(self@.base_url))
            }),
    {
        let mut headers: Vec<Header> = Vec::new();
        let accept = Header {
            name: "Accept".to_string(),
            value: "application/x-ndjson".to_string(),
        };
        headers.push(accept);
        assert(headers_view(headers@) == seq![("Accept"@, "application/x-ndjson"@)]);
        Request {
            method: Method::Post,
            url: prefixed(self.config.base_url.as_str(), "/api/v1/search/stream"),
            json_body: true,
            headers,
        }
    }

    /// The request that deletes one memory of a project.
    pub fn delete_memory(&self, project: &str, memory_id: &str) -> (request: Request)
        ensures
            request@ == plain_request(
                Method::Delete,
                memory_item_url(self@.base_url, project@, memory_id@),
            ),
    {
        plain(Method::Delete, self.memory_item(project, memory_id))
    }

    /// The request that lists the projects.
    pub fn list_projects(&self) -> (request: Request)
        ensures
            request@ == plain_request(Method::Get, projects_url(self@.base_url)),
    {
        plain(Method::Get, prefixed(self.config.base_url.as_str(), "/api/v1/projects"))
    }

    /// The request that fetches the statistics of a project.
    pub fn get_stats(&self, project: &str) -> (request: Request)
        ensures
            request@ == plain_request(Method::Get, stats_url(self@.base_url, project@)),
    {
        let mut url = prefixed(self.config.base_url.as_str(), "/api/v1/stats/");
        url.append(project);
        plain(Method::Get, url)
    }

    /// The request that asks the server for its health.
    pub fn health_check(&self) -> (request: Request)
        ensures
            request@ == plain_request(Method::Get, health_url(self@.base_url)),
    {
        plain(Method::Get, prefixed(self.config.base_url.as_str(), "/api/v1/health"))
    }

    /// The URL of one memory of a project.
    fn memory_item(&self, project: &str, memory_id: &str) -> (url: String)
        ensures
            url@ == memory_item_url(self@.base_url, project@, memory_id@),
    {
        let mut url = prefixed(self.config.base_url.as_str(), "/api/v1/memory/");
        url.append(project);
        url.append("/");
        url.append(memory_id);
        url
    }
}

} // verus!
