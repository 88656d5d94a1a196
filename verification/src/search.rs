//! Proxying a paid Brave Search API endpoint upstream.

use vstd::prelude::*;
use vstd::string::*;
use vstd::utf8::*;

use crate::config::Config;
use crate::error::{
    error_reply, failure_label, joined, transport_failure, AppError, TransportError,
};
use crate::http::{bytes_of, Header, Headers, Reply, ReplyView};
use crate::text::{decimal, decimal_text};

verus! {

/// How many seconds to wait for the upstream connection to establish before giving up.
pub const SEARCH_CONNECT_TIMEOUT_SECONDS: u64 = 5;

/// Overall deadline in seconds for one upstream search, so a stalled Brave Search API cannot
/// pin the request task. A timeout relays as a `502`, like any transport failure.
pub const SEARCH_TIMEOUT_SECONDS: u64 = 15;

/// The request header that carries the API key.
pub const API_KEY_HEADER: &'static str = "X-Subscription-Token";

/// What the Brave Search API answered.
pub struct Fetched {
    pub status: u16,
    pub content_type: Option<Vec<u8>>,
    pub body: Vec<u8>,
}

/// The upstream URL of a search: the base URL, the path unchanged, and the query verbatim
/// where there is one.
pub open spec fn upstream_url(
    base: Seq<char>,
    path: Seq<char>,
    query: Option<Seq<char>>,
) -> Seq<char> {
    match query {
        Some(query) => if query.len() > 0 {
            base + path + "?"@ + query
        } else {
            base + path
        },
        None => base + path,
    }
}

/// The upstream URL of a search.
pub fn search_url(base: &str, path: &str, query: Option<&str>) -> (url: String)
    ensures
        url@ == upstream_url(
            base@,
            path@,
            match query {
                Some(query) => Some(query@),
                None => None,
            },
        ),
{
    let mut url = joined(base, path);
    match query {
        Some(query) => {
            if !query.is_empty() {
                url.append("?");
                url.append(query);
            }
        },
        None => {},
    }
    url
}

/// What is sent upstream for a search.
pub struct UpstreamRequest {
    pub method: &'static str,
    pub url: String,
    pub headers: Headers,
}

/// The headers of an upstream request: the API key, and that JSON is wanted.
pub open spec fn sent_headers(api_key: Seq<char>) -> Seq<(Seq<char>, Seq<u8>)> {
    seq![
        (API_KEY_HEADER@, encode_utf8(api_key)),
        ("accept"@, encode_utf8("application/json"@)),
    ]
}

/// The headers of an upstream request.
pub fn upstream_headers(api_key: &str) -> (headers: Headers)
    ensures
        headers@ == sent_headers(api_key@),
{
    let mut headers = Headers::new();
    headers.append(API_KEY_HEADER, api_key);
    headers.append("accept", "application/json");
    assert(headers@ == sent_headers(api_key@));
    headers
}

/// The request that proxies a search upstream: a `GET` of the path, unchanged, at the
/// configured base URL, with the query forwarded verbatim and the API key attached as a
/// header.
pub fn upstream_request(config: &Config, path: &str, query: Option<&str>) -> (request:
    UpstreamRequest)
    ensures
        request.method@ == "GET"@,
        request.url@ == upstream_url(
            config.brave_search_api_base_url@,
            path@,
            match query {
                Some(query) => Some(query@),
                None => None,
            },
        ),
        request.headers@ == sent_headers(config.brave_search_api_key@),
{
    UpstreamRequest {
        method: "GET",
        url: search_url(&config.brave_search_api_base_url, path, query),
        headers: upstream_headers(&config.brave_search_api_key),
    }
}

/// The reply that hands an upstream answer on: its status, content type, and body, byte for
/// byte. An answer that names no content type is handed on as plain bytes.
pub open spec fn relayed(fetched: Fetched) -> ReplyView {
    ReplyView {
        status: fetched.status,
        headers: seq![
            (
                "content-type"@,
                match fetched.content_type {
                    Some(content_type) => content_type@,
                    None => encode_utf8("application/octet-stream"@),
                },
            ),
        ],
        body: fetched.body@,
    }
}

/// What the client gets for a search.
pub open spec fn search_reply(fetched: Result<Fetched, TransportError>) -> ReplyView {
    match fetched {
        Ok(fetched) => relayed(fetched),
        Err(err) => error_reply(502, "upstream error"@),
    }
}

/// The label of a search: the status that came back, or the kind of failure.
pub open spec fn search_label(fetched: Result<Fetched, TransportError>) -> Seq<char> {
    match fetched {
        Ok(fetched) => decimal(fetched.status as nat),
        Err(err) => failure_label(err),
    }
}

/// The label of a search, for the record: the status that came back, or the kind of failure
/// when no response arrived.
pub fn upstream_status(fetched: &Result<Fetched, TransportError>) -> (label: String)
    ensures
        label@ == search_label(*fetched),
{
    match fetched {
        Ok(fetched) => decimal_text(fetched.status as u64),
        Err(err) => transport_failure(err).to_owned(),
    }
}

/// Relay the upstream status, content type, and body back to the caller byte-for-byte. A
/// call that brought no response becomes a `502`.
pub fn search(fetched: Result<Fetched, TransportError>) -> (reply: Reply)
    ensures
        reply@ == search_reply(fetched),
{
    match fetched {
        Ok(fetched) => {
            let value = match fetched.content_type {
                Some(content_type) => content_type,
                None => bytes_of("application/octet-stream"),
            };
            let mut entries: Vec<Header> = Vec::new();
            entries.push(Header { name: "content-type".to_owned(), value });
            let reply = Reply {
                status: fetched.status,
                headers: Headers { entries },
                body: fetched.body,
            };
            assert(reply@.headers == seq![("content-type"@, value@)]);
            reply
        },
        Err(err) => AppError::Upstream(err).into_response(),
    }
}

} // verus!
