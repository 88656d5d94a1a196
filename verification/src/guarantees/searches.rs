//! What proxying a search guarantees: what is sent upstream, and what is relayed.

use vstd::prelude::*;
use vstd::utf8::*;

use crate::config::Config;
use crate::error::TransportError;
use crate::guarantees::replies::{has_only, lemma_one_header, tells};
use crate::guarantees::texts::{decimal_writes_the_number, writes};
use crate::http::{Headers, Reply};
use crate::search::{
    search, search_url, upstream_headers, upstream_request, upstream_status, Fetched,
    UpstreamRequest,
};

verus! {

/// Whether a URL is the base, then the path, then the query behind a question mark where
/// there is a query that is not empty, each character for character.
pub open spec fn is_verbatim(
    url: Seq<char>,
    base: Seq<char>,
    path: Seq<char>,
    query: Option<&str>,
) -> bool {
    let front = base.len() + path.len();
    &&& front <= url.len()
    &&& forall|i: int| 0 <= i < base.len() ==> #[trigger] url[i] == base[i]
    &&& forall|i: int| base.len() <= i < front ==> #[trigger] url[i] == path[i - base.len()]
    &&& match query {
        Some(query) if query@.len() > 0 => {
            &&& url.len() == front + 1 + query@.len()
            &&& url[front as int] == '?'
            &&& forall|i: int|
                front + 1 <= i < url.len() ==> #[trigger] url[i] == query@[i - front - 1]
        },
        _ => url.len() == front,
    }
}

/// The path and the query are forwarded as they came: the upstream URL is the base URL with
/// them behind it, character for character.
pub proof fn a_search_is_forwarded_verbatim(
    base: &str,
    path: &str,
    query: Option<&str>,
    url: String,
)
    requires
        call_ensures(search_url, (base, path, query), url),
    ensures
        is_verbatim(url@, base@, path@, query),
{
    reveal_strlit("?");
}

/// Different queries go to different URLs.
pub proof fn queries_are_told_apart_upstream(
    base: &str,
    path: &str,
    first: &str,
    second: &str,
    first_url: String,
    second_url: String,
)
    requires
        call_ensures(search_url, (base, path, Some(first)), first_url),
        call_ensures(search_url, (base, path, Some(second)), second_url),
        first@ != second@,
    ensures
        first_url@ != second_url@,
{
    a_search_is_forwarded_verbatim(base, path, Some(first), first_url);
    a_search_is_forwarded_verbatim(base, path, Some(second), second_url);
    if first_url@ == second_url@ {
        let front = base@.len() + path@.len();
        assert(first@.len() == second@.len());
        assert forall|i: int| 0 <= i < first@.len() implies first@[i] == second@[i] by {
            assert(first_url@[front + 1 + i] == first@[i]);
            assert(second_url@[front + 1 + i] == second@[i]);
        }
        assert(first@ =~= second@);
    }
}

/// Whether headers are those of an upstream request: the API key, and that JSON is wanted.
pub open spec fn are_sent_with(headers: Headers, api_key: Seq<char>) -> bool {
    &&& headers.entries@.len() == 2
    &&& headers.entries@[0].name@ == "X-Subscription-Token"@
    &&& headers.entries@[0].value@ == encode_utf8(api_key)
    &&& headers.entries@[1].name@ == "accept"@
    &&& headers.entries@[1].value@ == encode_utf8("application/json"@)
}

/// The API key goes upstream as it is, in the header for it, and nothing of the client's
/// request goes with it.
pub proof fn the_key_goes_upstream(api_key: &str, headers: Headers)
    requires
        call_ensures(upstream_headers, (api_key,), headers),
    ensures
        are_sent_with(headers, api_key@),
{
    assert(headers@.len() == 2);
    assert(headers@[0] == ("X-Subscription-Token"@, encode_utf8(api_key@)));
    assert(headers@[1] == ("accept"@, encode_utf8("application/json"@)));
}

/// What is sent upstream is a `GET` of the path at the configured base URL, with the query
/// verbatim and the configured key.
pub proof fn a_search_is_sent_with_the_configured_key(
    config: &Config,
    path: &str,
    query: Option<&str>,
    request: UpstreamRequest,
)
    requires
        call_ensures(upstream_request, (config, path, query), request),
    ensures
        request.method@ == "GET"@,
        is_verbatim(request.url@, config.brave_search_api_base_url@, path@, query),
        are_sent_with(request.headers, config.brave_search_api_key@),
{
    reveal_strlit("?");
    let headers = request.headers;
    assert(headers@.len() == 2);
    assert(headers@[0] == ("X-Subscription-Token"@, encode_utf8(config.brave_search_api_key@)));
    assert(headers@[1] == ("accept"@, encode_utf8("application/json"@)));
}

/// What the upstream answered is relayed byte for byte: its status, its body, and its content
/// type where it names one. A call that brought no answer is a `502`, whatever went wrong.
pub proof fn an_answer_is_relayed_byte_for_byte(
    fetched: Result<Fetched, TransportError>,
    reply: Reply,
)
    requires
        call_ensures(search, (fetched,), reply),
    ensures
        match fetched {
            Ok(answer) => {
                &&& reply.status == answer.status
                &&& reply.body@ == answer.body@
                &&& answer.content_type matches Some(content_type) ==> has_only(
                    reply,
                    "content-type"@,
                    content_type@,
                )
                &&& answer.content_type is None ==> has_only(
                    reply,
                    "content-type"@,
                    encode_utf8("application/octet-stream"@),
                )
            },
            Err(_) => tells(reply, 502, "upstream error"@),
        },
{
    match fetched {
        Ok(answer) => {
            let value = match answer.content_type {
                Some(content_type) => content_type@,
                None => encode_utf8("application/octet-stream"@),
            };
            lemma_one_header(reply, "content-type"@, value);
        },
        Err(_) => {
            lemma_one_header(reply, "content-type"@, encode_utf8("application/json"@));
        },
    }
}

/// A search that was answered is labelled with the number of its status.
pub proof fn an_answer_is_labelled_with_its_status(
    fetched: &Result<Fetched, TransportError>,
    label: String,
)
    requires
        call_ensures(upstream_status, (fetched,), label),
    ensures
        match *fetched {
            Ok(answer) => writes(label@, answer.status as int),
            Err(err) => {
                &&& err.timeout ==> label@ == "timeout"@
                &&& err.connect && !err.timeout ==> label@ == "connect"@
                &&& err.decode && !err.connect && !err.timeout ==> label@ == "decode"@
                &&& !err.decode && !err.connect && !err.timeout ==> label@ == "transport"@
            },
        },
{
    if let Ok(answer) = *fetched {
        decimal_writes_the_number(answer.status as nat);
    }
}

} // verus!
