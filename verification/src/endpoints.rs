//! The paid surface: which Brave Search API endpoints we proxy and what each costs.
//!
//! One table, read by the router and by both payment rails, so the path we serve, the
//! price we advertise, and the price we verify against can never drift apart. The table
//! is protocol-neutral: it names no rail and imports nothing from one.

use vstd::prelude::*;

use crate::text::same_text;

verus! {

/// Brave's Web Search and LLM Context rate, $5.00 per 1,000 requests.
pub const SEARCH_RATE: u64 = 5_000;

/// Brave's Autosuggest and Spellcheck rate, $5.00 per 10,000 requests.
pub const UTILITY_RATE: u64 = 500;

/// One paid endpoint: the path we serve, what it costs, and how we label it.
#[derive(Debug, Clone, Copy)]
pub struct Endpoint {
    /// Path we accept and forward upstream unchanged, so our route and Brave's are the
    /// same string.
    pub path: &'static str,
    /// Price for one request, in base units of the rail's currency.
    ///
    /// One number serves both rails because USDC and pathUSD both carry 6 decimals, so
    /// `5_000` is $0.005 on either. A rail with a different scale would have to convert
    /// rather than read this directly.
    pub price_base_units: u64,
    /// Label for this endpoint in the payment challenge.
    pub description: &'static str,
}

/// The mathematical value of an [`Endpoint`].
#[verifier::ext_equal]
pub struct EndpointView {
    pub path: Seq<char>,
    pub price_base_units: u64,
    pub description: Seq<char>,
}

impl View for Endpoint {
    type V = EndpointView;

    open spec fn view(&self) -> EndpointView {
        EndpointView {
            path: self.path@,
            price_base_units: self.price_base_units,
            description: self.description@,
        }
    }
}

/// An entry of the catalog.
pub open spec fn entry(path: Seq<char>, price: u64, description: Seq<char>) -> EndpointView {
    EndpointView { path, price_base_units: price, description }
}

/// Every endpoint a client can pay for.
///
/// Prices come from Brave's published rates. The rate card names only Web Search and LLM
/// Context, Autosuggest, and Spellcheck; the other search endpoints are charged the Web
/// rate, which never bills under the published tier.
///
/// The Answers API is absent on purpose. It is metered per query and per token, which a
/// fixed price cannot express.
pub open spec fn catalog() -> Seq<EndpointView> {
    seq![
        entry("/res/v1/web/search"@, SEARCH_RATE, "Brave Search API - Web / Search"@),
        entry("/res/v1/llm/context"@, SEARCH_RATE, "Brave Search API - LLM Context"@),
        entry("/res/v1/news/search"@, SEARCH_RATE, "Brave Search API - News / Search"@),
        entry("/res/v1/videos/search"@, SEARCH_RATE, "Brave Search API - Video / Search"@),
        entry("/res/v1/images/search"@, SEARCH_RATE, "Brave Search API - Image / Search"@),
        entry(
            "/res/v1/summarizer/search"@,
            SEARCH_RATE,
            "Brave Search API - Summarizer / Search"@,
        ),
        entry("/res/v1/local/place_search"@, SEARCH_RATE, "Brave Search API - Place / Search"@),
        entry("/res/v1/local/pois"@, SEARCH_RATE, "Brave Search API - Local / POIs"@),
        entry(
            "/res/v1/local/descriptions"@,
            SEARCH_RATE,
            "Brave Search API - Local / Descriptions"@,
        ),
        entry("/res/v1/suggest/search"@, UTILITY_RATE, "Brave Search API - Autosuggest"@),
        entry("/res/v1/spellcheck/search"@, UTILITY_RATE, "Brave Search API - Spellcheck"@),
    ]
}

/// The first of `endpoints` at `path`.
pub open spec fn first_at(endpoints: Seq<EndpointView>, path: Seq<char>) -> Option<EndpointView>
    decreases endpoints.len(),
{
    if endpoints.len() == 0 {
        None
    } else if endpoints[0].path == path {
        Some(endpoints[0])
    } else {
        first_at(endpoints.drop_first(), path)
    }
}

/// The endpoint sold at `path`, where one is.
pub open spec fn sold(path: Seq<char>) -> Option<EndpointView> {
    first_at(catalog(), path)
}

/// The view of an optional endpoint.
pub open spec fn endpoint_view(endpoint: Option<Endpoint>) -> Option<EndpointView> {
    match endpoint {
        Some(endpoint) => Some(endpoint@),
        None => None,
    }
}

/// The values of a list of endpoints.
pub open spec fn endpoint_views(endpoints: Seq<Endpoint>) -> Seq<EndpointView> {
    Seq::new(endpoints.len(), |i: int| endpoints[i]@)
}

/// Every endpoint a client can pay for.
pub fn endpoints() -> (all: Vec<Endpoint>)
    ensures
        endpoint_views(all@) == catalog(),
{
    let all = vec![
        Endpoint {
            path: "/res/v1/web/search",
            price_base_units: SEARCH_RATE,
            description: "Brave Search API - Web / Search",
        },
        Endpoint {
            path: "/res/v1/llm/context",
            price_base_units: SEARCH_RATE,
            description: "Brave Search API - LLM Context",
        },
        Endpoint {
            path: "/res/v1/news/search",
            price_base_units: SEARCH_RATE,
            description: "Brave Search API - News / Search",
        },
        Endpoint {
            path: "/res/v1/videos/search",
            price_base_units: SEARCH_RATE,
            description: "Brave Search API - Video / Search",
        },
        Endpoint {
            path: "/res/v1/images/search",
            price_base_units: SEARCH_RATE,
            description: "Brave Search API - Image / Search",
        },
        Endpoint {
            path: "/res/v1/summarizer/search",
            price_base_units: SEARCH_RATE,
            description: "Brave Search API - Summarizer / Search",
        },
        Endpoint {
            path: "/res/v1/local/place_search",
            price_base_units: SEARCH_RATE,
            description: "Brave Search API - Place / Search",
        },
        Endpoint {
            path: "/res/v1/local/pois",
            price_base_units: SEARCH_RATE,
            description: "Brave Search API - Local / POIs",
        },
        Endpoint {
            path: "/res/v1/local/descriptions",
            price_base_units: SEARCH_RATE,
            description: "Brave Search API - Local / Descriptions",
        },
        Endpoint {
            path: "/res/v1/suggest/search",
            price_base_units: UTILITY_RATE,
            description: "Brave Search API - Autosuggest",
        },
        Endpoint {
            path: "/res/v1/spellcheck/search",
            price_base_units: UTILITY_RATE,
            description: "Brave Search API - Spellcheck",
        },
    ];
    assert(endpoint_views(all@) == catalog());
    all
}

/// The endpoint served at `path`, or `None` for a path we do not sell.
pub fn find(path: &str) -> (found: Option<Endpoint>)
    ensures
        endpoint_view(found) == sold(path@),
{
    let all = endpoints();
    let ghost views = endpoint_views(all@);
    let mut i: usize = 0;
    assert(views.subrange(0, views.len() as int) == views);
    while i < all.len()
        invariant
            i <= all@.len() == views.len(),
            views == endpoint_views(all@),
            views == catalog(),
            sold(path@) == first_at(views.subrange(i as int, views.len() as int), path@),
        decreases all@.len() - i,
    {
        assert(views[i as int] == all@[i as int]@);
        assert(views.subrange(i as int, views.len() as int).drop_first() == views.subrange(
            i + 1,
            views.len() as int,
        ));
        if same_text(all[i].path, path) {
            return Some(all[i]);
        }
        i = i + 1;
    }
    None
}

/// Label of the payment challenge for a path outside the catalog.
pub open spec fn described_as(path: Seq<char>) -> Seq<char> {
    match sold(path) {
        Some(endpoint) => endpoint.description,
        None => "Brave Search API"@,
    }
}

/// Label of the endpoint at `path` in a payment challenge.
pub fn endpoint_description(path: &str) -> (label: &'static str)
    ensures
        label@ == described_as(path@),
{
    match find(path) {
        Some(endpoint) => endpoint.description,
        None => "Brave Search API",
    }
}

/// No path is listed twice.
pub proof fn every_path_listed_once(i: int, j: int)
    requires
        0 <= i < j < catalog().len(),
    ensures
        catalog()[i].path != catalog()[j].path,
{
    reveal_strlit("/res/v1/web/search");
    reveal_strlit("/res/v1/llm/context");
    reveal_strlit("/res/v1/news/search");
    reveal_strlit("/res/v1/videos/search");
    reveal_strlit("/res/v1/images/search");
    reveal_strlit("/res/v1/summarizer/search");
    reveal_strlit("/res/v1/local/place_search");
    reveal_strlit("/res/v1/local/pois");
    reveal_strlit("/res/v1/local/descriptions");
    reveal_strlit("/res/v1/suggest/search");
    reveal_strlit("/res/v1/spellcheck/search");
    let a = catalog()[i].path;
    let b = catalog()[j].path;
    if a == b {
        assert(a.len() == b.len());
        assert(a[8] == b[8] && a[9] == b[9] && a[14] == b[14]);
    }
}

/// A path is sold exactly where the catalog lists it, and at what the catalog says.
pub proof fn sold_is_what_the_catalog_lists(path: Seq<char>, i: int)
    requires
        0 <= i < catalog().len(),
    ensures
        sold(catalog()[i].path) == Some(catalog()[i]),
        sold(path) matches Some(endpoint) ==> endpoint.path == path && catalog().contains(endpoint),
        sold(path) is None ==> catalog()[i].path != path,
{
    assert forall|k: int| 0 <= k < i implies catalog()[k].path != catalog()[i].path by {
        every_path_listed_once(k, i);
    }
    lemma_first_at(catalog(), catalog()[i].path, i);
    lemma_found_is_listed(catalog(), path, i);
}

proof fn lemma_first_at(endpoints: Seq<EndpointView>, path: Seq<char>, i: int)
    requires
        0 <= i < endpoints.len(),
        endpoints[i].path == path,
        forall|k: int| 0 <= k < i ==> (#[trigger] endpoints[k]).path != path,
    ensures
        first_at(endpoints, path) == Some(endpoints[i]),
    decreases endpoints.len(),
{
    if i > 0 {
        lemma_first_at(endpoints.drop_first(), path, i - 1);
    }
}

proof fn lemma_found_is_listed(endpoints: Seq<EndpointView>, path: Seq<char>, i: int)
    requires
        0 <= i < endpoints.len(),
    ensures
        first_at(endpoints, path) matches Some(found) ==> found.path == path && endpoints.contains(
            found,
        ),
        first_at(endpoints, path) is None ==> endpoints[i].path != path,
    decreases endpoints.len(),
{
    let rest = endpoints.drop_first();
    if endpoints[0].path == path {
        assert(endpoints.contains(endpoints[0]));
    } else if rest.len() > 0 {
        lemma_found_is_listed(rest, path, if i > 0 { i - 1 } else { 0 });
        if let Some(found) = first_at(rest, path) {
            let k = choose|k: int| 0 <= k < rest.len() && rest[k] == found;
            assert(endpoints[k + 1] == found);
        }
    }
}

/// The utility rate applies to suggest and spellcheck, and every other endpoint costs the
/// search rate.
pub proof fn every_endpoint_has_its_rate(i: int)
    requires
        0 <= i < catalog().len(),
    ensures
        catalog()[i].price_base_units == (if catalog()[i].path == "/res/v1/suggest/search"@
            || catalog()[i].path == "/res/v1/spellcheck/search"@ {
            UTILITY_RATE
        } else {
            SEARCH_RATE
        }),
{
    if i < 9 {
        every_path_listed_once(i, 9);
        every_path_listed_once(i, 10);
    }
}

} // verus!
