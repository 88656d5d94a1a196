//! What the catalog guarantees: which paths are sold, and for how much.

use vstd::prelude::*;

use crate::endpoints::{
    catalog, endpoint_description, endpoint_views, endpoints, every_endpoint_has_its_rate, find,
    sold, sold_is_what_the_catalog_lists, Endpoint,
};

verus! {

/// Whether a path is charged the rate of suggestions and spelling.
pub open spec fn is_cheap(path: Seq<char>) -> bool {
    path == "/res/v1/suggest/search"@ || path == "/res/v1/spellcheck/search"@
}

/// Whether a path is among those a client can pay for.
pub open spec fn is_for_sale(path: Seq<char>) -> bool {
    ||| path == "/res/v1/web/search"@
    ||| path == "/res/v1/llm/context"@
    ||| path == "/res/v1/news/search"@
    ||| path == "/res/v1/videos/search"@
    ||| path == "/res/v1/images/search"@
    ||| path == "/res/v1/summarizer/search"@
    ||| path == "/res/v1/local/place_search"@
    ||| path == "/res/v1/local/pois"@
    ||| path == "/res/v1/local/descriptions"@
    ||| is_cheap(path)
}

/// What one request for a path costs, in base units.
pub open spec fn costs(path: Seq<char>, units: u64) -> bool {
    (is_cheap(path) ==> units == 500) && (!is_cheap(path) ==> units == 5000)
}

/// Whether an endpoint is the one that is sold at a path.
pub open spec fn is_sold_as(path: Seq<char>, endpoint: Endpoint) -> bool {
    &&& is_for_sale(path)
    &&& endpoint.path@ == path
    &&& costs(path, endpoint.price_base_units)
}

pub(crate) proof fn lemma_sold(path: Seq<char>)
    ensures
        sold(path) is Some <==> is_for_sale(path),
        sold(path) matches Some(endpoint) ==> endpoint.path == path && costs(
            path,
            endpoint.price_base_units,
        ),
{
    assert forall|i: int| 0 <= i < catalog().len() implies {
        let listed = #[trigger] catalog()[i];
        sold(listed.path) == Some(listed) && costs(listed.path, listed.price_base_units) && (
        sold(path) is None ==> listed.path != path)
    } by {
        sold_is_what_the_catalog_lists(path, i);
        every_endpoint_has_its_rate(i);
    }
    sold_is_what_the_catalog_lists(path, 0);
    let all = catalog();
    assert(all[0].path == "/res/v1/web/search"@ && all[1].path == "/res/v1/llm/context"@);
    assert(all[2].path == "/res/v1/news/search"@ && all[3].path == "/res/v1/videos/search"@);
    assert(all[4].path == "/res/v1/images/search"@);
    assert(all[5].path == "/res/v1/summarizer/search"@);
    assert(all[6].path == "/res/v1/local/place_search"@ && all[7].path == "/res/v1/local/pois"@);
    assert(all[8].path == "/res/v1/local/descriptions"@);
    assert(all[9].path == "/res/v1/suggest/search"@);
    assert(all[10].path == "/res/v1/spellcheck/search"@);
    if let Some(endpoint) = sold(path) {
        let i = choose|i: int| 0 <= i < all.len() && all[i] == endpoint;
        assert(all[i].path == path);
    }
}

/// A path is sold exactly where it is one of those for sale, character for character, and at
/// its price: 500 base units for suggestions and spelling, 5000 for everything else.
pub proof fn a_path_is_sold_at_its_price(path: &str, found: Option<Endpoint>)
    requires
        call_ensures(find, (path,), found),
    ensures
        match found {
            Some(endpoint) => is_sold_as(path@, endpoint),
            None => !is_for_sale(path@),
        },
{
    lemma_sold(path@);
}

/// What is listed is what is found: each listed endpoint is found at its own path, and each
/// that is found is listed.
pub proof fn what_is_listed_is_found(all: Vec<Endpoint>, path: &str, found: Option<Endpoint>)
    requires
        call_ensures(endpoints, (), all),
        call_ensures(find, (path,), found),
    ensures
        forall|i: int|
            0 <= i < all@.len() && (#[trigger] all@[i]).path@ == path@ ==> found is Some
                && found->0@ == all@[i]@,
        found is Some ==> exists|i: int| 0 <= i < all@.len() && (#[trigger] all@[i])@ == found->0@,
        found is None ==> forall|i: int| 0 <= i < all@.len() ==> (#[trigger] all@[i]).path@ != path@,
{
    let views = endpoint_views(all@);
    assert forall|i: int|
        0 <= i < all@.len() && (#[trigger] all@[i]).path@ == path@ implies found is Some
        && found->0@ == all@[i]@ by {
        assert(views[i] == all@[i]@);
        sold_is_what_the_catalog_lists(path@, i);
    }
    sold_is_what_the_catalog_lists(path@, 0);
    if let Some(endpoint) = found {
        let i = choose|i: int| 0 <= i < views.len() && views[i] == endpoint@;
        assert(all@[i]@ == endpoint@);
    }
}

/// A sold path is labelled as its endpoint is, and any other path by the name of the API
/// alone.
pub proof fn a_path_is_labelled_as_it_is_sold(
    path: &str,
    found: Option<Endpoint>,
    label: &'static str,
)
    requires
        call_ensures(find, (path,), found),
        call_ensures(endpoint_description, (path,), label),
    ensures
        match found {
            Some(endpoint) => label@ == endpoint.description@,
            None => label@ == "Brave Search API"@,
        },
{
}

/// Each endpoint is labelled for what it serves.
pub proof fn each_endpoint_has_its_label(path: &str, label: &'static str)
    requires
        call_ensures(endpoint_description, (path,), label),
    ensures
        path@ == "/res/v1/web/search"@ ==> label@ == "Brave Search API - Web / Search"@,
        path@ == "/res/v1/llm/context"@ ==> label@ == "Brave Search API - LLM Context"@,
        path@ == "/res/v1/news/search"@ ==> label@ == "Brave Search API - News / Search"@,
        path@ == "/res/v1/videos/search"@ ==> label@ == "Brave Search API - Video / Search"@,
        path@ == "/res/v1/images/search"@ ==> label@ == "Brave Search API - Image / Search"@,
        path@ == "/res/v1/summarizer/search"@ ==> label@
            == "Brave Search API - Summarizer / Search"@,
        path@ == "/res/v1/local/place_search"@ ==> label@ == "Brave Search API - Place / Search"@,
        path@ == "/res/v1/local/pois"@ ==> label@ == "Brave Search API - Local / POIs"@,
        path@ == "/res/v1/local/descriptions"@ ==> label@
            == "Brave Search API - Local / Descriptions"@,
        path@ == "/res/v1/suggest/search"@ ==> label@ == "Brave Search API - Autosuggest"@,
        path@ == "/res/v1/spellcheck/search"@ ==> label@ == "Brave Search API - Spellcheck"@,
        !is_for_sale(path@) ==> label@ == "Brave Search API"@,
{
    lemma_sold(path@);
    assert forall|i: int| 0 <= i < catalog().len() implies sold(#[trigger] catalog()[i].path)
        == Some(catalog()[i]) by {
        sold_is_what_the_catalog_lists(path@, i);
    }
    let all = catalog();
    assert(sold(all[0].path) == Some(all[0]) && sold(all[1].path) == Some(all[1]));
    assert(sold(all[2].path) == Some(all[2]) && sold(all[3].path) == Some(all[3]));
    assert(sold(all[4].path) == Some(all[4]) && sold(all[5].path) == Some(all[5]));
    assert(sold(all[6].path) == Some(all[6]) && sold(all[7].path) == Some(all[7]));
    assert(sold(all[8].path) == Some(all[8]) && sold(all[9].path) == Some(all[9]));
    assert(sold(all[10].path) == Some(all[10]));
}

} // verus!
