//! The catalog and the labels drawn from it.

use bx402::endpoints::{endpoint_description, endpoints, find, SEARCH_RATE, UTILITY_RATE};
use bx402::metrics::{endpoint_label, method_label};

#[test]
fn every_path_is_listed_once() {
    let all = endpoints();
    let distinct: std::collections::HashSet<_> =
        all.iter().map(|endpoint| endpoint.path).collect();
    assert_eq!(distinct.len(), all.len());
}

#[test]
fn the_utility_rate_applies_to_suggest_and_spellcheck() {
    let all = endpoints();
    let utility: Vec<_> = all
        .iter()
        .filter(|endpoint| endpoint.price_base_units == UTILITY_RATE)
        .map(|endpoint| endpoint.path)
        .collect();
    assert_eq!(
        utility,
        ["/res/v1/suggest/search", "/res/v1/spellcheck/search"]
    );
}

#[test]
fn find_matches_a_served_path_exactly() {
    let found = find("/res/v1/images/search").expect("images is served");
    assert_eq!(found.price_base_units, SEARCH_RATE);
    // The Answers API is not sold, and a prefix of a served path is not a
    // served path.
    assert!(find("/res/v1/chat/completions").is_none());
    assert!(find("/res/v1/images").is_none());
}

#[test]
fn every_listed_path_is_found() {
    for endpoint in endpoints() {
        let found = find(endpoint.path).expect("a listed path is served");
        assert_eq!(found.path, endpoint.path);
        assert_eq!(found.price_base_units, endpoint.price_base_units);
        assert_eq!(endpoint_description(endpoint.path), endpoint.description);
    }
    assert_eq!(endpoint_description("/nowhere"), "Brave Search API");
}

#[test]
fn labels_are_drawn_from_a_fixed_set() {
    assert_eq!(endpoint_label("/health"), "/health");
    assert_eq!(endpoint_label("/res/v1/web/search"), "/res/v1/web/search");
    assert_eq!(endpoint_label("/res/v1/web/search/"), "other");
    assert_eq!(method_label("GET"), "GET");
    assert_eq!(method_label("POST"), "POST");
    assert_eq!(method_label("HEAD"), "HEAD");
    assert_eq!(method_label("get"), "other");
    assert_eq!(method_label("BREW"), "other");
}
