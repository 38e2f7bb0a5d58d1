use opengraph::cache::OpengraphCache;
use opengraph::resolve::{resolution_of_fetch, resolution_of_lookup, FetchError, Resolution};
use opengraph::OpengraphTag;

const PAGE: &str = "<html><head><meta property=\"og:title\" content=\"T\"><meta name=\"twitter:card\" content=\"summary\"><meta name=\"description\" content=\"not qualifying\"></head></html>";

fn tags_eq(a: &[OpengraphTag], b: &[(&str, &str)]) -> bool {
    a.len() == b.len()
        && a.iter().zip(b.iter()).all(|(t, (p, c))| t.property == *p && t.content == *c)
}

/// One round of the coordinator policy over plain values, with the fetch
/// supplied by the caller so the test can count it.
fn serve(
    cache: &mut OpengraphCache,
    url: &str,
    body: &str,
    fetch_count: &mut u32,
) -> (u16, Vec<OpengraphTag>) {
    if let Some(hit) = resolution_of_lookup(cache.get_from_cache(url)) {
        return (hit.status_code(), hit.into_tags());
    }
    *fetch_count += 1;
    let res = resolution_of_fetch(Ok(body.to_string()));
    let status = res.status_code();
    let write = res.should_cache();
    let tags = res.into_tags();
    if write {
        cache.add_to_cache(url.to_string(), tags.clone());
    }
    (status, tags)
}

#[test]
fn first_resolve_fetches_and_second_is_served_from_cache() {
    let mut cache = OpengraphCache::new(10);
    let mut fetch_count: u32 = 0;
    let url = "https://example.com/page";

    let (status1, tags1) = serve(&mut cache, url, PAGE, &mut fetch_count);
    assert_eq!(status1, 200);
    assert_eq!(fetch_count, 1);
    assert!(tags_eq(&tags1, &[("og:title", "T"), ("twitter:card", "summary")]));

    let (status2, tags2) = serve(&mut cache, url, PAGE, &mut fetch_count);
    assert_eq!(status2, 200);
    assert_eq!(fetch_count, 1);
    assert!(tags_eq(&tags2, &[("og:title", "T"), ("twitter:card", "summary")]));
}

#[test]
fn a_hit_is_served_exactly_as_stored() {
    let mut cache = OpengraphCache::new(10);
    let stored = vec![OpengraphTag {
        property: "og:title".to_string(),
        content: "stored".to_string(),
    }];
    cache.add_to_cache("u".to_string(), stored);
    let res = resolution_of_lookup(cache.get_from_cache("u")).expect("hit expected");
    assert!(matches!(res, Resolution::FromCache(_)));
    assert!(!res.should_cache());
    assert_eq!(res.status_code(), 200);
    assert!(tags_eq(&res.into_tags(), &[("og:title", "stored")]));
}

#[test]
fn a_miss_decides_nothing_before_the_fetch() {
    let cache = OpengraphCache::new(10);
    assert!(resolution_of_lookup(cache.get_from_cache("cold")).is_none());
}

#[test]
fn a_fetched_body_is_extracted_and_marked_for_caching() {
    let res = resolution_of_fetch(Ok(PAGE.to_string()));
    assert!(matches!(res, Resolution::Fetched(_)));
    assert!(res.should_cache());
    assert_eq!(res.status_code(), 200);
    assert!(tags_eq(&res.into_tags(), &[("og:title", "T"), ("twitter:card", "summary")]));
}

#[test]
fn a_network_failure_yields_a_500_empty_uncached_resolution() {
    let res = resolution_of_fetch(Err(FetchError::Network));
    assert!(matches!(res, Resolution::Failed));
    assert!(!res.should_cache());
    assert_eq!(res.status_code(), 500);
    assert!(res.into_tags().is_empty());
}

#[test]
fn a_bad_status_yields_a_500_empty_uncached_resolution() {
    let res = resolution_of_fetch(Err(FetchError::Status(404)));
    assert_eq!(res.status_code(), 500);
    assert!(!res.should_cache());
    assert!(res.into_tags().is_empty());
}

#[test]
fn an_undecodable_body_yields_a_500_empty_uncached_resolution() {
    let res = resolution_of_fetch(Err(FetchError::Decode));
    assert_eq!(res.status_code(), 500);
    assert!(!res.should_cache());
    assert!(res.into_tags().is_empty());
}

#[test]
fn a_failed_resolution_is_never_inserted() {
    let mut cache = OpengraphCache::new(10);
    let res = resolution_of_fetch(Err(FetchError::Network));
    if res.should_cache() {
        cache.add_to_cache("u".to_string(), res.into_tags());
    }
    assert!(cache.get_from_cache("u").is_none());
    assert_eq!(cache.get_status().entry_count, 0);
}
