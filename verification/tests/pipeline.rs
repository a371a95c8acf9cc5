use wikicache::cache::Cache;
use wikicache::handler::{handle_cached, handle_fetched, ApiResponse, ResponseBody};
use wikicache::orchestrate::{resolve_fetched, FetchError, FetchOutcome};

fn cat_page() -> String {
    String::from("<html><body><h1>Cat</h1><div id=\"mw-content-text\"><a href=\"/wiki/Dog\">dog</a></div></body></html>")
}

fn ok_outcome(body: String) -> FetchOutcome {
    FetchOutcome::Completed { status: 200, body }
}

#[test]
fn http_500_yields_unavailable_and_caches_nothing() {
    let mut cache = Cache::new();
    let outcome = FetchOutcome::Completed { status: 500, body: cat_page() };
    let got = resolve_fetched(&mut cache, &String::from("Ghost"), outcome);
    assert_eq!(got.unwrap_err(), FetchError::UpstreamUnavailable);
    assert!(!cache.contains(&String::from("Ghost")));
    assert_eq!(cache.access_count(&String::from("Ghost")), None);
}

#[test]
fn transport_failure_yields_unavailable() {
    let mut cache = Cache::new();
    let got = resolve_fetched(&mut cache, &String::from("Cat"), FetchOutcome::Failed);
    assert_eq!(got.unwrap_err(), FetchError::UpstreamUnavailable);
    assert!(!cache.contains(&String::from("Cat")));
}

#[test]
fn empty_body_yields_unavailable() {
    let mut cache = Cache::new();
    let outcome = FetchOutcome::Completed { status: 200, body: String::new() };
    let got = resolve_fetched(&mut cache, &String::from("Cat"), outcome);
    assert_eq!(got.unwrap_err(), FetchError::UpstreamUnavailable);
    assert!(!cache.contains(&String::from("Cat")));
}

#[test]
fn unparseable_page_yields_malformed_and_caches_nothing() {
    let mut cache = Cache::new();
    let outcome = ok_outcome(String::from("<html><body><p>bare text</p></body></html>"));
    let got = resolve_fetched(&mut cache, &String::from("Cat"), outcome);
    assert_eq!(got.unwrap_err(), FetchError::MalformedPage);
    assert!(!cache.contains(&String::from("Cat")));
}

#[test]
fn successful_resolution_returns_and_caches_the_record() {
    let mut cache = Cache::new();
    let got = resolve_fetched(&mut cache, &String::from("Cat"), ok_outcome(cat_page()))
        .expect("a parseable page must resolve");
    assert_eq!(got.slug, "Cat");
    assert_eq!(got.title, "Cat");
    assert_eq!(got.links, vec![String::from("Dog")]);
    assert!(cache.contains(&String::from("Cat")));
    assert_eq!(cache.access_count(&String::from("Cat")), Some(1));
}

/// Drives one request the way the boundary does: serve from the cache,
/// otherwise fetch through the counting stub and finish from its outcome.
fn request(cache: &mut Cache, slug: &str, upstream: &mut Vec<FetchOutcome>, fetches: &mut u32) -> ApiResponse {
    if let Some(resp) = handle_cached(cache, &String::from(slug)) {
        return resp;
    }
    *fetches += 1;
    let outcome = upstream.remove(0);
    handle_fetched(cache, &String::from(slug), outcome)
}

#[test]
fn end_to_end_caches_after_first_fetch() {
    let mut cache = Cache::new();
    let mut upstream = vec![ok_outcome(cat_page())];
    let mut fetches: u32 = 0;

    let first = request(&mut cache, "Cat", &mut upstream, &mut fetches);
    assert_eq!(fetches, 1);
    assert_eq!(first.status, 200);
    let first_record = match first.body {
        ResponseBody::Article(rec) => rec,
        ResponseBody::Problem(e) => panic!("first request failed: {:?}", e),
    };
    assert_eq!(first_record.slug, "Cat");

    let second = request(&mut cache, "Cat", &mut upstream, &mut fetches);
    assert_eq!(fetches, 1, "a cache hit must not fetch again");
    assert_eq!(second.status, 200);
    let second_record = match second.body {
        ResponseBody::Article(rec) => rec,
        ResponseBody::Problem(e) => panic!("second request failed: {:?}", e),
    };
    assert_eq!(second_record.title, first_record.title);
    assert_eq!(second_record.slug, first_record.slug);
    assert_eq!(second_record.content_html, first_record.content_html);
    assert_eq!(second_record.links, first_record.links);
}

#[test]
fn handler_maps_failures_to_distinct_statuses() {
    let mut cache = Cache::new();
    let unavailable = handle_fetched(&mut cache, &String::from("Cat"), FetchOutcome::Failed);
    assert_eq!(unavailable.status, 502);
    assert!(matches!(unavailable.body, ResponseBody::Problem(FetchError::UpstreamUnavailable)));

    let malformed = handle_fetched(
        &mut cache,
        &String::from("Cat"),
        ok_outcome(String::from("<html><body><p>nothing</p></body></html>")),
    );
    assert_eq!(malformed.status, 422);
    assert!(matches!(malformed.body, ResponseBody::Problem(FetchError::MalformedPage)));
    assert!(!cache.contains(&String::from("Cat")));
}
