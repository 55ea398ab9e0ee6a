use pngx::{ApiError, Client, Collector, PaginatedResponse, Progress};

const BASE: &str = "https://paperless.example.com";

fn client() -> Client {
    Client::new(BASE, "test-token").expect("client creation should succeed")
}

fn page(count: u64, items: std::ops::Range<u32>, next: Option<&str>) -> PaginatedResponse<u32> {
    PaginatedResponse { count, next: next.map(str::to_string), previous: None, results: items.collect() }
}

/// Answers each request of `collector` with the next of `pages`, and counts
/// the requests that were answered.
fn run(
    mut collector: Collector<u32>,
    pages: Vec<PaginatedResponse<u32>>,
) -> (Result<(Vec<u32>, u64), ApiError>, usize) {
    let mut requests = 0;
    for page in pages {
        requests += 1;
        match collector.receive(page) {
            Ok(Progress::Fetch(next)) => collector = next,
            Ok(Progress::Done(items, total)) => return (Ok((items, total)), requests),
            Err(e) => return (Err(e), requests),
        }
    }
    panic!("the collector asked for more pages than the server has");
}

fn start(limit: Option<usize>) -> Collector<u32> {
    client().paginate(format!("{BASE}/api/things/?page_size=100"), limit)
}

fn two_pages() -> Vec<PaginatedResponse<u32>> {
    vec![
        page(150, 0..100, Some("https://paperless.example.com/api/things/?page=2")),
        page(150, 100..150, None),
    ]
}

#[test]
fn single_page_without_limit() {
    let (result, requests) = run(start(None), vec![page(1, 0..1, None)]);
    let (items, total) = result.expect("collection should succeed");
    assert_eq!(items, vec![0]);
    assert_eq!(total, 1);
    assert_eq!(requests, 1);
}

#[test]
fn two_pages_without_limit() {
    let (result, requests) = run(start(None), two_pages());
    let (items, total) = result.expect("collection should succeed");
    assert_eq!(items, (0..150).collect::<Vec<u32>>());
    assert_eq!(total, 150);
    assert_eq!(requests, 2);
}

#[test]
fn limit_met_by_first_page_makes_one_request() {
    let (result, requests) = run(start(Some(50)), two_pages());
    let (items, total) = result.expect("collection should succeed");
    assert_eq!(items, (0..50).collect::<Vec<u32>>());
    assert_eq!(total, 150);
    assert_eq!(requests, 1);
}

#[test]
fn limit_equal_to_first_page_makes_one_request() {
    let (result, requests) = run(start(Some(100)), two_pages());
    let (items, total) = result.expect("collection should succeed");
    assert_eq!(items, (0..100).collect::<Vec<u32>>());
    assert_eq!(total, 150);
    assert_eq!(requests, 1);
}

#[test]
fn limit_inside_second_page_truncates() {
    let (result, requests) = run(start(Some(120)), two_pages());
    let (items, total) = result.expect("collection should succeed");
    assert_eq!(items, (0..120).collect::<Vec<u32>>());
    assert_eq!(total, 150);
    assert_eq!(requests, 2);
}

#[test]
fn limit_beyond_the_collection_returns_everything() {
    let (result, requests) = run(start(Some(1000)), two_pages());
    let (items, total) = result.expect("collection should succeed");
    assert_eq!(items.len(), 150);
    assert_eq!(total, 150);
    assert_eq!(requests, 2);
}

#[test]
fn empty_limit_returns_nothing_and_the_true_total() {
    let (result, requests) = run(start(Some(0)), two_pages());
    let (items, total) = result.expect("collection should succeed");
    assert!(items.is_empty());
    assert_eq!(total, 150);
    assert_eq!(requests, 1);
}

#[test]
fn total_is_that_of_the_first_page() {
    let pages = vec![
        page(3, 0..2, Some("https://paperless.example.com/api/things/?page=2")),
        page(99, 2..3, None),
    ];
    let (result, _) = run(start(None), pages);
    assert_eq!(result, Ok((vec![0, 1, 2], 3)));
}

#[test]
fn three_pages_keep_their_order() {
    let pages = vec![
        page(6, 4..6, Some("https://paperless.example.com/api/things/?page=2")),
        page(6, 0..2, Some("https://paperless.example.com/api/things/?page=3")),
        page(6, 2..4, None),
    ];
    let (result, requests) = run(start(None), pages);
    assert_eq!(result, Ok((vec![4, 5, 0, 1, 2, 3], 6)));
    assert_eq!(requests, 3);
}

#[test]
fn cycle_is_bounded_by_the_limit() {
    let again = "https://paperless.example.com/api/things/?page=1";
    let pages = vec![
        page(100, 0..100, Some(again)),
        page(100, 0..100, Some(again)),
        page(100, 0..100, Some(again)),
        page(100, 0..100, Some(again)),
    ];
    let (result, requests) = run(start(Some(250)), pages);
    let (items, total) = result.expect("collection should succeed");
    assert_eq!(items.len(), 250);
    assert_eq!(items[100], 0);
    assert_eq!(items[249], 49);
    assert_eq!(total, 100);
    assert_eq!(requests, 3);
}

#[test]
fn empty_pages_are_followed() {
    let pages = vec![
        page(2, 0..0, Some("https://paperless.example.com/api/things/?page=2")),
        page(2, 0..2, None),
    ];
    assert_eq!(run(start(Some(5)), pages), (Ok((vec![0, 1], 2)), 2));
}

#[test]
fn first_request_is_the_one_given() {
    let collector = start(None);
    let request = collector.request();
    assert_eq!(request.url, "https://paperless.example.com/api/things/?page_size=100");
    assert_eq!(request.accept.as_deref(), Some("application/json; version=9"));
    assert_eq!(request.authorization, "Token test-token");
    assert_eq!(collector.collected(), 0);
}

#[test]
fn next_request_goes_to_the_named_page() {
    let progress = start(None)
        .receive(page(150, 0..100, Some("HTTPS://Paperless.Example.com/api/things/?page=2")))
        .expect("the page should be accepted");
    match progress {
        Progress::Fetch(collector) => {
            let request = collector.request();
            assert_eq!(request.url, "https://paperless.example.com/api/things/?page=2");
            assert_eq!(request.accept.as_deref(), Some("application/json; version=9"));
            assert_eq!(request.authorization, "Token test-token");
            assert_eq!(collector.collected(), 100);
        }
        Progress::Done(..) => panic!("the collection is not complete"),
    }
}

#[test]
fn scheme_mismatch_is_reported() {
    let pages = vec![page(150, 0..100, Some("http://paperless.example.com/api/things/?page=2"))];
    let (result, requests) = run(start(None), pages);
    assert_eq!(
        result,
        Err(ApiError::SchemeMismatch { expected: "https".to_string(), returned: "http".to_string() })
    );
    assert_eq!(requests, 1);
}

#[test]
fn scheme_mismatch_on_a_later_page_is_reported() {
    let pages = vec![
        page(150, 0..50, Some("https://paperless.example.com/api/things/?page=2")),
        page(150, 50..100, Some("ftp://paperless.example.com/api/things/?page=3")),
    ];
    let (result, requests) = run(start(None), pages);
    assert_eq!(
        result,
        Err(ApiError::SchemeMismatch { expected: "https".to_string(), returned: "ftp".to_string() })
    );
    assert_eq!(requests, 2);
}

#[test]
fn scheme_is_not_checked_once_the_limit_is_met() {
    let pages = vec![page(150, 0..100, Some("http://paperless.example.com/api/things/?page=2"))];
    let (result, requests) = run(start(Some(100)), pages);
    assert_eq!(result, Ok(((0..100).collect(), 150)));
    assert_eq!(requests, 1);
}

#[test]
fn plain_http_server_follows_plain_http_pages() {
    let client = Client::new("http://localhost:8000", "tok").expect("client creation should succeed");
    let collector: Collector<u32> =
        client.paginate("http://localhost:8000/api/things/".to_string(), None);
    let pages = vec![
        page(2, 0..1, Some("http://localhost:8000/api/things/?page=2")),
        page(2, 1..2, None),
    ];
    assert_eq!(run(collector, pages), (Ok((vec![0, 1], 2)), 2));
}

#[test]
fn relative_next_reference_is_an_invalid_url() {
    let pages = vec![page(150, 0..100, Some("/api/things/?page=2"))];
    let (result, requests) = run(start(None), pages);
    assert_eq!(result, Err(ApiError::InvalidUrl("relative URL without a base".to_string())));
    assert_eq!(requests, 1);
}

#[test]
fn test_invalid_base_url() {
    let err = Client::new("not a url", "token").err().expect("should fail with invalid URL");
    assert!(matches!(err, ApiError::InvalidUrl(_)));
}
