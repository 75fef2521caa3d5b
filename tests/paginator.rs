use modrinth::params::ProjectSearchParams;
use modrinth::search::{get_search_iter, Error, PaginatorPhase, SearchResultsPaginator, Step};
use modrinth::types::{ProjectResult, SearchResults, Timestamp};

fn record(id: u64, downloads: i64, follows: i64) -> ProjectResult {
    ProjectResult {
        project_id: id,
        project_type: "mod".to_string(),
        slug: Some(format!("p{}", id)),
        author: "someone".to_string(),
        title: format!("Project {}", id),
        description: String::new(),
        categories: vec!["fabric".to_string()],
        versions: vec!["1.20.1".to_string()],
        downloads,
        follows,
        icon_url: String::new(),
        date_created: Timestamp { seconds: 1_600_000_000, nanos: 0 },
        date_modified: Timestamp { seconds: 1_700_000_000, nanos: 5 },
        license: "MIT".to_string(),
        client_side: "required".to_string(),
        server_side: "optional".to_string(),
        gallery: vec![],
    }
}

fn page(hits: Vec<ProjectResult>, offset: usize, limit: usize, total_hits: usize) -> SearchResults {
    SearchResults { hits, offset, limit, total_hits }
}

fn expect_fetch(p: &mut SearchResultsPaginator) -> String {
    match p.poll() {
        Step::Fetch(url) => url,
        other => panic!("expected a fetch, got {:?}", other),
    }
}

#[test]
fn probe_then_pages_yield_all_records_in_order() {
    let (r1, r2, r3) = (record(1, 10, 1), record(2, 20, 2), record(3, 30, 3));
    let mut p = SearchResultsPaginator::new(ProjectSearchParams::default(), None);
    assert_eq!(p.size_hint(), (0, None));
    assert_eq!(expect_fetch(&mut p), "https://api.modrinth.com/v2/search?limit=1");
    let first = p.deliver(Ok(page(vec![r1.clone()], 0, 1, 3)));
    assert_eq!(first, Some(r1));
    assert_eq!(p.size_hint(), (0, Some(3)));
    assert_eq!(expect_fetch(&mut p), "https://api.modrinth.com/v2/search?offset=1");
    assert_eq!(p.deliver(Ok(page(vec![r2.clone(), r3.clone()], 1, 10, 3))), Some(r2));
    assert_eq!(p.poll(), Step::Yield(r3));
    assert_eq!(expect_fetch(&mut p), "https://api.modrinth.com/v2/search?offset=3");
    assert_eq!(p.deliver(Ok(page(vec![], 3, 10, 3))), None);
    assert_eq!(p.poll(), Step::Done);
    assert_eq!(p.poll(), Step::Done);
    assert_eq!(p.error(), &None);
    assert_eq!(p.phase(), PaginatorPhase::Exhausted);
    assert_eq!(p.size_hint(), (0, Some(3)));
}

#[test]
fn transport_failure_ends_sequence_and_is_kept() {
    let r1 = record(1, 5, 5);
    let mut p = get_search_iter(ProjectSearchParams::default(), Some("token-123".to_string()));
    assert_eq!(p.token(), &Some("token-123".to_string()));
    expect_fetch(&mut p);
    assert_eq!(p.deliver(Ok(page(vec![r1.clone()], 0, 1, 5))), Some(r1));
    expect_fetch(&mut p);
    let failure = Error::TransportFailure("connection reset".to_string());
    assert_eq!(p.deliver(Err(failure.clone())), None);
    assert_eq!(p.error(), &Some(failure));
    assert_eq!(p.phase(), PaginatorPhase::Failed);
    assert_eq!(p.poll(), Step::Done);
    assert_eq!(p.poll(), Step::Done);
}

#[test]
fn failed_probe_leaves_total_unknown() {
    let mut p = SearchResultsPaginator::new(ProjectSearchParams::default(), None);
    expect_fetch(&mut p);
    assert_eq!(p.deliver(Err(Error::DecodeFailure("missing hits".to_string()))), None);
    assert_eq!(p.size_hint(), (0, None));
    assert_eq!(p.poll(), Step::Done);
}

#[test]
fn offset_advances_by_records_received() {
    let params = ProjectSearchParams { offset: Some(5), limit: Some(10), ..Default::default() };
    let mut p = SearchResultsPaginator::new(params, None);
    assert_eq!(expect_fetch(&mut p), "https://api.modrinth.com/v2/search?offset=5&limit=1");
    p.deliver(Ok(page(vec![record(1, 0, 0)], 5, 1, 9)));
    assert_eq!(p.cursor_value(), 6);
    assert_eq!(expect_fetch(&mut p), "https://api.modrinth.com/v2/search?offset=6&limit=10");
    p.deliver(Ok(page(vec![record(2, 0, 0), record(3, 0, 0), record(4, 0, 0)], 6, 10, 9)));
    assert_eq!(p.cursor_value(), 9);
    assert!(matches!(p.poll(), Step::Yield(_)));
    assert!(matches!(p.poll(), Step::Yield(_)));
    assert_eq!(expect_fetch(&mut p), "https://api.modrinth.com/v2/search?offset=9&limit=10");
}

#[test]
fn sentinel_counters_pass_through() {
    let r = record(7, -1, 1500);
    let mut p = SearchResultsPaginator::new(ProjectSearchParams::default(), None);
    expect_fetch(&mut p);
    let got = p.deliver(Ok(page(vec![r], 0, 1, 1))).unwrap();
    assert_eq!(got.downloads, -1);
    assert_eq!(got.follows, 1500);
}

#[test]
fn empty_probe_ends_sequence() {
    let mut p = SearchResultsPaginator::new(ProjectSearchParams::default(), None);
    expect_fetch(&mut p);
    assert_eq!(p.deliver(Ok(page(vec![], 0, 1, 0))), None);
    assert_eq!(p.poll(), Step::Done);
    assert_eq!(p.size_hint(), (0, Some(0)));
}
