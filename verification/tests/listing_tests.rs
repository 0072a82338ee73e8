use admin_listing::categories::get_all_categories;
use admin_listing::gate::{authorize, Access};
use admin_listing::listing::{
    open_listing, ListingOutcome, ListingRoute, Opening, PageRequest, PageSize, Progress, Query,
};
use admin_listing::notices::NoticeQueue;
use admin_listing::paginator::{compute_page_index, SliceWindow};
use admin_listing::posts::get_category_posts_a;
use admin_listing::reply::StorageError;

fn size(n: u64) -> PageSize {
    PageSize::new(n).expect("a positive page size")
}

fn route() -> ListingRoute {
    ListingRoute { resource: "admin/categories".to_string(), template: "admin_category_table".to_string() }
}

fn request(page: i32, page_size: u64, filter: Option<&str>) -> PageRequest {
    PageRequest { requested_page: page, page_size: size(page_size), filter: filter.map(str::to_string) }
}

/// An in-memory collection that answers the two queries and counts them.
struct Store {
    records: Vec<u32>,
    calls: usize,
}

impl Store {
    fn new(n: u32) -> Store {
        Store { records: (0..n).collect(), calls: 0 }
    }

    fn answer_count(&mut self, query: &Query) -> Result<u64, StorageError> {
        self.calls += 1;
        match query {
            Query::Count { .. } => Ok(self.records.len() as u64),
            Query::Slice { .. } => panic!("a count was expected"),
        }
    }

    fn answer_slice(&mut self, query: &Query) -> Result<Vec<u32>, StorageError> {
        self.calls += 1;
        match query {
            Query::Slice { offset, limit, .. } => Ok(self
                .records
                .iter()
                .skip(*offset as usize)
                .take(*limit as usize)
                .copied()
                .collect()),
            Query::Count { .. } => panic!("a slice was expected"),
        }
    }
}

fn run(request: PageRequest, access: Access, store: &mut Store, notices: &mut NoticeQueue) -> Result<ListingOutcome<u32>, String> {
    match open_listing(request, route(), access) {
        Opening::Denied(location) => Err(location),
        Opening::Admitted(start) => {
            let total = store.answer_count(&start.query());
            match start.counted(total) {
                Progress::Error(error) => Ok(ListingOutcome::Error(error)),
                Progress::Redirect(location) => Ok(ListingOutcome::Redirect(location)),
                Progress::Fetch(counted) => {
                    let slice = store.answer_slice(&counted.query());
                    Ok(counted.fetched(slice, notices))
                }
            }
        }
    }
}

#[test]
fn page_size_is_positive() {
    assert_eq!(PageSize::new(0), None);
    assert_eq!(PageSize::new(1).map(|s| s.get()), Some(1));
    assert_eq!(PageSize::new(10).map(|s| s.get()), Some(10));
    assert_eq!(PageSize::new(u64::MAX).map(|s| s.get()), Some(u64::MAX));
}

#[test]
fn third_page_of_twenty_five_items() {
    let mut store = Store::new(25);
    let mut notices = NoticeQueue::new();
    let outcome = run(request(3, 10, None), Access::Authorized, &mut store, &mut notices).unwrap();
    match outcome {
        ListingOutcome::Ready { template, listing } => {
            assert_eq!(template, "admin_category_table");
            assert_eq!(listing.items, vec![20, 21, 22, 23, 24]);
            assert_eq!(listing.page_index, compute_page_index(25, 10));
            assert_eq!(listing.page_index.page_count(), 3);
            assert_eq!(listing.rendered_page_links, vec![1, 2, 3]);
            assert!(listing.notices.is_empty());
        }
        other => panic!("expected a listing, got {:?}", other),
    }
    assert_eq!(store.calls, 2);
}

#[test]
fn third_page_asks_for_offset_twenty_limit_ten() {
    let start = match open_listing(request(3, 10, None), route(), Access::Authorized) {
        Opening::Admitted(start) => start,
        Opening::Denied(_) => panic!("admitted"),
    };
    assert_eq!(start.query(), Query::Count { filter: None });
    let counted = match start.counted(Ok(25)) {
        Progress::Fetch(counted) => counted,
        other => panic!("expected a fetch, got {:?}", other),
    };
    assert_eq!(counted.page_number(), 3);
    assert_eq!(counted.index(), compute_page_index(25, 10));
    assert_eq!(counted.window(), SliceWindow { offset: 20, limit: 10 });
    assert_eq!(counted.query(), Query::Slice { filter: None, offset: 20, limit: 10 });
}

#[test]
fn empty_collection_redirects_every_page() {
    for page in [-1, 0, 1, 2, 7] {
        let mut store = Store::new(0);
        let mut notices = NoticeQueue::new();
        let outcome = run(request(page, 10, None), Access::Authorized, &mut store, &mut notices).unwrap();
        assert_eq!(outcome, ListingOutcome::Redirect("/admin/categories/page/1".to_string()));
        assert_eq!(store.calls, 1);
    }
}

#[test]
fn page_zero_redirects_to_first_page() {
    let mut store = Store::new(50);
    let mut notices = NoticeQueue::new();
    let outcome = run(request(0, 10, None), Access::Authorized, &mut store, &mut notices).unwrap();
    assert_eq!(outcome, ListingOutcome::Redirect("/admin/categories/page/1".to_string()));
}

#[test]
fn page_past_the_last_redirects_to_first_page() {
    let mut store = Store::new(50);
    let mut notices = NoticeQueue::new();
    let outcome = run(request(6, 10, None), Access::Authorized, &mut store, &mut notices).unwrap();
    assert_eq!(outcome, ListingOutcome::Redirect("/admin/categories/page/1".to_string()));
    let outcome = run(request(5, 10, None), Access::Authorized, &mut store, &mut notices).unwrap();
    assert!(matches!(outcome, ListingOutcome::Ready { .. }));
}

#[test]
fn redirect_within_a_filter_keeps_the_filter() {
    let mut store = Store::new(5);
    let mut notices = NoticeQueue::new();
    let outcome = run(request(9, 10, Some("rust")), Access::Authorized, &mut store, &mut notices).unwrap();
    assert_eq!(outcome, ListingOutcome::Redirect("/admin/categories/rust/page/1".to_string()));
}

#[test]
fn queries_carry_the_filter() {
    let start = match open_listing(request(2, 4, Some("rust")), route(), Access::Authorized) {
        Opening::Admitted(start) => start,
        Opening::Denied(_) => panic!("admitted"),
    };
    assert_eq!(start.query(), Query::Count { filter: Some("rust".to_string()) });
    match start.counted(Ok(9)) {
        Progress::Fetch(counted) => assert_eq!(
            counted.query(),
            Query::Slice { filter: Some("rust".to_string()), offset: 4, limit: 4 }
        ),
        other => panic!("expected a fetch, got {:?}", other),
    }
}

#[test]
fn unauthenticated_request_makes_no_storage_call() {
    let mut store = Store::new(25);
    let mut notices = NoticeQueue::new();
    let access = authorize(&None::<u8>);
    assert_eq!(access, Access::Unauthorized);
    let denied = run(request(1, 10, None), access, &mut store, &mut notices);
    assert_eq!(denied, Err("/".to_string()));
    assert_eq!(store.calls, 0);
    assert!(matches!(get_all_categories(&None::<u8>, 1, size(10)), Opening::Denied(ref l) if l == "/"));
    assert!(matches!(
        get_category_posts_a(&None::<u8>, "rust".to_string(), 1, size(10)),
        Opening::Denied(ref l) if l == "/"
    ));
}

#[test]
fn count_failure_is_a_server_error() {
    let start = match open_listing(request(1, 10, None), route(), Access::Authorized) {
        Opening::Admitted(start) => start,
        Opening::Denied(_) => panic!("admitted"),
    };
    match start.counted(Err(StorageError::QueryFailed)) {
        Progress::Error(error) => assert_eq!(error, StorageError::QueryFailed),
        other => panic!("expected an error, got {:?}", other),
    }
}

#[test]
fn fetch_failure_is_a_server_error_and_keeps_the_notices() {
    let start = match open_listing(request(1, 10, None), route(), Access::Authorized) {
        Opening::Admitted(start) => start,
        Opening::Denied(_) => panic!("admitted"),
    };
    let counted = match start.counted(Ok(3)) {
        Progress::Fetch(counted) => counted,
        other => panic!("expected a fetch, got {:?}", other),
    };
    let mut notices = NoticeQueue::from_pending(vec!["name: too short".to_string()]);
    let outcome: ListingOutcome<u32> = counted.fetched(Err(StorageError::QueryFailed), &mut notices);
    assert_eq!(outcome, ListingOutcome::Error(StorageError::QueryFailed));
    assert_eq!(notices.into_pending(), vec!["name: too short".to_string()]);
}

#[test]
fn same_page_twice_shows_the_same_items() {
    let mut store = Store::new(25);
    let mut notices = NoticeQueue::from_pending(vec!["first".to_string()]);
    let first = run(request(2, 10, None), Access::Authorized, &mut store, &mut notices).unwrap();
    let second = run(request(2, 10, None), Access::Authorized, &mut store, &mut notices).unwrap();
    match (first, second) {
        (
            ListingOutcome::Ready { listing: first, .. },
            ListingOutcome::Ready { listing: second, .. },
        ) => {
            assert_eq!(first.items, (10..20).collect::<Vec<u32>>());
            assert_eq!(first.items, second.items);
            assert_eq!(first.page_index, second.page_index);
            assert_eq!(first.rendered_page_links, second.rendered_page_links);
            assert_eq!(first.notices, vec!["first".to_string()]);
            assert!(second.notices.is_empty());
        }
        other => panic!("expected two listings, got {:?}", other),
    }
}

#[test]
fn a_redirect_leaves_the_notices_waiting() {
    let mut store = Store::new(25);
    let mut notices = NoticeQueue::from_pending(vec!["kept".to_string()]);
    let outcome = run(request(0, 10, None), Access::Authorized, &mut store, &mut notices).unwrap();
    assert!(matches!(outcome, ListingOutcome::Redirect(_)));
    assert_eq!(notices.len(), 1);
    let outcome = run(request(1, 10, None), Access::Authorized, &mut store, &mut notices).unwrap();
    match outcome {
        ListingOutcome::Ready { listing, .. } => assert_eq!(listing.notices, vec!["kept".to_string()]),
        other => panic!("expected a listing, got {:?}", other),
    }
    assert!(notices.is_empty());
}

#[test]
fn endpoints_open_their_listings() {
    match get_all_categories(&Some(7u8), 2, size(10)) {
        Opening::Admitted(start) => {
            assert_eq!(start.query(), Query::Count { filter: None });
            match start.counted(Ok(11)) {
                Progress::Fetch(counted) => {
                    let outcome = counted.fetched(Ok(vec!["k".to_string()]), &mut NoticeQueue::new());
                    match outcome {
                        ListingOutcome::Ready { template, listing } => {
                            assert_eq!(template, "admin_category_table");
                            assert_eq!(listing.items, vec!["k".to_string()]);
                            assert_eq!(listing.rendered_page_links, vec![1, 2]);
                        }
                        other => panic!("expected a listing, got {:?}", other),
                    }
                }
                other => panic!("expected a fetch, got {:?}", other),
            }
        }
        Opening::Denied(_) => panic!("admitted"),
    }
    match get_category_posts_a(&Some(7u8), "rust".to_string(), 3, size(10)) {
        Opening::Admitted(start) => {
            assert_eq!(start.query(), Query::Count { filter: Some("rust".to_string()) });
            match start.counted(Ok(11)) {
                Progress::Redirect(location) => assert_eq!(location, "/admin/categories/rust/page/1"),
                other => panic!("expected a redirect, got {:?}", other),
            }
        }
        Opening::Denied(_) => panic!("admitted"),
    }
    match get_category_posts_a(&Some(7u8), "rust".to_string(), 1, size(10)) {
        Opening::Admitted(start) => match start.counted(Ok(11)) {
            Progress::Fetch(counted) => {
                let outcome = counted.fetched(Ok(vec![1u8]), &mut NoticeQueue::new());
                assert!(matches!(outcome, ListingOutcome::Ready { ref template, .. } if template == "admin_separate_categories"));
            }
            other => panic!("expected a fetch, got {:?}", other),
        },
        Opening::Denied(_) => panic!("admitted"),
    }
}
