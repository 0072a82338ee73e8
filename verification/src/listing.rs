//! The listing assembler: a state machine that turns a page request and the
//! answers of the storage collaborator into a listing, a redirect or an
//! error.
//!
//! The caller performs the queries; each state says which query it waits
//! for and what the answer leads to. A denied request reaches no state, so
//! there is no query to perform for it.

use crate::gate::Access;
use crate::notices::{texts, NoticeQueue};
use crate::paginator::{
    validity_of, compute_page_index, items_on_page, lemma_window_in_bounds, links_of, offset_of,
    page_count_of, page_in_range, page_index_of, page_links, page_window, validate, PageValidity,
    PageIndex, PageIndexView, SliceWindow,
};
use crate::reply::{
    canonical_location, canonical_target, filter_text, landing_location, landing_page,
    StorageError,
};
use vstd::prelude::*;

verus! {

/// The fixed number of items on a full page; at least 1.
#[derive(Clone, Copy, Debug, PartialEq, Eq)]
pub struct PageSize {
    value: u64,
}

impl View for PageSize {
    type V = nat;

    closed spec fn view(&self) -> nat {
        self.value as nat
    }
}

impl PageSize {
    #[verifier::type_invariant]
    closed spec fn positive(&self) -> bool {
        self.value >= 1
    }

    /// A page size of `value` items; none for 0.
    pub fn new(value: u64) -> (size: Option<PageSize>)
        ensures
            value == 0 <==> size is None,
            size matches Some(s) ==> s@ == value,
    {
        if value == 0 {
            None
        } else {
            Some(PageSize { value })
        }
    }

    /// The number of items.
    pub fn get(&self) -> (value: u64)
        ensures
            value == self@,
            value >= 1,
    {
        proof {
            use_type_invariant(self);
        }
        self.value
    }
}

/// One request for a page of a listing.
#[derive(Clone, Debug, PartialEq, Eq)]
pub struct PageRequest {
    /// The page asked for. Zero and negative numbers are accepted here and
    /// found out of range later.
    pub requested_page: i32,
    /// Items on a full page.
    pub page_size: PageSize,
    /// Key that narrows the listing to a subset, where there is one.
    pub filter: Option<String>,
}

/// Where a listing lives: the resource its locations are built from, and the
/// template that renders it.
#[derive(Clone, Debug, PartialEq, Eq)]
pub struct ListingRoute {
    /// Path of the resource, without a leading slash.
    pub resource: String,
    /// Name of the template.
    pub template: String,
}

/// A query for the storage collaborator.
#[derive(Clone, Debug, PartialEq, Eq)]
pub enum Query {
    /// Count the items that match the filter.
    Count { filter: Option<String> },
    /// Fetch `limit` items that match the filter, after skipping `offset`.
    Slice { filter: Option<String>, offset: u64, limit: u64 },
}

/// What a `Query` stands for.
pub enum QueryView {
    Count { filter: Option<Seq<char>> },
    Slice { filter: Option<Seq<char>>, offset: nat, limit: nat },
}

impl View for Query {
    type V = QueryView;

    open spec fn view(&self) -> QueryView {
        match *self {
            Query::Count { filter } => QueryView::Count { filter: filter_text(filter) },
            Query::Slice { filter, offset, limit } => QueryView::Slice {
                filter: filter_text(filter),
                offset: offset as nat,
                limit: limit as nat,
            },
        }
    }
}

/// Everything a template needs to render one page of a listing.
#[derive(Clone, Debug, PartialEq, Eq)]
pub struct ListingResult<T> {
    /// The records of the requested page, in storage order.
    pub items: Vec<T>,
    /// The page arithmetic of the collection.
    pub page_index: PageIndex,
    /// The page numbers `1..=page_count`.
    pub rendered_page_links: Vec<u64>,
    /// The notices that waited for this render.
    pub notices: Vec<String>,
}

/// What a `ListingResult` stands for.
pub struct ListingView<T> {
    pub items: Seq<T>,
    pub page_index: PageIndexView,
    pub rendered_page_links: Seq<u64>,
    pub notices: Seq<Seq<char>>,
}

impl<T> View for ListingResult<T> {
    type V = ListingView<T>;

    open spec fn view(&self) -> ListingView<T> {
        ListingView {
            items: self.items@,
            page_index: self.page_index@,
            rendered_page_links: self.rendered_page_links@,
            notices: texts(self.notices@),
        }
    }
}

/// How a listing request ends.
#[derive(Clone, Debug, PartialEq, Eq)]
pub enum ListingOutcome<T> {
    /// Render `listing` with the template named `template`.
    Ready { template: String, listing: ListingResult<T> },
    /// Send the client to the canonical first page; nothing is rendered.
    Redirect(String),
    /// A storage query failed; answer with a generic server error.
    Error(StorageError),
}

/// What a `ListingOutcome` stands for.
pub enum OutcomeView<T> {
    Ready { template: Seq<char>, listing: ListingView<T> },
    Redirect(Seq<char>),
    Error(StorageError),
}

impl<T> View for ListingOutcome<T> {
    type V = OutcomeView<T>;

    open spec fn view(&self) -> OutcomeView<T> {
        match *self {
            ListingOutcome::Ready { template, listing } => OutcomeView::Ready {
                template: template@,
                listing: listing@,
            },
            ListingOutcome::Redirect(location) => OutcomeView::Redirect(location@),
            ListingOutcome::Error(error) => OutcomeView::Error(error),
        }
    }
}

/// State `Start`: the request passed the session gate and waits for the count.
#[derive(Debug)]
pub struct Start {
    request: PageRequest,
    route: ListingRoute,
}

/// State `Counted`: the collection is counted, the requested page exists,
/// and the request waits for the page's slice.
#[derive(Debug)]
pub struct Counted {
    request: PageRequest,
    route: ListingRoute,
    index: PageIndex,
    page: u64,
}

/// What the session gate lets a listing request do.
#[derive(Debug)]
pub enum Opening {
    /// No session: redirect to this location, the landing page.
    Denied(String),
    /// Proceed from the state `Start`.
    Admitted(Start),
}

/// Where the count leads.
#[derive(Debug)]
pub enum Progress {
    /// The requested page exists: fetch its slice.
    Fetch(Counted),
    /// The requested page does not exist: redirect to this location, the
    /// canonical first page.
    Redirect(String),
    /// The count failed.
    Error(StorageError),
}

/// What a `Progress` stands for.
pub enum ProgressView {
    Fetch { page_index: PageIndexView, page: u64 },
    Redirect(Seq<char>),
    Error(StorageError),
}

/// Where a count answer leads a request: to an error if the count failed,
/// to the canonical first page if the requested page is out of range, and to
/// the fetch of the page otherwise.
pub open spec fn progress_of(
    request: PageRequest,
    route: ListingRoute,
    total: Result<u64, StorageError>,
) -> ProgressView {
    match total {
        Err(error) => ProgressView::Error(error),
        Ok(total_items) => {
            let page_index = page_index_of(total_items as nat, request.page_size@);
            match validity_of(request.requested_page as int, page_index.page_count) {
                PageValidity::Valid(page) => ProgressView::Fetch { page_index, page },
                PageValidity::OutOfRange => ProgressView::Redirect(
                    canonical_location(route.resource@, filter_text(request.filter)),
                ),
            }
        },
    }
}

/// How a slice answer ends a request that waits in `Counted`: with an error
/// if the fetch failed, else with the listing of the fetched items, the page
/// links and every pending notice.
pub open spec fn outcome_of<T>(
    route: ListingRoute,
    page_index: PageIndexView,
    slice: Result<Seq<T>, StorageError>,
    pending: Seq<Seq<char>>,
) -> OutcomeView<T> {
    match slice {
        Err(error) => OutcomeView::Error(error),
        Ok(items) => OutcomeView::Ready {
            template: route.template@,
            listing: ListingView {
                items,
                page_index,
                rendered_page_links: links_of(page_index.page_count),
                notices: pending,
            },
        },
    }
}

/// The notices that still wait after a slice answer: none after a render,
/// all of them after a failure.
pub open spec fn pending_after<T>(
    slice: Result<Seq<T>, StorageError>,
    pending: Seq<Seq<char>>,
) -> Seq<Seq<char>> {
    match slice {
        Err(_) => pending,
        Ok(_) => Seq::empty(),
    }
}

/// What the storage collaborator answers to a slice query while the
/// collection holds `records`: at most `limit` records from position
/// `offset` on, in order.
pub open spec fn stored_slice<T>(records: Seq<T>, offset: nat, limit: nat) -> Seq<T> {
    if offset >= records.len() {
        Seq::empty()
    } else if offset + limit >= records.len() {
        records.subrange(offset as int, records.len() as int)
    } else {
        records.subrange(offset as int, (offset + limit) as int)
    }
}

/// How an admitted request ends while the collection holds `records`: the
/// count answer is their number, the slice answer is their window.
pub open spec fn listing_of<T>(
    request: PageRequest,
    route: ListingRoute,
    records: Seq<T>,
    pending: Seq<Seq<char>>,
) -> OutcomeView<T> {
    match progress_of(request, route, Ok(records.len() as u64)) {
        ProgressView::Fetch { page_index, page } => outcome_of(
            route,
            page_index,
            Ok(
                stored_slice(
                    records,
                    offset_of(page as nat, page_index.page_size),
                    page_index.page_size,
                ),
            ),
            pending,
        ),
        ProgressView::Redirect(location) => OutcomeView::Redirect(location),
        ProgressView::Error(error) => OutcomeView::Error(error),
    }
}

/// The items of a slice answer.
pub open spec fn slice_items<T>(slice: Result<Vec<T>, StorageError>) -> Result<
    Seq<T>,
    StorageError,
> {
    match slice {
        Ok(items) => Ok(items@),
        Err(error) => Err(error),
    }
}

impl Start {
    /// The request that waits.
    pub closed spec fn request(&self) -> PageRequest {
        self.request
    }

    /// The route of the listing.
    pub closed spec fn route(&self) -> ListingRoute {
        self.route
    }

    /// The query this state waits for: the count of the items in the filter.
    pub fn query(&self) -> (query: Query)
        ensures
            query@ == (QueryView::Count { filter: filter_text(self.request().filter) }),
    {
        Query::Count { filter: clone_filter(&self.request.filter) }
    }

    /// Takes the count answer and leaves `Start`.
    pub fn counted(self, total: Result<u64, StorageError>) -> (progress: Progress)
        ensures
            progress@ == progress_of(self.request(), self.route(), total),
            progress matches Progress::Fetch(counted) ==> (counted.request() == self.request()
                && counted.route() == self.route()),
    {
        match total {
            Err(error) => Progress::Error(error),
            Ok(total_items) => {
                let index = compute_page_index(total_items, self.request.page_size.get());
                match validate(self.request.requested_page, &index) {
                    PageValidity::Valid(page) => Progress::Fetch(
                        Counted { request: self.request, route: self.route, index, page },
                    ),
                    PageValidity::OutOfRange => Progress::Redirect(
                        canonical_target(self.route.resource.as_str(), &self.request.filter),
                    ),
                }
            },
        }
    }
}

impl Counted {
    #[verifier::type_invariant]
    closed spec fn page_exists(&self) -> bool {
        page_in_range(self.page as int, self.index@.page_count)
    }

    /// The request that waits.
    pub closed spec fn request(&self) -> PageRequest {
        self.request
    }

    /// The route of the listing.
    pub closed spec fn route(&self) -> ListingRoute {
        self.route
    }

    /// The page arithmetic of the counted collection.
    pub closed spec fn page_index(&self) -> PageIndex {
        self.index
    }

    /// The requested page, which exists.
    pub closed spec fn page(&self) -> u64 {
        self.page
    }

    /// The page arithmetic of the counted collection.
    pub fn index(&self) -> (index: PageIndex)
        ensures
            index == self.page_index(),
    {
        self.index
    }

    /// The requested page, which exists.
    pub fn page_number(&self) -> (page: u64)
        ensures
            page == self.page(),
            page_in_range(page as int, self.page_index()@.page_count),
    {
        proof {
            use_type_invariant(self);
        }
        self.page
    }

    /// The slice of the collection that the requested page shows.
    pub fn window(&self) -> (window: SliceWindow)
        ensures
            page_in_range(self.page() as int, self.page_index()@.page_count),
            window.offset == offset_of(self.page() as nat, self.page_index()@.page_size),
            window.limit == self.page_index()@.page_size,
            window.offset < self.page_index()@.total_items,
    {
        proof {
            use_type_invariant(self);
        }
        page_window(self.page, &self.index)
    }

    /// The query this state waits for: the slice of the requested page.
    pub fn query(&self) -> (query: Query)
        ensures
            query@ == (QueryView::Slice {
                filter: filter_text(self.request().filter),
                offset: offset_of(self.page() as nat, self.page_index()@.page_size),
                limit: self.page_index()@.page_size,
            }),
    {
        let window = self.window();
        Query::Slice {
            filter: clone_filter(&self.request.filter),
            offset: window.offset,
            limit: window.limit,
        }
    }

    /// Takes the slice answer and ends the request. A fetched slice is
    /// rendered together with every pending notice, and the queue is left
    /// empty; after a failure the notices wait on.
    ///
    /// Count and slice are two queries with no transaction round them. A
    /// slice fetched after the collection changed may hold an item more or
    /// fewer than the count promised; it is shown as it was fetched.
    pub fn fetched<T>(
        self,
        slice: Result<Vec<T>, StorageError>,
        notices: &mut NoticeQueue,
    ) -> (outcome: ListingOutcome<T>)
        ensures
            outcome@ == outcome_of(
                self.route(),
                self.page_index()@,
                slice_items(slice),
                old(notices)@,
            ),
            final(notices)@ == pending_after(slice_items(slice), old(notices)@),
    {
        match slice {
            Err(error) => ListingOutcome::Error(error),
            Ok(items) => {
                let rendered_page_links = page_links(&self.index);
                let delivered = notices.drain();
                ListingOutcome::Ready {
                    template: self.route.template,
                    listing: ListingResult {
                        items,
                        page_index: self.index,
                        rendered_page_links,
                        notices: delivered,
                    },
                }
            },
        }
    }
}

impl View for Progress {
    type V = ProgressView;

    open spec fn view(&self) -> ProgressView {
        match *self {
            Progress::Fetch(counted) => ProgressView::Fetch {
                page_index: counted.page_index()@,
                page: counted.page(),
            },
            Progress::Redirect(location) => ProgressView::Redirect(location@),
            Progress::Error(error) => ProgressView::Error(error),
        }
    }
}

/// Asking twice for the same valid page of an unchanged collection shows
/// the same items both times: the records of that page's window, in storage
/// order. Only the notices differ, for the first render takes those that
/// waited and leaves none to the second.
pub proof fn lemma_same_page_same_items<T>(
    request: PageRequest,
    route: ListingRoute,
    records: Seq<T>,
    pending: Seq<Seq<char>>,
)
    requires
        request.page_size@ >= 1,
        records.len() <= u64::MAX,
        page_in_range(
            request.requested_page as int,
            page_count_of(records.len(), request.page_size@),
        ),
    ensures
        ({
            let page = request.requested_page as nat;
            let size = request.page_size@;
            let offset = offset_of(page, size);
            let shown = items_on_page(page, records.len(), size);
            let first = listing_of(request, route, records, pending);
            let second = listing_of(request, route, records, Seq::empty());
            &&& first matches OutcomeView::Ready { listing: first_listing, .. }
            &&& second matches OutcomeView::Ready { listing: second_listing, .. }
            &&& first_listing.items == second_listing.items
            &&& first_listing.items == records.subrange(offset as int, (offset + shown) as int)
            &&& first_listing.notices == pending
            &&& second_listing.notices == Seq::<Seq<char>>::empty()
            &&& pending_after(Ok(first_listing.items), pending) == Seq::<Seq<char>>::empty()
        }),
{
    lemma_window_in_bounds(request.requested_page as nat, records.len(), request.page_size@);
}

/// A copy of an optional filter key with the same text.
fn clone_filter(filter: &Option<String>) -> (copy: Option<String>)
    ensures
        filter_text(copy) == filter_text(*filter),
{
    match filter {
        Some(key) => Some(key.as_str().to_owned()),
        None => None,
    }
}

/// Passes a listing request through the session gate. A request without a
/// session is sent to the landing page and reaches no state; an admitted one
/// starts in `Start`.
pub fn open_listing(request: PageRequest, route: ListingRoute, access: Access) -> (opening: Opening)
    ensures
        access == Access::Unauthorized ==> (opening matches Opening::Denied(location)
            && location@ == landing_location()),
        access == Access::Authorized ==> (opening matches Opening::Admitted(start)
            && start.request() == request && start.route() == route),
{
    match access {
        Access::Unauthorized => Opening::Denied(landing_page()),
        Access::Authorized => Opening::Admitted(Start { request, route }),
    }
}

} // verus!
