//! Page arithmetic: how many pages a collection needs, which page numbers
//! are valid, and which slice of the collection a page shows.

use vstd::arithmetic::div_mod::lemma_fundamental_div_mod;
use vstd::arithmetic::div_mod::lemma_fundamental_div_mod_converse;
use vstd::prelude::*;

verus! {

/// The number of pages that `total_items` items fill at `page_size` items a
/// page: the quotient, rounded up.
pub open spec fn page_count_of(total_items: nat, page_size: nat) -> nat
    recommends
        page_size >= 1,
{
    ((total_items + page_size - 1) / (page_size as int)) as nat
}

/// Whether `requested_page` names one of the pages `1..=page_count`.
pub open spec fn page_in_range(requested_page: int, page_count: nat) -> bool {
    1 <= requested_page <= page_count
}

/// Position of the first item of `page` within the whole collection.
pub open spec fn offset_of(page: nat, page_size: nat) -> nat
    recommends
        page >= 1,
{
    ((page - 1) * page_size) as nat
}

/// How many items `page` shows: a full page, or what is left on the last one.
pub open spec fn items_on_page(page: nat, total_items: nat, page_size: nat) -> nat
    recommends
        page >= 1,
{
    let offset = offset_of(page, page_size);
    if offset >= total_items {
        0
    } else if total_items - offset < page_size {
        (total_items - offset) as nat
    } else {
        page_size
    }
}

/// The page numbers offered for navigation: `1, 2, .., page_count`.
pub open spec fn links_of(page_count: nat) -> Seq<u64> {
    Seq::new(page_count, |i: int| (i + 1) as u64)
}

/// What a `PageIndex` stands for.
pub struct PageIndexView {
    pub total_items: nat,
    pub page_size: nat,
    pub page_count: nat,
}

/// The index of a collection of `total_items` items at `page_size` a page.
pub open spec fn page_index_of(total_items: nat, page_size: nat) -> PageIndexView {
    PageIndexView { total_items, page_size, page_count: page_count_of(total_items, page_size) }
}

/// Page count of one collection at one page size. Only `compute_page_index`
/// makes one, so the count always is the rounded-up quotient.
#[derive(Clone, Copy, Debug, PartialEq, Eq)]
pub struct PageIndex {
    total_items: u64,
    page_size: u64,
    page_count: u64,
}

impl View for PageIndex {
    type V = PageIndexView;

    closed spec fn view(&self) -> PageIndexView {
        PageIndexView {
            total_items: self.total_items as nat,
            page_size: self.page_size as nat,
            page_count: self.page_count as nat,
        }
    }
}

/// Whether a requested page exists.
#[derive(Clone, Copy, Debug, PartialEq, Eq)]
pub enum PageValidity {
    /// The page exists; it carries the page number.
    Valid(u64),
    /// The page number is zero, negative or past the last page.
    OutOfRange,
}

/// What `validate` answers.
pub open spec fn validity_of(requested_page: int, page_count: nat) -> PageValidity {
    if page_in_range(requested_page, page_count) {
        PageValidity::Valid(requested_page as u64)
    } else {
        PageValidity::OutOfRange
    }
}

/// The part of a collection that one page shows, as a storage query takes it.
#[derive(Clone, Copy, Debug, PartialEq, Eq)]
pub struct SliceWindow {
    /// Number of items to skip.
    pub offset: u64,
    /// Largest number of items to return.
    pub limit: u64,
}

impl PageIndex {
    #[verifier::type_invariant]
    closed spec fn consistent(&self) -> bool {
        &&& self.page_size >= 1
        &&& self.page_count == page_count_of(self.total_items as nat, self.page_size as nat)
    }

    /// Number of items in the collection.
    pub fn total_items(&self) -> (n: u64)
        ensures
            n == self@.total_items,
    {
        self.total_items
    }

    /// Largest number of items on one page; at least 1.
    pub fn page_size(&self) -> (n: u64)
        ensures
            n == self@.page_size,
            n >= 1,
    {
        proof {
            use_type_invariant(self);
        }
        self.page_size
    }

    /// The valid page numbers as first and last page, both included; none
    /// for an empty collection, which has no valid page.
    pub fn valid_page_range(&self) -> (range: Option<(u64, u64)>)
        ensures
            self@.page_count == 0 <==> range is None,
            range matches Some(bounds) ==> bounds.0 == 1 && bounds.1 == self@.page_count,
            forall|page: int|
                #[trigger] page_in_range(page, self@.page_count) <==> (range matches Some(bounds)
                    && bounds.0 <= page <= bounds.1),
    {
        if self.page_count == 0 {
            None
        } else {
            Some((1, self.page_count))
        }
    }

    /// Number of pages; 0 for an empty collection.
    pub fn page_count(&self) -> (n: u64)
        ensures
            n == self@.page_count,
            n == page_count_of(self@.total_items, self@.page_size),
    {
        proof {
            use_type_invariant(self);
        }
        self.page_count
    }
}

/// `page_count_of` agrees with dividing and adding one page for a remainder.
pub proof fn lemma_page_count_by_remainder(total_items: nat, page_size: nat)
    requires
        page_size >= 1,
    ensures
        total_items % page_size == 0 ==> page_count_of(total_items, page_size) == total_items
            / page_size,
        total_items % page_size != 0 ==> page_count_of(total_items, page_size) == total_items
            / page_size + 1,
{
    let d = page_size as int;
    let q = total_items as int / d;
    let r = total_items as int % d;
    lemma_fundamental_div_mod(total_items as int, d);
    assert(d * q == q * d) by (nonlinear_arith);
    if r == 0 {
        lemma_fundamental_div_mod_converse(total_items + page_size - 1, d, q, d - 1);
    } else {
        assert((q + 1) * d == q * d + d) by (nonlinear_arith);
        lemma_fundamental_div_mod_converse(total_items + page_size - 1, d, q + 1, r - 1);
    }
}

/// The page count is the ceiling of `total_items / page_size`: the pages hold
/// every item, and one page fewer would not. So an empty collection has no
/// page, exactly one full page of items has one, and one item more has two.
pub proof fn lemma_page_count_is_ceiling(total_items: nat, page_size: nat)
    requires
        page_size >= 1,
    ensures
        page_count_of(total_items, page_size) * page_size >= total_items,
        total_items > 0 ==> (page_count_of(total_items, page_size) - 1) * page_size
            < total_items,
        total_items == 0 <==> page_count_of(total_items, page_size) == 0,
        page_count_of(page_size, page_size) == 1,
        page_count_of(page_size + 1, page_size) == 2,
{
    lemma_page_count_covers(total_items, page_size);
    lemma_ceiling_is_unique(1, page_size, page_size);
    assert(2 * page_size >= page_size + 1 && (2 - 1) * page_size < page_size + 1);
    lemma_ceiling_is_unique(2, page_size + 1, page_size);
}

proof fn lemma_page_count_covers(total_items: nat, page_size: nat)
    requires
        page_size >= 1,
    ensures
        page_count_of(total_items, page_size) * page_size >= total_items,
        total_items > 0 ==> (page_count_of(total_items, page_size) - 1) * page_size
            < total_items,
        total_items == 0 <==> page_count_of(total_items, page_size) == 0,
{
    let d = page_size as int;
    let q = total_items as int / d;
    let r = total_items as int % d;
    lemma_page_count_by_remainder(total_items, page_size);
    lemma_fundamental_div_mod(total_items as int, d);
    assert(d * q == q * d) by (nonlinear_arith);
    assert((q + 1) * d == q * d + d) by (nonlinear_arith);
    assert((q - 1) * d == q * d - d) by (nonlinear_arith);
    assert(q >= 0) by (nonlinear_arith)
        requires
            d >= 1,
            total_items == d * q + r,
            0 <= r < d,
            total_items >= 0,
    ;
    if total_items > 0 && r == 0 {
        assert(q >= 1) by (nonlinear_arith)
            requires
                q >= 0,
                total_items == d * q,
                total_items > 0,
        ;
    }
}

/// No other number is the ceiling: a count whose pages hold every item,
/// while one page fewer would not, is the page count.
pub proof fn lemma_ceiling_is_unique(count: nat, total_items: nat, page_size: nat)
    requires
        page_size >= 1,
        count * page_size >= total_items,
        count > 0 ==> (count - 1) * page_size < total_items,
    ensures
        count == page_count_of(total_items, page_size),
{
    let n = page_count_of(total_items, page_size) as int;
    let c = count as int;
    let d = page_size as int;
    lemma_page_count_covers(total_items, page_size);
    if c < n {
        assert(c * d <= (n - 1) * d) by (nonlinear_arith)
            requires
                c <= n - 1,
                d >= 1,
        ;
    }
    if n < c {
        assert(n * d <= (c - 1) * d) by (nonlinear_arith)
            requires
                n <= c - 1,
                d >= 1,
        ;
    }
}

/// Builds the page index of a collection of `total_items` items.
pub fn compute_page_index(total_items: u64, page_size: u64) -> (index: PageIndex)
    requires
        page_size >= 1,
    ensures
        index@ == page_index_of(total_items as nat, page_size as nat),
{
    let quotient: u64 = total_items / page_size;
    let remainder: u64 = total_items % page_size;
    proof {
        lemma_page_count_by_remainder(total_items as nat, page_size as nat);
        lemma_fundamental_div_mod(total_items as int, page_size as int);
        if remainder != 0 {
            assert(quotient < u64::MAX) by (nonlinear_arith)
                requires
                    total_items == page_size * quotient + remainder,
                    0 < remainder < page_size,
                    total_items <= u64::MAX,
            ;
        }
    }
    let page_count: u64 = if remainder != 0 {
        quotient + 1
    } else {
        quotient
    };
    PageIndex { total_items, page_size, page_count }
}

/// Decides whether `requested_page` exists in `index`.
pub fn validate(requested_page: i32, index: &PageIndex) -> (validity: PageValidity)
    ensures
        validity == validity_of(requested_page as int, index@.page_count),
{
    if requested_page < 1 {
        return PageValidity::OutOfRange;
    }
    let page: u64 = requested_page as u64;
    if page > index.page_count {
        PageValidity::OutOfRange
    } else {
        PageValidity::Valid(page)
    }
}

/// A page is valid exactly when it lies in `1..=page_count`. Page 0 never
/// is, nor the page after the last, and an empty collection has no valid page.
pub proof fn lemma_validate_bounds(requested_page: int, page_count: nat)
    ensures
        validity_of(requested_page, page_count) is Valid <==> 1 <= requested_page <= page_count,
        validity_of(requested_page, page_count) is Valid ==> validity_of(requested_page, page_count)
            == PageValidity::Valid(requested_page as u64),
        validity_of(0, page_count) == PageValidity::OutOfRange,
        validity_of(page_count as int + 1, page_count) == PageValidity::OutOfRange,
        page_count == 0 ==> validity_of(requested_page, page_count) == PageValidity::OutOfRange,
{
}

/// A valid page starts inside the collection and shows at least one item;
/// its window ends at or before the collection's end unless it is cut short
/// there. No offset is negative and none overflows the count.
pub proof fn lemma_window_in_bounds(page: nat, total_items: nat, page_size: nat)
    requires
        page_size >= 1,
        page_in_range(page as int, page_count_of(total_items, page_size)),
    ensures
        offset_of(page, page_size) < total_items,
        1 <= items_on_page(page, total_items, page_size) <= page_size,
        offset_of(page, page_size) + items_on_page(page, total_items, page_size) <= total_items,
        page < page_count_of(total_items, page_size) ==> items_on_page(
            page,
            total_items,
            page_size,
        ) == page_size,
        page == page_count_of(total_items, page_size) ==> offset_of(page, page_size)
            + items_on_page(page, total_items, page_size) == total_items,
{
    let n = page_count_of(total_items, page_size) as int;
    let p = page as int;
    let d = page_size as int;
    lemma_page_count_covers(total_items, page_size);
    assert((p - 1) * d <= (n - 1) * d) by (nonlinear_arith)
        requires
            1 <= p <= n,
            d >= 1,
    ;
    assert((p - 1) * d >= 0) by (nonlinear_arith)
        requires
            1 <= p,
            d >= 1,
    ;
    if p < n {
        assert((p - 1) * d + d <= (n - 1) * d) by (nonlinear_arith)
            requires
                p <= n - 1,
                d >= 1,
        ;
    } else {
        assert((n - 1) * d + d == n * d) by (nonlinear_arith);
    }
}

/// Every item lies on exactly one valid page, the one its position divided
/// by the page size gives: no item is skipped and none is shown twice.
pub proof fn lemma_every_item_has_its_page(position: nat, total_items: nat, page_size: nat)
    requires
        page_size >= 1,
        position < total_items,
    ensures
        ({
            let page = position / page_size + 1;
            &&& page_in_range(page as int, page_count_of(total_items, page_size))
            &&& offset_of(page, page_size) <= position < offset_of(page, page_size)
                + items_on_page(page, total_items, page_size)
        }),
        forall|other: nat|
            page_in_range(other as int, page_count_of(total_items, page_size)) && offset_of(
                other,
                page_size,
            ) <= position < offset_of(other, page_size) + #[trigger] items_on_page(
                other,
                total_items,
                page_size,
            ) ==> other == position / page_size + 1,
{
    let d = page_size as int;
    let q = position as int / d;
    let r = position as int % d;
    let n = page_count_of(total_items, page_size) as int;
    lemma_fundamental_div_mod(position as int, d);
    lemma_page_count_covers(total_items, page_size);
    assert(d * q == q * d) by (nonlinear_arith);
    assert(q >= 0) by (nonlinear_arith)
        requires
            d >= 1,
            position == d * q + r,
            0 <= r < d,
            position >= 0,
    ;
    if q + 1 > n {
        assert(n * d <= q * d) by (nonlinear_arith)
            requires
                n <= q,
                d >= 1,
        ;
    }
    assert forall|other: nat|
        page_in_range(other as int, page_count_of(total_items, page_size)) && offset_of(
            other,
            page_size,
        ) <= position < offset_of(other, page_size) + #[trigger] items_on_page(
            other,
            total_items,
            page_size,
        ) implies other == position / page_size + 1 by {
        let o = other as int;
        assert((o - 1) * d >= 0) by (nonlinear_arith)
            requires
                1 <= o,
                d >= 1,
        ;
        assert(d * (o - 1) == (o - 1) * d) by (nonlinear_arith);
        lemma_fundamental_div_mod_converse(position as int, d, o - 1, position - (o - 1) * d);
    }
}

/// The storage window of a valid page: skip the pages before it, take one
/// page.
pub fn page_window(page: u64, index: &PageIndex) -> (window: SliceWindow)
    requires
        page_in_range(page as int, index@.page_count),
    ensures
        window.offset == offset_of(page as nat, index@.page_size),
        window.limit == index@.page_size,
        window.offset < index@.total_items,
{
    proof {
        use_type_invariant(index);
        lemma_window_in_bounds(page as nat, index.total_items as nat, index.page_size as nat);
    }
    SliceWindow { offset: (page - 1) * index.page_size, limit: index.page_size }
}

/// How many items a valid page is expected to show.
pub fn page_item_count(page: u64, index: &PageIndex) -> (n: u64)
    requires
        page_in_range(page as int, index@.page_count),
    ensures
        n == items_on_page(page as nat, index@.total_items, index@.page_size),
        1 <= n <= index@.page_size,
{
    proof {
        use_type_invariant(index);
        lemma_window_in_bounds(page as nat, index.total_items as nat, index.page_size as nat);
    }
    let offset: u64 = (page - 1) * index.page_size;
    let left: u64 = index.total_items - offset;
    if left < index.page_size {
        left
    } else {
        index.page_size
    }
}

/// The page numbers `1..=page_count`, in order.
pub fn page_links(index: &PageIndex) -> (links: Vec<u64>)
    ensures
        links@ == links_of(index@.page_count),
{
    let mut links: Vec<u64> = Vec::new();
    let mut next: u64 = 0;
    while next < index.page_count
        invariant
            next <= index.page_count,
            links@ == links_of(next as nat),
        decreases index.page_count - next,
    {
        next = next + 1;
        links.push(next);
        assert(links@ =~= links_of(next as nat));
    }
    links
}

} // verus!
