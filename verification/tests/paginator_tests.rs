use admin_listing::paginator::{
    compute_page_index, page_item_count, page_links, page_window, validate, PageValidity,
    SliceWindow,
};

fn ceil_by_u128(total: u64, size: u64) -> u64 {
    ((total as u128 + size as u128 - 1) / size as u128) as u64
}

#[test]
fn empty_collection_has_no_page() {
    for size in [1u64, 2, 10, 1000, u64::MAX] {
        let index = compute_page_index(0, size);
        assert_eq!(index.page_count(), 0);
        assert_eq!(index.total_items(), 0);
        assert_eq!(index.page_size(), size);
    }
}

#[test]
fn one_full_page_is_one_page() {
    for size in [1u64, 2, 10, 1000, u64::MAX] {
        assert_eq!(compute_page_index(size, size).page_count(), 1);
    }
}

#[test]
fn one_item_more_than_a_page_is_two_pages() {
    for size in [1u64, 2, 10, 1000, u64::MAX - 1] {
        assert_eq!(compute_page_index(size + 1, size).page_count(), 2);
    }
}

#[test]
fn page_count_is_the_ceiling() {
    let totals = [0u64, 1, 9, 10, 11, 19, 20, 21, 25, 50, 99, 100, 101, 12345, u64::MAX - 1, u64::MAX];
    let sizes = [1u64, 2, 3, 7, 10, 16, 100, 12345, u64::MAX - 1, u64::MAX];
    for total in totals {
        for size in sizes {
            let count = compute_page_index(total, size).page_count();
            assert_eq!(count, ceil_by_u128(total, size), "total {} size {}", total, size);
            assert!(count as u128 * size as u128 >= total as u128);
            if total > 0 {
                assert!((count as u128 - 1) * (size as u128) < total as u128);
            }
        }
    }
}

#[test]
fn page_count_rounds_up_not_down() {
    assert_eq!(compute_page_index(25, 10).page_count(), 3);
    assert_eq!(compute_page_index(21, 10).page_count(), 3);
    assert_eq!(compute_page_index(29, 10).page_count(), 3);
    assert_eq!(compute_page_index(30, 10).page_count(), 3);
    assert_eq!(compute_page_index(31, 10).page_count(), 4);
    assert_eq!(compute_page_index(u64::MAX, 1).page_count(), u64::MAX);
    assert_eq!(compute_page_index(u64::MAX, 2).page_count(), 1 << 63);
}

#[test]
fn validate_accepts_exactly_one_to_page_count() {
    for total in [0u64, 1, 10, 25, 50, 99] {
        let index = compute_page_index(total, 10);
        let count = index.page_count() as i64;
        for page in -3i32..15 {
            let expected = if 1 <= page as i64 && page as i64 <= count {
                PageValidity::Valid(page as u64)
            } else {
                PageValidity::OutOfRange
            };
            assert_eq!(validate(page, &index), expected, "total {} page {}", total, page);
        }
    }
}

#[test]
fn page_zero_is_always_out_of_range() {
    for total in [0u64, 1, 50, u64::MAX] {
        assert_eq!(validate(0, &compute_page_index(total, 10)), PageValidity::OutOfRange);
    }
}

#[test]
fn page_after_the_last_is_out_of_range() {
    for total in [0u64, 1, 10, 11, 50, 20_000] {
        let index = compute_page_index(total, 10);
        let after = index.page_count() as i32 + 1;
        assert_eq!(validate(after, &index), PageValidity::OutOfRange);
        if index.page_count() > 0 {
            assert_eq!(
                validate(after - 1, &index),
                PageValidity::Valid(index.page_count())
            );
        }
    }
}

#[test]
fn negative_and_extreme_pages_are_out_of_range() {
    let index = compute_page_index(50, 10);
    assert_eq!(validate(-1, &index), PageValidity::OutOfRange);
    assert_eq!(validate(i32::MIN, &index), PageValidity::OutOfRange);
    assert_eq!(validate(i32::MAX, &index), PageValidity::OutOfRange);
    let huge = compute_page_index(u64::MAX, 1);
    assert_eq!(validate(i32::MAX, &huge), PageValidity::Valid(i32::MAX as u64));
}

#[test]
fn twenty_five_items_ten_a_page() {
    let index = compute_page_index(25, 10);
    assert_eq!(index.page_count(), 3);
    assert_eq!(page_links(&index), vec![1, 2, 3]);
    assert_eq!(validate(3, &index), PageValidity::Valid(3));
    assert_eq!(page_window(3, &index), SliceWindow { offset: 20, limit: 10 });
    assert_eq!(page_item_count(3, &index), 5);
    assert_eq!(page_item_count(1, &index), 10);
    assert_eq!(page_item_count(2, &index), 10);
    assert_eq!(validate(4, &index), PageValidity::OutOfRange);
}

#[test]
fn empty_collection_rejects_every_page() {
    let index = compute_page_index(0, 10);
    assert_eq!(index.page_count(), 0);
    assert!(page_links(&index).is_empty());
    for page in [-1, 0, 1, 2, 100] {
        assert_eq!(validate(page, &index), PageValidity::OutOfRange);
    }
}

#[test]
fn page_zero_of_fifty_items_is_out_of_range() {
    let index = compute_page_index(50, 10);
    assert_eq!(index.page_count(), 5);
    assert_eq!(validate(0, &index), PageValidity::OutOfRange);
}

#[test]
fn windows_tile_the_collection() {
    for (total, size) in [(1u64, 1u64), (25, 10), (30, 10), (31, 10), (7, 3), (100, 100), (101, 100)] {
        let index = compute_page_index(total, size);
        let mut covered = 0u64;
        for page in 1..=index.page_count() {
            let window = page_window(page, &index);
            assert_eq!(window.offset, covered);
            assert_eq!(window.offset, (page - 1) * size);
            assert_eq!(window.limit, size);
            let shown = page_item_count(page, &index);
            assert!(shown >= 1 && shown <= size);
            covered += shown;
        }
        assert_eq!(covered, total);
    }
}

#[test]
fn window_of_the_last_page_of_a_huge_collection() {
    let index = compute_page_index(u64::MAX, 10);
    let last = index.page_count();
    let window = page_window(last, &index);
    assert_eq!(window.offset, (last - 1) * 10);
    assert_eq!(page_item_count(last, &index), u64::MAX - window.offset);
}

#[test]
fn page_links_count_from_one() {
    assert_eq!(page_links(&compute_page_index(1, 10)), vec![1]);
    assert_eq!(page_links(&compute_page_index(50, 10)), vec![1, 2, 3, 4, 5]);
    let many = page_links(&compute_page_index(1000, 1));
    assert_eq!(many.len(), 1000);
    for (i, link) in many.iter().enumerate() {
        assert_eq!(*link, i as u64 + 1);
    }
}

#[test]
fn valid_page_range_runs_from_one_to_the_count() {
    assert_eq!(compute_page_index(0, 10).valid_page_range(), None);
    assert_eq!(compute_page_index(1, 10).valid_page_range(), Some((1, 1)));
    assert_eq!(compute_page_index(25, 10).valid_page_range(), Some((1, 3)));
    assert_eq!(compute_page_index(u64::MAX, 1).valid_page_range(), Some((1, u64::MAX)));
}
