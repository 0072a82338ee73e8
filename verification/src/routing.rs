//! Reading numbers out of URL path segments.

use crate::listing::{PageRequest, PageSize};
use vstd::prelude::*;

verus! {

/// Whether `c` is one of `0` to `9`.
pub open spec fn is_digit(c: char) -> bool {
    '0' <= c && c <= '9'
}

/// Whether `s` holds decimal digits only.
pub open spec fn all_digits(s: Seq<char>) -> bool {
    forall|i: int| 0 <= i < s.len() ==> is_digit(#[trigger] s[i])
}

/// The number that a sequence of decimal digits writes; 0 for none.
pub open spec fn decimal_value(digits: Seq<char>) -> nat
    decreases digits.len(),
{
    if digits.len() == 0 {
        0
    } else {
        (10 * decimal_value(digits.drop_last()) + (digits.last() as int - '0' as int)) as nat
    }
}

/// The integer that `segment` writes in decimal: an optional `+` or `-`,
/// then one digit or more and nothing else. None for any other text.
pub open spec fn signed_value(segment: Seq<char>) -> Option<int> {
    if segment.len() == 0 {
        None
    } else if segment[0] == '-' || segment[0] == '+' {
        let digits = segment.subrange(1, segment.len() as int);
        if digits.len() == 0 || !all_digits(digits) {
            None
        } else if segment[0] == '-' {
            Some(-(decimal_value(digits) as int))
        } else {
            Some(decimal_value(digits) as int)
        }
    } else if all_digits(segment) {
        Some(decimal_value(segment) as int)
    } else {
        None
    }
}

/// The number a path segment stands for: the integer it writes, or the
/// sentinel 0 where it writes none or one that does not fit 32 bits.
pub open spec fn number_of(segment: Seq<char>) -> int {
    match signed_value(segment) {
        Some(value) => if i32::MIN <= value <= i32::MAX {
            value
        } else {
            0
        },
        None => 0,
    }
}

proof fn lemma_decimal_value_grows(digits: Seq<char>)
    requires
        digits.len() > 0,
        all_digits(digits),
    ensures
        decimal_value(digits) >= decimal_value(digits.drop_last()),
        decimal_value(digits) == 10 * decimal_value(digits.drop_last()) + (digits.last() as int
            - '0' as int),
        0 <= digits.last() as int - '0' as int <= 9,
{
    assert(is_digit(digits[digits.len() - 1]));
}

/// Reads the number in a path segment. A malformed segment gives 0, which
/// no listing accepts as a page.
pub fn parse_number(segment: &str) -> (number: i32)
    ensures
        number == number_of(segment@),
{
    let len: usize = segment.unicode_len();
    if len == 0 {
        return 0;
    }
    let first: char = segment.get_char(0);
    let signed: bool = first == '-' || first == '+';
    let start: usize = if signed {
        1
    } else {
        0
    };
    if start == len {
        assert(segment@.subrange(1, segment@.len() as int).len() == 0);
        return 0;
    }
    let ghost digits = segment@.subrange(start as int, len as int);
    let mut magnitude: u64 = 0;
    let mut too_large: bool = false;
    let mut i: usize = start;
    assert(segment@.subrange(start as int, i as int) =~= Seq::<char>::empty());
    while i < len
        invariant
            start <= i <= len,
            len == segment@.len(),
            first == segment@[0],
            signed == (first == '-' || first == '+'),
            start == if signed { 1int } else { 0int },
            digits == segment@.subrange(start as int, len as int),
            all_digits(segment@.subrange(start as int, i as int)),
            !too_large ==> magnitude == decimal_value(segment@.subrange(start as int, i as int))
                && magnitude <= 0x8000_0000,
            too_large ==> decimal_value(segment@.subrange(start as int, i as int)) > 0x8000_0000,
        decreases len - i,
    {
        let c: char = segment.get_char(i);
        if !(c >= '0' && c <= '9') {
            assert(digits[i - start] == c);
            assert(!signed ==> digits =~= segment@);
            return 0;
        }
        let digit: u64 = (c as u32 - '0' as u32) as u64;
        proof {
            let before = segment@.subrange(start as int, i as int);
            let after = segment@.subrange(start as int, i + 1);
            assert(after.drop_last() =~= before);
            assert(after.last() == c);
            assert forall|k: int| 0 <= k < after.len() implies is_digit(#[trigger] after[k]) by {
                if k < before.len() {
                    assert(after[k] == before[k]);
                }
            }
            lemma_decimal_value_grows(after);
        }
        if !too_large {
            magnitude = magnitude * 10 + digit;
            if magnitude > 0x8000_0000 {
                too_large = true;
            }
        }
        i = i + 1;
    }
    assert(segment@.subrange(start as int, i as int) =~= digits);
    assert(!signed ==> digits =~= segment@);
    if too_large {
        0
    } else if first == '-' {
        if magnitude == 0x8000_0000 {
            i32::MIN
        } else {
            -(magnitude as i32)
        }
    } else if magnitude > 0x7fff_ffff {
        0
    } else {
        magnitude as i32
    }
}

/// Builds the page request of a route: the filter key as it came, and the
/// page that the page segment writes. A malformed page segment asks for
/// page 0, which is out of range in every listing.
pub fn page_request(filter: Option<String>, page_segment: &str, page_size: PageSize) -> (request:
    PageRequest)
    ensures
        request.requested_page == number_of(page_segment@),
        request.page_size == page_size,
        request.filter == filter,
{
    PageRequest { requested_page: parse_number(page_segment), page_size, filter }
}

} // verus!
