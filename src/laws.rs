//! Laws of the page calculator and the count aggregator.

use vstd::prelude::*;
use crate::oid::{Oid, is_oid_text, oid_of_text};
use crate::text::is_unset_marker;
use crate::paging::{PagePlan, IdBound, plan_of_text, ceil_div};
use crate::listing::{PageInfo, page_info_describes};

verus! {

/// A request with no boundary id is served as the page it names, with
/// nothing skipped and no bound on ids.
pub proof fn law_plain_request(requested_page: u32, first: Seq<char>, last: Seq<char>)
    requires
        requested_page >= 1,
        is_unset_marker(first),
        is_unset_marker(last),
    ensures
        plan_of_text(requested_page as int, first, last) == Ok::<PagePlan, crate::paging::PageError>(
            PagePlan {
                current_page: requested_page,
                skip_pages: 0,
                id_bound: IdBound::Unbounded,
            },
        ),
{
}

/// A request with a valid first boundary is reported one page back, and its
/// window admits only ids at or above the boundary.
pub proof fn law_first_boundary(requested_page: u32, first: Seq<char>, last: Seq<char>)
    requires
        requested_page >= 2,
        is_oid_text(first),
    ensures
        plan_of_text(requested_page as int, first, last) is Ok,
        plan_of_text(requested_page as int, first, last)->Ok_0.current_page == requested_page - 1,
        plan_of_text(requested_page as int, first, last)->Ok_0.skip_pages == requested_page - 2,
        forall|id: Oid|
            plan_of_text(requested_page as int, first, last)->Ok_0.id_bound.admits(id) ==> id.value
                >= oid_of_text(first).value,
{
    assert(!is_unset_marker(first)) by {
        if first == seq!['-'] {
            assert(first.len() == 1);
        }
    }
}

/// A request with a valid last boundary (and no first one) is reported one
/// page forward, skips nothing, and its window admits only ids at or below
/// the boundary.
pub proof fn law_last_boundary(requested_page: u32, first: Seq<char>, last: Seq<char>)
    requires
        1 <= requested_page < u32::MAX,
        is_unset_marker(first),
        is_oid_text(last),
    ensures
        plan_of_text(requested_page as int, first, last) is Ok,
        plan_of_text(requested_page as int, first, last)->Ok_0.current_page == requested_page + 1,
        plan_of_text(requested_page as int, first, last)->Ok_0.skip_pages == 0,
        forall|id: Oid|
            plan_of_text(requested_page as int, first, last)->Ok_0.id_bound.admits(id) ==> id.value
                <= oid_of_text(last).value,
{
    assert(!is_unset_marker(last)) by {
        if last == seq!['-'] {
            assert(last.len() == 1);
        }
    }
}

/// The page count is the ceiling of the total over the page size: that many
/// pages hold every item, and one fewer would not.
pub proof fn law_page_count(total_count: nat, page_size: nat)
    requires
        page_size >= 1,
    ensures
        ceil_div(total_count, page_size) * page_size >= total_count,
        ceil_div(total_count, page_size) == 0 || (ceil_div(total_count, page_size) - 1) * page_size
            < total_count,
        total_count == 0 ==> ceil_div(total_count, page_size) == 0,
{
    let q = total_count / page_size;
    let r = total_count % page_size;
    assert(total_count == q * page_size + r && 0 <= r < page_size) by (nonlinear_arith)
        requires
            page_size >= 1,
            q == total_count / page_size,
            r == total_count % page_size,
    ;
    if r == 0 {
        assert(q * page_size == total_count);
        if q > 0 {
            assert((q - 1) * page_size == q * page_size - page_size) by (nonlinear_arith);
        }
    } else {
        assert((q + 1) * page_size == q * page_size + page_size) by (nonlinear_arith);
    }
    if total_count == 0 {
        assert(q == 0 && r == 0) by (nonlinear_arith)
            requires
                total_count == 0,
                page_size >= 1,
                q == total_count / page_size,
                r == total_count % page_size,
        ;
    }
}

/// An empty listing has no pages, and an envelope of its first page has
/// neither a previous nor a next page.
pub proof fn law_empty_envelope(
    info: PageInfo,
    stuff: Seq<char>,
    current_page: u32,
    page_size: nat,
    ids: Seq<Oid>,
)
    requires
        page_size >= 1,
        current_page <= 1,
        page_info_describes(info, stuff, current_page, ceil_div(0, page_size), ids),
    ensures
        ceil_div(0, page_size) == 0,
        !info.has_previous_page,
        !info.has_next_page,
{
    law_page_count(0, page_size);
}

} // verus!
