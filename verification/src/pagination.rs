//! Page-size, page-number and offset normalization for the listing
//! gateway. Requested values are clamped against a hard per-request
//! ceiling and against the total page count derived from the row count,
//! so that every offset the gateway emits is in range and no arithmetic
//! can overflow or divide by zero.

use vstd::prelude::*;

use crate::model::Params;

verus! {

/// Hard ceiling on rows per request; it bounds the cost of one query
/// against the unpooled, serialized secondary session.
pub const MAX_PAGE_SIZE: u32 = 20;

/// Largest row count the gateway accepts: the secondary store reports
/// counts as a signed 32-bit integer.
pub const MAX_TOTAL_COUNT: u32 = 0x7fff_ffff;

/// A requested size is used only if it lies in (0, MAX_PAGE_SIZE];
/// anything else (absent, zero, too large) becomes MAX_PAGE_SIZE.
pub open spec fn spec_page_size(requested: Option<u32>) -> u32 {
    match requested {
        Some(s) => if 0 < s <= MAX_PAGE_SIZE {
            s
        } else {
            MAX_PAGE_SIZE
        },
        None => MAX_PAGE_SIZE,
    }
}

/// Ceiling division on mathematical integers.
pub open spec fn spec_ceil_div(a: int, b: int) -> int {
    (a + b - 1) / b
}

/// Number of pages needed for `total_count` rows at `page_size` rows per
/// page; zero rows give zero pages.
pub open spec fn spec_total_pages(total_count: u32, page_size: u32) -> int {
    spec_ceil_div(total_count as int, page_size as int)
}

/// A requested page defaults to 1, a request of 0 is treated as 1, and
/// the result is clamped down to `total_pages` (which may be 0).
pub open spec fn spec_page_number(requested: Option<u32>, total_pages: u32) -> u32 {
    let wanted = match requested {
        Some(p) => if p == 0 {
            1u32
        } else {
            p
        },
        None => 1u32,
    };
    if wanted > total_pages {
        total_pages
    } else {
        wanted
    }
}

/// Offset of the first row of `page` at `page_size` rows per page; page 0
/// (an empty listing) has offset 0.
pub open spec fn spec_offset(page: u32, page_size: u32) -> int {
    if page == 0 {
        0
    } else {
        (page - 1) * page_size
    }
}

/// The fully normalized paging decision for one listing request.
pub struct PagePlan {
    pub page_size: u32,
    pub total_pages: u32,
    pub current_page: u32,
    pub offset: u32,
}

impl PagePlan {
    /// Well-formedness: the page is in range, the size respects the
    /// ceiling, and the offset points at the start of the current page.
    pub open spec fn wf(self) -> bool {
        &&& 0 < self.page_size <= MAX_PAGE_SIZE
        &&& self.current_page <= self.total_pages
        &&& self.offset == spec_offset(self.current_page, self.page_size)
    }
}

/// Clamps a requested page size into (0, MAX_PAGE_SIZE].
pub fn normalize_page_size(requested: Option<u32>) -> (size: u32)
    ensures
        size == spec_page_size(requested),
        0 < size <= MAX_PAGE_SIZE,
{
    match requested {
        Some(s) => if 0 < s && s <= MAX_PAGE_SIZE {
            s
        } else {
            MAX_PAGE_SIZE
        },
        None => MAX_PAGE_SIZE,
    }
}

/// Bounds on ceiling division: the quotient covers all rows, is no larger
/// than the row count, and all pages but the last are full.
proof fn lemma_ceil_div_bounds(a: int, b: int)
    requires
        0 <= a,
        0 < b,
    ensures
        0 <= spec_ceil_div(a, b) <= a,
        spec_ceil_div(a, b) * b >= a,
        a > 0 ==> (spec_ceil_div(a, b) - 1) * b < a,
        a == 0 ==> spec_ceil_div(a, b) == 0,
{
    assert(0 <= (a + b - 1) / b <= a && ((a + b - 1) / b) * b >= a && (a > 0 ==> ((a + b - 1) / b
        - 1) * b < a) && (a == 0 ==> (a + b - 1) / b == 0)) by (nonlinear_arith)
        requires
            0 <= a,
            0 < b,
    ;
}

/// Derives the total page count from the row count.
pub fn total_pages_for(total_count: u32, page_size: u32) -> (pages: u32)
    requires
        0 < page_size,
    ensures
        pages == spec_total_pages(total_count, page_size),
        pages <= total_count,
{
    proof {
        lemma_ceil_div_bounds(total_count as int, page_size as int);
    }
    (((total_count as u64) + (page_size as u64) - 1) / (page_size as u64)) as u32
}

/// Clamps a requested page number into [0 or 1, total_pages].
pub fn normalize_page_number(requested: Option<u32>, total_pages: u32) -> (page: u32)
    ensures
        page == spec_page_number(requested, total_pages),
        page <= total_pages,
{
    let wanted: u32 = match requested {
        Some(p) => if p == 0 {
            1
        } else {
            p
        },
        None => 1,
    };
    if wanted > total_pages {
        total_pages
    } else {
        wanted
    }
}

/// Normalizes one listing request: clamps the page size, derives the page
/// count from the row count, clamps the page number and computes the row
/// offset. No step divides by zero, underflows or overflows.
pub fn plan_page(params: &Params, total_count: u32) -> (plan: PagePlan)
    requires
        total_count <= MAX_TOTAL_COUNT,
    ensures
        plan.wf(),
        plan.page_size == spec_page_size(params.size),
        plan.total_pages == spec_total_pages(total_count, plan.page_size),
        plan.current_page == spec_page_number(params.page, plan.total_pages),
        plan.offset == spec_offset(plan.current_page, plan.page_size),
        plan.offset <= total_count,
{
    let page_size = normalize_page_size(params.size);
    let total_pages = total_pages_for(total_count, page_size);
    let current_page = normalize_page_number(params.page, total_pages);
    proof {
        lemma_ceil_div_bounds(total_count as int, page_size as int);
        if current_page > 0 {
            assert((current_page - 1) * page_size <= (total_pages - 1) * page_size
                < total_count) by (nonlinear_arith)
                requires
                    0 < current_page <= total_pages,
                    0 < page_size,
                    (total_pages - 1) * page_size < total_count,
            ;
        }
    }
    let offset: u32 = if current_page == 0 {
        0
    } else {
        (current_page - 1) * page_size
    };
    PagePlan { page_size, total_pages, current_page, offset }
}

} // verus!
