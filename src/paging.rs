//! The cursor/page calculator and the page arithmetic of listings.
//!
//! A request names the page the caller believes it is on, and optionally the
//! id of the first or last item it saw. A first-boundary id bounds the window
//! from below, moves one page back, and skips whole pages; a last-boundary id
//! bounds it from above and moves one page forward, with nothing skipped.

use vstd::prelude::*;
use crate::oid::{Oid, is_oid_text, oid_of_text};
use crate::text::{is_unset, is_unset_marker};

verus! {

/// Why a listing request cannot be served.
#[derive(Clone, Copy, Debug, PartialEq, Eq, Structural)]
pub enum PageError {
    /// A boundary id is set but is not 24 hexadecimal digits.
    InvalidBoundary,
    /// The page number leaves the window undefined: page zero, page one
    /// with a first boundary (it would skip a negative number of pages),
    /// or the last page number with a last boundary (no next page number).
    PageOutOfRange,
}

/// The bound that a boundary id puts on the ids of a listing window.
#[derive(Clone, Copy, Debug, PartialEq, Eq, Structural)]
pub enum IdBound {
    Unbounded,
    AtLeast(Oid),
    AtMost(Oid),
}

impl IdBound {
    pub open spec fn admits(self, id: Oid) -> bool {
        match self {
            IdBound::Unbounded => true,
            IdBound::AtLeast(f) => id.value >= f.value,
            IdBound::AtMost(l) => id.value <= l.value,
        }
    }

    pub fn admits_id(&self, id: Oid) -> (r: bool)
        ensures
            r == self.admits(id),
    {
        match self {
            IdBound::Unbounded => true,
            IdBound::AtLeast(f) => id.value >= f.value,
            IdBound::AtMost(l) => id.value <= l.value,
        }
    }
}

/// Where a listing window lies: the page it is reported as, the whole pages
/// to skip, and the bound on ids.
#[derive(Clone, Copy, Debug, PartialEq, Eq, Structural)]
pub struct PagePlan {
    pub current_page: u32,
    pub skip_pages: u32,
    pub id_bound: IdBound,
}

/// The plan for a requested page and the boundary ids that are set.
/// A first boundary wins over a last one.
pub open spec fn plan_of(requested_page: int, first: Option<Oid>, last: Option<Oid>) -> Result<
    PagePlan,
    PageError,
> {
    if requested_page < 1 {
        Err(PageError::PageOutOfRange)
    } else {
        match first {
            Some(f) => if requested_page >= 2 {
                Ok(
                    PagePlan {
                        current_page: (requested_page - 1) as u32,
                        skip_pages: (requested_page - 2) as u32,
                        id_bound: IdBound::AtLeast(f),
                    },
                )
            } else {
                Err(PageError::PageOutOfRange)
            },
            None => match last {
                Some(l) => if requested_page < u32::MAX {
                    Ok(
                        PagePlan {
                            current_page: (requested_page + 1) as u32,
                            skip_pages: 0,
                            id_bound: IdBound::AtMost(l),
                        },
                    )
                } else {
                    Err(PageError::PageOutOfRange)
                },
                None => Ok(
                    PagePlan {
                        current_page: requested_page as u32,
                        skip_pages: 0,
                        id_bound: IdBound::Unbounded,
                    },
                ),
            },
        }
    }
}

/// Computes where the window of a requested page lies.
pub fn resolve_page(requested_page: u32, first: Option<Oid>, last: Option<Oid>) -> (r: Result<
    PagePlan,
    PageError,
>)
    ensures
        r == plan_of(requested_page as int, first, last),
{
    if requested_page < 1 {
        return Err(PageError::PageOutOfRange);
    }
    match first {
        Some(f) => {
            if requested_page >= 2 {
                Ok(
                    PagePlan {
                        current_page: requested_page - 1,
                        skip_pages: requested_page - 2,
                        id_bound: IdBound::AtLeast(f),
                    },
                )
            } else {
                Err(PageError::PageOutOfRange)
            }
        },
        None => match last {
            Some(l) => {
                if requested_page < u32::MAX {
                    Ok(
                        PagePlan {
                            current_page: requested_page + 1,
                            skip_pages: 0,
                            id_bound: IdBound::AtMost(l),
                        },
                    )
                } else {
                    Err(PageError::PageOutOfRange)
                }
            },
            None => Ok(
                PagePlan { current_page: requested_page, skip_pages: 0, id_bound: IdBound::Unbounded },
            ),
        },
    }
}

/// A boundary field: unset (`""` or `"-"`), an id, or malformed.
pub open spec fn boundary_of(s: Seq<char>) -> Result<Option<Oid>, PageError> {
    if is_unset_marker(s) {
        Ok(None)
    } else if is_oid_text(s) {
        Ok(Some(oid_of_text(s)))
    } else {
        Err(PageError::InvalidBoundary)
    }
}

/// Reads a boundary field of a request.
pub fn parse_boundary(s: &str) -> (r: Result<Option<Oid>, PageError>)
    ensures
        r == boundary_of(s@),
{
    if is_unset(s) {
        Ok(None)
    } else {
        match Oid::parse_str(s) {
            Some(id) => Ok(Some(id)),
            None => Err(PageError::InvalidBoundary),
        }
    }
}

/// The plan for a request given as text. The last-boundary field is read
/// only when the first-boundary field is unset.
pub open spec fn plan_of_text(requested_page: int, first: Seq<char>, last: Seq<char>) -> Result<
    PagePlan,
    PageError,
> {
    match boundary_of(first) {
        Err(e) => Err(e),
        Ok(Some(f)) => plan_of(requested_page, Some(f), None),
        Ok(None) => match boundary_of(last) {
            Err(e) => Err(e),
            Ok(l) => plan_of(requested_page, None, l),
        },
    }
}

/// Reads the boundary fields of a request and computes its window.
pub fn calculate_current_filter_skip(from_page: u32, first_oid: &str, last_oid: &str) -> (r: Result<
    PagePlan,
    PageError,
>)
    ensures
        r == plan_of_text(from_page as int, first_oid@, last_oid@),
{
    let first = parse_boundary(first_oid)?;
    if first.is_some() {
        return resolve_page(from_page, first, None);
    }
    let last = parse_boundary(last_oid)?;
    resolve_page(from_page, None, last)
}

/// Process-wide listing configuration: the number of items on a page.
#[derive(Clone, Copy, Debug, PartialEq, Eq, Structural)]
pub struct PageConfig {
    pub page_size: u64,
}

impl PageConfig {
    pub open spec fn wf(&self) -> bool {
        1 <= self.page_size <= u32::MAX
    }

    /// A configuration with the given page size, which must be positive and
    /// fit in 32 bits.
    pub fn new(page_size: u64) -> (r: Option<PageConfig>)
        ensures
            r.is_some() <==> 1 <= page_size <= u32::MAX,
            r.is_some() ==> r.unwrap().page_size == page_size && r.unwrap().wf(),
    {
        if 1 <= page_size && page_size <= u32::MAX as u64 {
            Some(PageConfig { page_size })
        } else {
            None
        }
    }
}

/// `a / b` rounded up.
pub open spec fn ceil_div(a: nat, b: nat) -> nat
    recommends
        b > 0,
{
    if a % b == 0 {
        a / b
    } else {
        a / b + 1
    }
}

/// The number of pages that `total_count` items fill, and the count itself.
pub fn count_pages_and_total(total_count: u64, cfg: &PageConfig) -> (r: (u64, u64))
    requires
        cfg.wf(),
    ensures
        r.0 == ceil_div(total_count as nat, cfg.page_size as nat),
        r.1 == total_count,
{
    let page_size = cfg.page_size;
    let pages = total_count / page_size;
    if total_count % page_size == 0 {
        (pages, total_count)
    } else {
        assert(pages < u64::MAX) by (nonlinear_arith)
            requires
                pages == total_count / page_size,
                total_count % page_size != 0,
                page_size >= 1,
                total_count <= u64::MAX,
        {
            if page_size == 1 {
                assert(total_count % 1 == 0);
            }
            assert(pages <= total_count / 2);
        }
        (pages + 1, total_count)
    }
}

/// The records a find query skips and the most it returns.
#[derive(Clone, Copy, Debug, PartialEq, Eq, Structural)]
pub struct FindWindow {
    pub skip: u64,
    pub limit: u64,
}

/// The window of a plan that skips `skip_pages` whole pages.
pub fn find_options(skip_pages: u32, cfg: &PageConfig) -> (r: FindWindow)
    requires
        cfg.wf(),
    ensures
        r.skip == skip_pages as nat * cfg.page_size as nat,
        r.limit == cfg.page_size,
{
    let skip_pages = skip_pages as u64;
    assert(skip_pages * cfg.page_size <= u32::MAX as nat * u32::MAX as nat) by (nonlinear_arith)
        requires
            skip_pages <= u32::MAX,
            cfg.page_size <= u32::MAX,
    ;
    FindWindow { skip: skip_pages * cfg.page_size, limit: cfg.page_size }
}

} // verus!
