//! One-based page requests and the row window they select.

use vstd::prelude::*;

verus! {

/// The page size used when a request names none.
pub const DEFAULT_PER_PAGE: u32 = 50;

/// The largest page size a request can obtain.
pub const MAX_PER_PAGE: u32 = 200;

/// A one-based page request. A missing page number means the first page, a
/// missing page size means [`DEFAULT_PER_PAGE`].
#[derive(Debug)]
pub struct Page {
    pub page: Option<u32>,
    pub per_page: Option<u32>,
}

impl Page {
    /// The page number the request stands for: at least 1.
    pub open spec fn number(&self) -> int {
        match self.page {
            Some(p) => if p < 1 {
                1
            } else {
                p as int
            },
            None => 1,
        }
    }

    /// The number of rows per page the request stands for: between 1 and
    /// [`MAX_PER_PAGE`].
    pub open spec fn size(&self) -> int {
        match self.per_page {
            Some(n) => if n < 1 {
                1
            } else if n > MAX_PER_PAGE {
                MAX_PER_PAGE as int
            } else {
                n as int
            },
            None => DEFAULT_PER_PAGE as int,
        }
    }

    /// The index of the first row of the page in the whole listing.
    pub open spec fn first_row(&self) -> int {
        (self.number() - 1) * self.size()
    }

    /// The index one past the last row the page can hold.
    pub open spec fn end_row(&self) -> int {
        self.first_row() + self.size()
    }

    /// The `(limit, offset)` pair handed to a listing procedure.
    pub fn limit_offset(&self) -> (r: (u32, u32))
        requires
            self.first_row() <= u32::MAX,
        ensures
            r.0 == self.size(),
            r.1 == self.first_row(),
    {
        let page: u32 = match self.page {
            Some(p) => if p < 1 {
                1
            } else {
                p
            },
            None => 1,
        };
        let per: u32 = match self.per_page {
            Some(n) => if n < 1 {
                1
            } else if n > MAX_PER_PAGE {
                MAX_PER_PAGE
            } else {
                n
            },
            None => DEFAULT_PER_PAGE,
        };
        let offset: u32 = (page - 1) * per;
        (per, offset)
    }
}

/// Whether row `i` of a listing of `total` rows is on the page.
pub open spec fn shows_row(page: Page, total: nat, i: int) -> bool {
    0 <= i < total && page.first_row() <= i < page.end_row()
}

/// The page of size `per_page` that holds row `i`.
pub open spec fn page_of_row(per_page: Option<u32>, i: int) -> int {
    i / (Page { page: None, per_page }).size() + 1
}

/// Pages of one size follow each other without a gap: each page ends where
/// the next one begins.
pub proof fn pages_are_adjacent(page: Page, next: Page)
    requires
        page.per_page == next.per_page,
        next.number() == page.number() + 1,
    ensures
        next.first_row() == page.end_row(),
{
    let size = page.size();
    assert((page.number() + 1 - 1) * size == (page.number() - 1) * size + size)
        by (nonlinear_arith);
}

/// Two different pages of one size share no row.
pub proof fn pages_are_disjoint(a: Page, b: Page, total: nat, i: int)
    requires
        a.per_page == b.per_page,
        a.number() != b.number(),
    ensures
        !(shows_row(a, total, i) && shows_row(b, total, i)),
{
    let size = a.size();
    let m = a.number() - 1;
    let n = b.number() - 1;
    if m < n {
        assert(m * size + size <= n * size) by (nonlinear_arith)
            requires
                m + 1 <= n,
                size >= 1,
        ;
    } else {
        assert(n * size + size <= m * size) by (nonlinear_arith)
            requires
                n + 1 <= m,
                size >= 1,
        ;
    }
}

/// Every row of a listing is on exactly the page that [`page_of_row`] names,
/// so the pages together show the whole listing.
pub proof fn pages_cover(page: Page, total: nat, i: int)
    requires
        0 <= i < total,
        page.number() == page_of_row(page.per_page, i),
    ensures
        shows_row(page, total, i),
{
    let size = page.size();
    let q = i / size;
    assert(q * size <= i < q * size + size) by (nonlinear_arith)
        requires
            q == i / size,
            size >= 1,
            i >= 0,
    ;
}

} // verus!
