use vstd::prelude::*;

use crate::error::ApiError;

verus! {

/// Number of the first page.
pub const FIRST_PAGE: u32 = 1;

/// A requested page of a listing: 1-based page number and page size.
#[derive(Debug, Clone, Copy, PartialEq, Eq, Structural)]
pub struct PageWindow {
    pub page: u32,
    pub limit: u32,
}

impl PageWindow {
    /// Well-formed: pages count from 1, and the offset of the page's first row
    /// fits the 32-bit range the listing queries use. A page may hold no rows.
    pub open spec fn wf(&self) -> bool {
        &&& self.page >= 1
        &&& (self.page - 1) * self.limit <= u32::MAX
    }

    pub open spec fn offset_spec(&self) -> int {
        (self.page - 1) * self.limit
    }

    /// Number of rows skipped before this page.
    pub fn offset(&self) -> (r: u32)
        requires
            self.wf(),
        ensures
            r == self.offset_spec(),
    {
        proof {
            lemma_u32_product_fits((self.page - 1) as int, self.limit as int);
        }
        let skipped = (self.page - 1) as u64 * self.limit as u64;
        skipped as u32
    }
}

/// The window asked for, with the defaults filled in.
pub open spec fn requested_window(page: Option<u32>, limit: Option<u32>, default_limit: u32) -> PageWindow {
    PageWindow {
        page: match page {
            Some(p) => p,
            None => FIRST_PAGE,
        },
        limit: match limit {
            Some(l) => l,
            None => default_limit,
        },
    }
}

/// The window asked for, or a validation error when it is not well formed.
pub open spec fn window_result(page: Option<u32>, limit: Option<u32>, default_limit: u32) -> Result<
    PageWindow,
    ApiError,
> {
    let w = requested_window(page, limit, default_limit);
    if w.wf() {
        Ok(w)
    } else {
        Err(ApiError::ValidationError)
    }
}

/// The window asked for, or a validation error when it is not well formed or
/// holds no rows: listings that count pages divide by the page size.
pub open spec fn counted_window_result(page: Option<u32>, limit: Option<u32>, default_limit: u32) -> Result<
    PageWindow,
    ApiError,
> {
    let w = requested_window(page, limit, default_limit);
    if w.wf() && w.limit >= 1 {
        Ok(w)
    } else {
        Err(ApiError::ValidationError)
    }
}

/// The window of `?page=&limit=`: page 1 and `default_limit` when absent.
/// Page 0 or an offset past the 32-bit range is a validation error; limit 0
/// asks for an empty page.
pub fn page_window(page: Option<u32>, limit: Option<u32>, default_limit: u32) -> (r: Result<
    PageWindow,
    ApiError,
>)
    ensures
        r == window_result(page, limit, default_limit),
{
    let p = match page {
        Some(p) => p,
        None => FIRST_PAGE,
    };
    let l = match limit {
        Some(l) => l,
        None => default_limit,
    };
    if p == 0 {
        return Err(ApiError::ValidationError);
    }
    proof {
        lemma_u32_product_fits((p - 1) as int, l as int);
    }
    let skipped = (p - 1) as u64 * l as u64;
    if skipped > u32::MAX as u64 {
        return Err(ApiError::ValidationError);
    }
    Ok(PageWindow { page: p, limit: l })
}

/// The window of a listing that counts its pages: as `page_window`, and
/// limit 0 is a validation error as well.
pub fn counted_page_window(page: Option<u32>, limit: Option<u32>, default_limit: u32) -> (r: Result<
    PageWindow,
    ApiError,
>)
    ensures
        r == counted_window_result(page, limit, default_limit),
{
    match page_window(page, limit, default_limit) {
        Ok(w) => if w.limit == 0 {
            Err(ApiError::ValidationError)
        } else {
            Ok(w)
        },
        Err(e) => Err(e),
    }
}

/// The `pagination` object of a listing response.
#[derive(Debug, Clone, Copy, PartialEq, Eq, Structural)]
pub struct PaginationInfo {
    pub page: u32,
    pub limit: u32,
    pub total: usize,
    pub pages: u32,
}

/// Number of pages of `limit` rows that hold `total` rows, capped at `u32::MAX`.
pub open spec fn page_count(total: int, limit: int) -> int {
    let n = (total + limit - 1) / limit;
    if n > u32::MAX {
        u32::MAX as int
    } else {
        n
    }
}

/// Pagination over `total` rows, with as many pages as they fill.
pub fn counted_pagination(window: PageWindow, total: usize) -> (r: PaginationInfo)
    requires
        window.wf(),
        window.limit >= 1,
    ensures
        r.page == window.page,
        r.limit == window.limit,
        r.total == total,
        r.pages == page_count(total as int, window.limit as int),
{
    let l = window.limit as u64;
    let t = total as u64;
    let q = t / l;
    proof {
        lemma_ceil_div(t as int, l as int);
    }
    let pages = if q > u32::MAX as u64 {
        u32::MAX
    } else {
        let n = q + if t % l == 0 {
            0u64
        } else {
            1u64
        };
        if n > u32::MAX as u64 {
            u32::MAX
        } else {
            n as u32
        }
    };
    PaginationInfo { page: window.page, limit: window.limit, total, pages }
}

proof fn lemma_u32_product_fits(a: int, b: int)
    requires
        0 <= a <= u32::MAX,
        0 <= b <= u32::MAX,
    ensures
        0 <= a * b <= u64::MAX,
{
    assert(0 <= a * b <= u32::MAX as int * u32::MAX as int) by (nonlinear_arith)
        requires
            0 <= a <= u32::MAX,
            0 <= b <= u32::MAX,
    ;
}

proof fn lemma_ceil_div(t: int, l: int)
    requires
        t >= 0,
        l > 0,
    ensures
        (t + l - 1) / l == t / l + if t % l == 0 { 0int } else { 1int },
{
    let q = t / l;
    let r = t % l;
    vstd::arithmetic::div_mod::lemma_fundamental_div_mod(t, l);
    let s = t + l - 1;
    assert(s == q * l + (r + l - 1));
    if r == 0 {
        assert(0 <= r + l - 1 < l);
        vstd::arithmetic::div_mod::lemma_fundamental_div_mod_converse(s, l, q, r + l - 1);
    } else {
        assert(0 <= r - 1 < l);
        assert(s == (q + 1) * l + (r - 1)) by (nonlinear_arith)
            requires s == q * l + (r + l - 1);
        vstd::arithmetic::div_mod::lemma_fundamental_div_mod_converse(s, l, q + 1, r - 1);
    }
}

/// Pagination that reports the fetched rows of this page as the total, on a
/// single page: listings that do not count the whole table answer this way.
pub fn fetched_pagination(window: PageWindow, fetched: usize) -> (r: PaginationInfo)
    ensures
        r == (PaginationInfo { page: window.page, limit: window.limit, total: fetched, pages: 1 }),
{
    PaginationInfo { page: window.page, limit: window.limit, total: fetched, pages: 1 }
}

} // verus!
