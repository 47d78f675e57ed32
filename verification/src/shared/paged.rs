use vstd::prelude::*;

verus! {

/// One page of a listing, with the size of the whole listing.
pub struct Paged<T> {
    pub items: Vec<T>,
    pub total_items: usize,
    pub total_pages: usize,
    pub page: usize,
}

impl<T> Default for Paged<T> {
    /// An empty first page of an empty listing, counted as one page.
    fn default() -> (r: Self)
        ensures
            r.items@.len() == 0,
            r.total_items == 0,
            r.total_pages == 1,
            r.page == 1,
    {
        Paged { items: Vec::new(), total_items: 0, total_pages: 1, page: 1 }
    }
}

/// The number of items on a listing and one page of its items.
pub type PageTuple<T> = (usize, Vec<T>);

/// Normalized pagination parameters: how many items to skip and how many to
/// take.
#[derive(Debug, Clone, Copy, PartialEq, Eq, Structural)]
pub struct PageQueryParams {
    pub skip: usize,
    pub take: usize,
}

impl Default for PageQueryParams {
    /// The first twenty items.
    fn default() -> (r: Self)
        ensures
            r.skip == 0,
            r.take == 20,
    {
        PageQueryParams { skip: 0, take: 20 }
    }
}

/// Pagination parameters as a request states them: a page number counted
/// from 1 and a page size.
#[derive(Debug, Clone, Copy, Default, PartialEq, Eq, Structural)]
pub struct RequestPageParams {
    pub page: usize,
    pub per_page: usize,
}

/// The number of items before page `page` (counted from 1) of pages of
/// `per_page` items; page 0 is read as the first page.
pub open spec fn skip_for(page: int, per_page: int) -> int {
    if page >= 1 {
        (page - 1) * per_page
    } else {
        0
    }
}

/// The number of pages that `total_items` items fill at `per_page` items a
/// page, the last page possibly partial. Without a page size, an empty
/// listing has no pages and any other has as many as `usize` can count.
pub open spec fn pages_for(total_items: int, per_page: int) -> int {
    if per_page == 0 {
        if total_items == 0 {
            0
        } else {
            usize::MAX as int
        }
    } else if total_items % per_page == 0 {
        total_items / per_page
    } else {
        total_items / per_page + 1
    }
}

impl PageQueryParams {
    /// Turns a page number and size into the number of items to skip and to
    /// take.
    pub fn from(params: RequestPageParams) -> (r: PageQueryParams)
        requires
            skip_for(params.page as int, params.per_page as int) <= usize::MAX,
        ensures
            r.skip == skip_for(params.page as int, params.per_page as int),
            r.take == params.per_page,
    {
        let before: usize = if params.page >= 1 { params.page - 1 } else { 0 };
        PageQueryParams { skip: before * params.per_page, take: params.per_page }
    }
}

impl<T> Paged<T> {
    /// Builds the page that holds `items` out of a listing of `total_items`
    /// items, numbered as `params` asks.
    pub fn from_tuple(tuple: PageTuple<T>, params: RequestPageParams) -> (r: Self)
        ensures
            r.items@ == tuple.1@,
            r.total_items == tuple.0,
            r.total_pages == pages_for(tuple.0 as int, params.per_page as int),
            r.page == params.page,
    {
        let (total_items, items) = tuple;
        let total_pages: usize = if params.per_page == 0 {
            if total_items == 0 {
                0
            } else {
                usize::MAX
            }
        } else if total_items % params.per_page == 0 {
            total_items / params.per_page
        } else {
            assert(params.per_page >= 2);
            assert(total_items / params.per_page <= total_items / 2) by (nonlinear_arith)
                requires params.per_page >= 2;
            total_items / params.per_page + 1
        };
        Paged { items, total_items, total_pages, page: params.page }
    }
}

/// With a page size, the pages that `Paged::from_tuple` counts are exactly
/// enough: they hold all the items, and one page fewer would not.
pub proof fn pages_cover_items(total_items: usize, per_page: usize)
    requires
        per_page > 0,
    ensures
        pages_for(total_items as int, per_page as int) * per_page >= total_items,
        (pages_for(total_items as int, per_page as int) - 1) * per_page < total_items
            || total_items == 0,
{
    let t = total_items as int;
    let p = per_page as int;
    let q = t / p;
    let m = t % p;
    assert(t == q * p + m && 0 <= m < p) by (nonlinear_arith)
        requires p > 0, q == t / p, m == t % p;
    if m == 0 {
        assert(pages_for(t, p) == q);
        assert(q * p >= t);
        if t > 0 {
            assert((q - 1) * p < t) by (nonlinear_arith)
                requires t == q * p, p > 0, t > 0;
        }
    } else {
        assert(pages_for(t, p) == q + 1);
        assert((q + 1) * p >= t) by (nonlinear_arith)
            requires t == q * p + m, m < p;
        assert((q + 1 - 1) * p < t) by (nonlinear_arith)
            requires t == q * p + m, m > 0;
    }
}

/// Every page that `Paged::from_tuple` counts starts inside the listing
/// when read through `PageQueryParams::from`, and the page after the last one
/// starts past its end.
pub proof fn counted_pages_start_inside(total_items: usize, per_page: usize, page: usize)
    requires
        per_page > 0,
        1 <= page,
    ensures
        page <= pages_for(total_items as int, per_page as int)
            ==> skip_for(page as int, per_page as int) < total_items,
        page > pages_for(total_items as int, per_page as int)
            ==> skip_for(page as int, per_page as int) >= total_items,
{
    pages_cover_items(total_items, per_page);
    let n = pages_for(total_items as int, per_page as int);
    let p = per_page as int;
    let t = total_items as int;
    let k = page as int;
    if k <= n {
        assert(n >= 1);
        assert(t > 0 || n == 0) by {
            if t == 0 {
                assert(t % p == 0);
                assert(t / p == 0);
            }
        }
        assert((k - 1) * p <= (n - 1) * p) by (nonlinear_arith)
            requires k <= n, p > 0;
    } else {
        assert((k - 1) * p >= n * p) by (nonlinear_arith)
            requires k - 1 >= n, p > 0;
    }
}

} // verus!
