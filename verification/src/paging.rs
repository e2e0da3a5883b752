//! Lists that are shown page by page.
use vstd::prelude::*;

verus! {

/// How many threads a page of the front page lists.
pub const THREADS_PER_PAGE: i64 = 20;

/// How many posts a page of a thread lists.
pub const POSTS_PER_PAGE: i64 = 50;

/// The page that a request asks for: the first where it asks for none, or for one before it.
pub open spec fn page_number(page: Option<i64>) -> i64 {
    match page {
        Some(n) => if n < 1 {
            1
        } else {
            n
        },
        None => 1,
    }
}

/// How many entries come before those of a page.
pub open spec fn page_offset(page: Option<i64>, per_page: i64) -> int {
    (page_number(page) - 1) * per_page
}

/// Whether the number of entries before a page can be told.
pub open spec fn page_fits(page: Option<i64>, per_page: i64) -> bool {
    page_offset(page, per_page) <= i64::MAX
}

/// How many pages `total` entries take: as many as hold them all, and at least one.
pub open spec fn page_count(total: int, per_page: int) -> int {
    if total <= 0 {
        1
    } else {
        (total + per_page - 1) / per_page
    }
}

/// The page that a request asks for.
pub fn requested_page(page: Option<i64>) -> (r: i64)
    ensures
        r == page_number(page),
{
    match page {
        Some(n) => if n < 1 {
            1
        } else {
            n
        },
        None => 1,
    }
}

/// Whether the number of entries before a page can be told.
pub fn is_page(page: Option<i64>, per_page: i64) -> (r: bool)
    requires
        0 < per_page,
    ensures
        r == page_fits(page, per_page),
{
    let n = requested_page(page);
    proof {
        assert((n - 1) * per_page <= i64::MAX * i64::MAX) by (nonlinear_arith)
            requires
                1 <= n <= i64::MAX,
                0 < per_page <= i64::MAX,
        ;
        assert(0 <= (n - 1) * per_page) by (nonlinear_arith)
            requires
                1 <= n,
                0 < per_page,
        ;
    }
    (n as i128 - 1) * (per_page as i128) <= i64::MAX as i128
}

/// How many entries come before those of a page.
pub fn offset_of(page: Option<i64>, per_page: i64) -> (r: i64)
    requires
        0 < per_page,
        page_fits(page, per_page),
    ensures
        r == page_offset(page, per_page),
        r >= 0,
{
    let n = requested_page(page);
    proof {
        assert(0 <= (n - 1) * per_page) by (nonlinear_arith)
            requires
                1 <= n,
                0 < per_page,
        ;
    }
    (n - 1) * per_page
}

/// How many entries come before those of a page, or as many as can be told.
pub open spec fn capped_offset(page: Option<i64>, per_page: i64) -> i64 {
    if page_fits(page, per_page) {
        page_offset(page, per_page) as i64
    } else {
        i64::MAX
    }
}

/// How many entries come before those of a page, or as many as can be told.
pub fn offset_within(page: Option<i64>, per_page: i64) -> (r: i64)
    requires
        0 < per_page,
    ensures
        r == capped_offset(page, per_page),
        page_fits(page, per_page) ==> r == page_offset(page, per_page),
{
    if is_page(page, per_page) {
        offset_of(page, per_page)
    } else {
        i64::MAX
    }
}

/// How many pages `total` entries take.
pub fn pages_of(total: i64, per_page: i64) -> (r: i64)
    requires
        0 < per_page,
    ensures
        r == page_count(total as int, per_page as int),
        r >= 1,
{
    if total <= 0 {
        1
    } else {
        proof {
            let t = total as int;
            let p = per_page as int;
            assert(1 <= (t + p - 1) / p <= t) by (nonlinear_arith)
                requires
                    t >= 1,
                    p >= 1,
            ;
        }
        ((total as i128 + per_page as i128 - 1) / (per_page as i128)) as i64
    }
}

/// The pages hold every entry once: entry `k` of `total` stands on exactly one of the pages
/// from the first to the last, and on the last page stands at least one entry.
pub proof fn law_pages_cover(total: int, per_page: int, k: int)
    requires
        per_page > 0,
        0 <= k < total,
    ensures
        exists|n: int|
            1 <= n <= page_count(total, per_page) && #[trigger] ((n - 1) * per_page) <= k < (n - 1)
                * per_page + per_page,
        forall|n: int, m: int|
            #[trigger] ((n - 1) * per_page) <= k < (n - 1) * per_page + per_page && #[trigger] ((m - 1)
                * per_page) <= k < (m - 1) * per_page + per_page ==> n == m,
        (page_count(total, per_page) - 1) * per_page < total <= page_count(total, per_page)
            * per_page,
{
    let last = page_count(total, per_page);
    let n = k / per_page + 1;
    vstd::arithmetic::div_mod::lemma_fundamental_div_mod(k, per_page);
    vstd::arithmetic::div_mod::lemma_fundamental_div_mod(total + per_page - 1, per_page);
    vstd::arithmetic::mul::lemma_mul_is_commutative(per_page, k / per_page);
    vstd::arithmetic::mul::lemma_mul_is_commutative(per_page, last);
    assert((last - 1) * per_page == last * per_page - per_page) by (nonlinear_arith);
    assert((n - 1) * per_page <= k < (n - 1) * per_page + per_page);
    assert(n <= last) by (nonlinear_arith)
        requires
            (n - 1) * per_page <= k,
            k < total,
            total <= last * per_page,
            per_page > 0,
    ;
    assert(n >= 1) by (nonlinear_arith)
        requires
            n == k / per_page + 1,
            k >= 0,
            per_page > 0,
    ;
    assert forall|n: int, m: int|
        #[trigger] ((n - 1) * per_page) <= k < (n - 1) * per_page + per_page && #[trigger] ((m - 1)
            * per_page) <= k < (m - 1) * per_page + per_page implies n == m by {
        assert(n == m) by (nonlinear_arith)
            requires
                (n - 1) * per_page <= k,
                k < (n - 1) * per_page + per_page,
                (m - 1) * per_page <= k,
                k < (m - 1) * per_page + per_page,
                per_page > 0,
        ;
    }
}

} // verus!
