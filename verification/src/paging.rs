//! Arithmetic of paged lists: how many pages a result fills and where a page
//! starts. Pages count from 1.

use vstd::prelude::*;

verus! {

/// Number of pages of `limit` items that `total` items fill: `total / limit`,
/// rounded up.
pub open spec fn pages_needed(total: nat, limit: nat) -> nat
    recommends
        limit > 0,
{
    (total + limit - 1) as nat / limit
}

/// `pages_needed` is the least number of pages that hold all items: that many
/// pages hold them, one page fewer does not.
pub proof fn lemma_pages_needed_is_ceiling(total: nat, limit: nat)
    requires
        limit > 0,
    ensures
        pages_needed(total, limit) * limit >= total,
        total > 0 ==> (pages_needed(total, limit) - 1) * limit < total,
        total == 0 <==> pages_needed(total, limit) == 0,
        pages_needed(total, limit) <= total,
{
    let p = pages_needed(total, limit);
    let n = (total + limit - 1) as nat;
    assert(n == limit * (n / limit) + n % limit && 0 <= n % limit < limit) by (nonlinear_arith)
        requires
            limit > 0,
            n >= 0,
    ;
    assert(p * limit == limit * p) by (nonlinear_arith);
    assert((p - 1) * limit == p * limit - limit) by (nonlinear_arith);
    if total == 0 {
        assert(p == 0) by (nonlinear_arith)
            requires
                n == limit * p + n % limit,
                n < limit,
                limit > 0,
                p >= 0,
                n % limit >= 0,
        ;
    } else {
        assert(p >= 1) by (nonlinear_arith)
            requires
                n == limit * p + n % limit,
                n >= limit,
                n % limit < limit,
                limit > 0,
                p >= 0,
        ;
        assert(p <= total) by (nonlinear_arith)
            requires
                p * limit >= 0,
                p * limit <= total + limit - 1,
                limit >= 1,
                p >= 1,
                total >= 1,
        ;
    }
}

/// Number of pages of `limit` items that `total` items fill.
pub fn total_pages(total: u32, limit: u32) -> (pages: u32)
    requires
        limit > 0,
    ensures
        pages == pages_needed(total as nat, limit as nat),
{
    let n: u64 = total as u64 + limit as u64 - 1;
    let pages: u64 = n / (limit as u64);
    proof {
        lemma_pages_needed_is_ceiling(total as nat, limit as nat);
    }
    pages as u32
}

/// Number of the first item of page `page` of a list with `limit` items to
/// the page, counting items from 0: pages lie `limit` items apart. There is
/// none for page 0.
pub open spec fn page_start(page: nat, limit: nat) -> Option<nat> {
    if page == 0 {
        None
    } else {
        Some(((page - 1) * limit) as nat)
    }
}

/// Whether item number `item`, counting from 0, stands on page `page` of a
/// list whose pages lie `limit` items apart.
pub open spec fn on_page(item: nat, page: nat, limit: nat) -> bool {
    match page_start(page, limit) {
        Some(start) => start <= item < start + limit,
        None => false,
    }
}

/// Pages that lie `limit` items apart hold each of `total` items exactly
/// once: every item stands on one of the pages 1 to
/// `pages_needed(total, limit)`, and on no other page. So no item is left
/// out between two pages, and none is shown twice.
pub proof fn lemma_pages_hold_each_item_once(total: nat, limit: nat, item: nat, page: nat)
    requires
        limit > 0,
        item < total,
    ensures
        on_page(item, item / limit + 1, limit),
        1 <= item / limit + 1 <= pages_needed(total, limit),
        on_page(item, page, limit) ==> page == item / limit + 1,
{
    let q = item / limit;
    assert(item == limit * q + item % limit && 0 <= item % limit < limit) by (nonlinear_arith)
        requires
            limit > 0,
            q == item / limit,
    ;
    assert(((q + 1) - 1) * limit == limit * q) by (nonlinear_arith);
    lemma_pages_needed_is_ceiling(total, limit);
    let pages = pages_needed(total, limit);
    assert(q + 1 <= pages) by (nonlinear_arith)
        requires
            pages * limit >= total,
            item < total,
            item >= limit * q,
            limit > 0,
            q >= 0,
            pages >= 0,
    ;
    if on_page(item, page, limit) {
        let start = ((page - 1) * limit) as nat;
        assert(page - 1 == q) by (nonlinear_arith)
            requires
                page >= 1,
                (page - 1) * limit <= item,
                item < (page - 1) * limit + limit,
                item == limit * q + item % limit,
                0 <= item % limit < limit,
                limit > 0,
                q >= 0,
        ;
    }
}

/// Number of the first item of page `page`: `None` where `page` is 0 or the
/// number does not fit in 32 bits.
pub fn page_offset(page: u32, limit: u32) -> (r: Option<u32>)
    ensures
        match page_start(page as nat, limit as nat) {
            Some(start) => if start <= u32::MAX {
                r == Some(start as u32)
            } else {
                r is None
            },
            None => r is None,
        },
{
    if page == 0 {
        return None;
    }
    let before: u64 = page as u64 - 1;
    let step: u64 = limit as u64;
    assert(before * step <= 0xffff_ffff * 0xffff_ffff) by (nonlinear_arith)
        requires
            0 <= before <= 0xffff_ffff,
            0 <= step <= 0xffff_ffff,
    ;
    let start: u64 = before * step;
    if start > 0xffff_ffff {
        None
    } else {
        Some(start as u32)
    }
}

/// The page to ask for after `current` pages of a list of `total_page` pages
/// have been loaded: the next one, while there is one.
pub fn page_after(current: u32, total_page: u32) -> (r: Option<u32>)
    ensures
        current < total_page ==> r == Some((current + 1) as u32),
        current >= total_page ==> r is None,
{
    if current < total_page {
        Some(current + 1)
    } else {
        None
    }
}

} // verus!
