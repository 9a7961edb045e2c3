//! How many bytes the backing storage of a buffer takes.

use vstd::prelude::*;
use vstd::arithmetic::div_mod::{lemma_fundamental_div_mod, lemma_mod_multiples_basic};

verus! {

/// Whether `size` bytes can back a buffer: a positive multiple of the page
/// size that holds whole items only and at least `min_bytes` bytes.
pub open spec fn fits(size: int, item_size: int, min_bytes: int, page_size: int) -> bool {
    &&& size > 0
    &&& size % page_size == 0
    &&& size % item_size == 0
    &&& size >= min_bytes
}

/// Whether `size` is the smallest size that fits.
pub open spec fn is_buffer_size(size: int, item_size: int, min_bytes: int, page_size: int) -> bool {
    &&& fits(size, item_size, min_bytes, page_size)
    &&& forall|s: int| 0 < s < size ==> !#[trigger] fits(s, item_size, min_bytes, page_size)
}

/// At most one size is the smallest that fits.
pub proof fn lemma_buffer_size_unique(a: int, b: int, item_size: int, min_bytes: int, page_size: int)
    requires
        is_buffer_size(a, item_size, min_bytes, page_size),
        is_buffer_size(b, item_size, min_bytes, page_size),
    ensures
        a == b,
{
}

/// A positive multiple of `page` is `j * page` for some `j >= 1`.
proof fn lemma_multiple_index(s: int, page: int) -> (j: int)
    requires
        page > 0,
        0 < s,
        s % page == 0,
    ensures
        1 <= j,
        s == j * page,
        s >= page,
{
    let j = s / page;
    lemma_fundamental_div_mod(s, page);
    assert(s == page * j);
    assert(j >= 1 && s >= page) by (nonlinear_arith)
        requires
            s == page * j,
            page > 0,
            0 < s,
    ;
    assert(page * j == j * page) by (nonlinear_arith);
    j
}

/// Multiplying by a positive number keeps the strict order.
proof fn lemma_index_order(j: int, k: int, page: int)
    requires
        page > 0,
        j * page < k * page,
    ensures
        j < k,
{
    assert(j < k) by (nonlinear_arith)
        requires
            page > 0,
            j * page < k * page,
    ;
}

/// The smallest page-aligned size, in bytes, that holds whole items only and
/// at least `min_bytes` bytes, found by adding one page at a time. The
/// double mapping takes twice that many addresses, so a size whose double
/// does not fit in `usize` is refused with `None`.
pub fn buffer_size(item_size: usize, min_bytes: usize, page_size: usize) -> (r: Option<usize>)
    requires
        item_size > 0,
        page_size > 0,
    ensures
        match r {
            Some(size) => {
                &&& is_buffer_size(size as int, item_size as int, min_bytes as int, page_size as int)
                &&& 2 * size <= usize::MAX
            },
            None => forall|s: int| #[trigger]
                fits(s, item_size as int, min_bytes as int, page_size as int) ==> 2 * s > usize::MAX,
        },
{
    let limit: usize = usize::MAX / 2;
    if page_size > limit {
        proof {
            assert forall|s: int| #[trigger]
                fits(s, item_size as int, min_bytes as int, page_size as int) implies 2 * s
                > usize::MAX by {
                let j = lemma_multiple_index(s, page_size as int);
            }
        }
        return None;
    }
    let mut size: usize = page_size;
    let ghost mut k: int = 1;
    while size < min_bytes || size % item_size != 0
        invariant
            item_size > 0,
            page_size > 0,
            limit == usize::MAX / 2,
            k >= 1,
            size == k * page_size,
            0 < size <= limit,
            forall|j: int|
                1 <= j < k ==> !#[trigger] fits(
                    j * page_size,
                    item_size as int,
                    min_bytes as int,
                    page_size as int,
                ),
        decreases usize::MAX - size,
    {
        if page_size > limit - size {
            proof {
                assert forall|s: int| #[trigger]
                    fits(s, item_size as int, min_bytes as int, page_size as int) implies 2 * s
                    > usize::MAX by {
                    if s < (k + 1) * page_size {
                        assert((k + 1) * page_size == k * page_size + page_size)
                            by (nonlinear_arith);
                        let j = lemma_multiple_index(s, page_size as int);
                        lemma_index_order(j, k + 1, page_size as int);
                        if j < k {
                            assert(!fits(
                                j * page_size,
                                item_size as int,
                                min_bytes as int,
                                page_size as int,
                            ));
                        }
                    } else {
                        assert((k + 1) * page_size == k * page_size + page_size)
                            by (nonlinear_arith);
                    }
                }
            }
            return None;
        }
        proof {
            assert((k + 1) * page_size == k * page_size + page_size) by (nonlinear_arith);
        }
        size = size + page_size;
        proof {
            k = k + 1;
        }
    }
    proof {
        lemma_mod_multiples_basic(k, page_size as int);
        assert forall|s: int| 0 < s < size implies !#[trigger] fits(
            s,
            item_size as int,
            min_bytes as int,
            page_size as int,
        ) by {
            if s % (page_size as int) == 0 {
                let j = lemma_multiple_index(s, page_size as int);
                lemma_index_order(j, k, page_size as int);
                assert(!fits(j * page_size, item_size as int, min_bytes as int, page_size as int));
            }
        }
    }
    Some(size)
}

} // verus!
