//! Page-window resolution. The planner first counts all matching rows, then
//! resolves the requested offset against that count: a negative request asks
//! for the last page, a request at or past the end degrades to the last page,
//! anything else is used verbatim. The effective offset is therefore always
//! non-negative, and below the total whenever the total is positive.

use vstd::prelude::*;
use vstd::arithmetic::div_mod::{
    lemma_div_pos_is_pos, lemma_fundamental_div_mod, lemma_mod_bound,
};
use vstd::arithmetic::mul::{lemma_mul_is_commutative, lemma_mul_nonnegative};
use crate::model::{TransactionOut, TxView};

verus! {

/// The offset of the page containing the end of a result set of `total`
/// rows under page size `limit`.
pub open spec fn spec_last_offset(total: int, limit: int) -> int {
    if total == 0 || limit == 0 {
        0
    } else {
        ((total - 1) / limit) * limit
    }
}

/// The offset actually used for a request of `req` against `total` rows.
pub open spec fn spec_effective_offset(total: int, limit: int, req: int) -> int {
    if req < 0 {
        spec_last_offset(total, limit)
    } else if req >= total {
        spec_last_offset(total, limit)
    } else {
        req
    }
}

/// The last-page offset lies in `[0, total)` when `total > 0`, and is `0`
/// otherwise.
pub proof fn lemma_last_offset_bounds(total: int, limit: int)
    requires
        total >= 0,
        limit >= 0,
    ensures
        0 <= spec_last_offset(total, limit),
        total > 0 ==> spec_last_offset(total, limit) < total,
{
    if total != 0 && limit != 0 {
        let q = (total - 1) / limit;
        lemma_div_pos_is_pos(total - 1, limit);
        lemma_mul_nonnegative(q, limit);
        lemma_fundamental_div_mod(total - 1, limit);
        lemma_mod_bound(total - 1, limit);
    }
}

/// Every offset the planner returns is non-negative, and below the total
/// unless the result set is empty.
pub proof fn lemma_effective_offset_bounds(total: int, limit: int, req: int)
    requires
        total >= 0,
        limit >= 0,
    ensures
        0 <= spec_effective_offset(total, limit, req),
        total > 0 ==> spec_effective_offset(total, limit, req) < total,
{
    lemma_last_offset_bounds(total, limit);
}

/// Asking for the last page with the negative sentinel resolves to the same
/// offset as asking for the last-page offset directly.
pub proof fn lemma_last_page_request(total: int, limit: int)
    requires
        total >= 0,
        limit >= 0,
    ensures
        spec_effective_offset(total, limit, -1) == spec_effective_offset(
            total,
            limit,
            spec_last_offset(total, limit),
        ),
{
    lemma_last_offset_bounds(total, limit);
}

/// Computes the last-page offset.
pub fn last_page_offset(total: u64, limit: u64) -> (r: u64)
    ensures
        r as int == spec_last_offset(total as int, limit as int),
{
    if total == 0 || limit == 0 {
        0
    } else {
        let q = (total - 1) / limit;
        proof {
            lemma_div_pos_is_pos(total as int - 1, limit as int);
            lemma_mul_nonnegative(q as int, limit as int);
            lemma_fundamental_div_mod(total as int - 1, limit as int);
            lemma_mod_bound(total as int - 1, limit as int);
            lemma_mul_is_commutative(q as int, limit as int);
            assert(q as int * limit as int <= total as int - 1);
        }
        q * limit
    }
}

/// Resolves the requested offset against the total row count.
pub fn resolve_offset(total: u64, limit: u64, req: i64) -> (r: u64)
    ensures
        r as int == spec_effective_offset(total as int, limit as int, req as int),
        0 <= r,
        total > 0 ==> r < total,
{
    proof {
        lemma_effective_offset_bounds(total as int, limit as int, req as int);
    }
    if req < 0 {
        last_page_offset(total, limit)
    } else if req as u64 >= total {
        last_page_offset(total, limit)
    } else {
        req as u64
    }
}

/// The window of `s` starting at `off`, at most `lim` long.
pub open spec fn spec_page(s: Seq<TxView>, off: int, lim: int) -> Seq<TxView> {
    if off + lim <= s.len() {
        s.subrange(off, off + lim)
    } else {
        s.subrange(off, s.len() as int)
    }
}

/// Copies the page window out of the full sorted result.
pub fn page_rows(rows: &Vec<TransactionOut>, offset: u64, limit: u64) -> (out: Vec<
    TransactionOut,
>)
    requires
        offset <= rows@.len(),
    ensures
        out.deep_view() == spec_page(rows.deep_view(), offset as int, limit as int),
{
    let len = rows.len();
    let end: usize = if limit > (len as u64) - offset {
        len
    } else {
        (offset + limit) as usize
    };
    let mut out: Vec<TransactionOut> = Vec::new();
    let mut i: usize = offset as usize;
    proof {
        assert(out.deep_view() =~= Seq::<TxView>::empty());
        assert(rows.deep_view().subrange(offset as int, offset as int) =~= Seq::<
            TxView,
        >::empty());
    }
    while i < end
        invariant
            offset as int <= i as int <= end as int,
            end as int <= rows@.len(),
            rows.deep_view().len() == rows@.len(),
            end as int == if offset + limit <= rows@.len() {
                offset + limit
            } else {
                rows@.len() as int
            },
            out.deep_view() == rows.deep_view().subrange(offset as int, i as int),
        decreases end - i,
    {
        let ghost prev = out.deep_view();
        let d = rows[i].duplicate();
        let ghost dv = d@;
        proof {
            assert(dv == rows.deep_view()[i as int]);
        }
        out.push(d);
        proof {
            assert(out.deep_view() =~= prev.push(dv));
            assert(prev.push(dv) =~= rows.deep_view().subrange(offset as int, i as int + 1));
        }
        i = i + 1;
    }
    out
}

} // verus!
