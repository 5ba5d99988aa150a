//! The search operation: filter, count, aggregate, sort and paginate one
//! snapshot of transaction rows against a raw search request.
//!
//! The whole result is a function of the snapshot and the request alone, so
//! searching twice over an unchanged snapshot returns identical results.

use vstd::prelude::*;
use crate::model::{TransactionOut, TxSearch, TxSearchResult, TxSearchResultView, TxSearchView, TxView, AccountKind};
use crate::filter::{normalize, filter_rows, spec_matches, spec_normalize, FilterSpecView};
use crate::order::{lemma_sort_len, sort_rows, spec_sort, OrderSpec};
use crate::paging::{
    lemma_last_page_request, page_rows, resolve_offset, spec_effective_offset, spec_last_offset,
    spec_page,
};
use crate::aggregate::{
    aggregate, spec_sum_expense, spec_sum_expense_kind, spec_sum_income, spec_sum_income_kind,
    spec_sum_init,
};

verus! {

/// The ordering a normalized filter requests.
pub open spec fn spec_order_of(f: FilterSpecView) -> OrderSpec {
    OrderSpec { key: f.sort_key, descending: f.descending }
}

/// All rows of the snapshot matching the request, in snapshot order.
pub open spec fn spec_filtered(store: Seq<TxView>, r: TxSearchView) -> Seq<TxView> {
    store.filter(|t: TxView| spec_matches(spec_normalize(r), t))
}

/// The complete search result a snapshot and a request determine: the page
/// window of the sorted matching rows, the total count, the effective
/// offset, and the sums over every matching row (never just the page).
pub open spec fn spec_search(store: Seq<TxView>, r: TxSearchView) -> TxSearchResultView {
    let f = spec_normalize(r);
    let matched = spec_filtered(store, r);
    let total = matched.len() as int;
    let eo = spec_effective_offset(total, f.limit, f.offset);
    let sorted = spec_sort(spec_order_of(f), matched);
    TxSearchResultView {
        items: spec_page(sorted, eo, f.limit),
        total: total,
        offset: eo,
        sum_income: spec_sum_income(matched),
        sum_expense: spec_sum_expense(matched),
        sum_income_std: spec_sum_income_kind(matched, AccountKind::Standard),
        sum_expense_std: spec_sum_expense_kind(matched, AccountKind::Standard),
        sum_income_reimb: spec_sum_income_kind(matched, AccountKind::Reimbursable),
        sum_expense_reimb: spec_sum_expense_kind(matched, AccountKind::Reimbursable),
        sum_init: spec_sum_init(matched),
    }
}

/// Searches a snapshot of the ledger: returns the requested page of the
/// matching rows in the requested order, the total count of matching rows,
/// the offset actually used, and the category-partitioned sums over the
/// entire filtered set.
pub fn search_transactions(store: &Vec<TransactionOut>, filters: &TxSearch) -> (r: TxSearchResult)
    ensures
        r@ == spec_search(store.deep_view(), filters@),
        r.offset as int == spec_effective_offset(
            r.total as int,
            spec_normalize(filters@).limit,
            spec_normalize(filters@).offset,
        ),
        r.total > 0 ==> r.offset < r.total,
{
    let f = normalize(filters);
    let matched = filter_rows(store, &f);
    let total: u64 = matched.len() as u64;
    let limit: u64 = f.limit as u64;
    let eo = resolve_offset(total, limit, f.offset);
    let sums = aggregate(&matched);
    let ord = OrderSpec { key: f.sort_key, descending: f.descending };
    let sorted = sort_rows(ord, &matched);
    proof {
        lemma_sort_len(ord, matched.deep_view());
    }
    let items = page_rows(&sorted, eo, limit);
    let result = TxSearchResult {
        items,
        total,
        offset: eo,
        sum_income: sums.income,
        sum_expense: sums.expense,
        sum_income_std: sums.income_std,
        sum_expense_std: sums.expense_std,
        sum_income_reimb: sums.income_reimb,
        sum_expense_reimb: sums.expense_reimb,
        sum_init: sums.init,
    };
    proof {
        assert(result@ =~= spec_search(store.deep_view(), filters@));
    }
    result
}

/// All matching rows in the requested order, without a page window — what
/// the document exports consume. The renderer takes these rows and the sums
/// of `aggregate`; it never recomputes them.
pub fn export_rows(store: &Vec<TransactionOut>, filters: &TxSearch) -> (r: Vec<TransactionOut>)
    ensures
        r.deep_view() == spec_sort(
            spec_order_of(spec_normalize(filters@)),
            spec_filtered(store.deep_view(), filters@),
        ),
{
    let f = normalize(filters);
    let matched = filter_rows(store, &f);
    let ord = OrderSpec { key: f.sort_key, descending: f.descending };
    sort_rows(ord, &matched)
}

/// Searching twice with an unchanged snapshot and the same request yields
/// the identical result: item order, sums and offset included.
pub proof fn lemma_search_idempotent(
    store: Seq<TxView>,
    r: TxSearchView,
    out1: TxSearchResultView,
    out2: TxSearchResultView,
)
    requires
        out1 == spec_search(store, r),
        out2 == spec_search(store, r),
    ensures
        out1 == out2,
{
}

/// The sums of a search result are the sums over every matching row under
/// the same filter — the brute-force scan over the predicate — no matter
/// which page was requested.
pub proof fn lemma_sums_are_whole_set(store: Seq<TxView>, r: TxSearchView)
    ensures
        spec_search(store, r).sum_income == spec_sum_income(spec_filtered(store, r)),
        spec_search(store, r).sum_expense == spec_sum_expense(spec_filtered(store, r)),
        spec_search(store, r).sum_income_std == spec_sum_income_kind(
            spec_filtered(store, r),
            AccountKind::Standard,
        ),
        spec_search(store, r).sum_expense_std == spec_sum_expense_kind(
            spec_filtered(store, r),
            AccountKind::Standard,
        ),
        spec_search(store, r).sum_income_reimb == spec_sum_income_kind(
            spec_filtered(store, r),
            AccountKind::Reimbursable,
        ),
        spec_search(store, r).sum_expense_reimb == spec_sum_expense_kind(
            spec_filtered(store, r),
            AccountKind::Reimbursable,
        ),
        spec_search(store, r).sum_init == spec_sum_init(spec_filtered(store, r)),
{
}

proof fn lemma_filtered_congruent(store: Seq<TxView>, r1: TxSearchView, r2: TxSearchView)
    requires
        r1.query == r2.query,
        r1.account_id == r2.account_id,
        r1.date_from == r2.date_from,
        r1.date_to == r2.date_to,
        r1.tx_type == r2.tx_type,
    ensures
        spec_filtered(store, r1) == spec_filtered(store, r2),
    decreases store.len(),
{
    reveal(Seq::filter);
    if store.len() > 0 {
        lemma_filtered_congruent(store.drop_last(), r1, r2);
        assert(spec_matches(spec_normalize(r1), store.last()) == spec_matches(
            spec_normalize(r2),
            store.last(),
        ));
    }
}

/// Page-window independence: two requests that differ only in limit and
/// offset see the same total and the same sums.
pub proof fn lemma_sums_independent_of_page(store: Seq<TxView>, r1: TxSearchView, r2: TxSearchView)
    requires
        r1.query == r2.query,
        r1.account_id == r2.account_id,
        r1.date_from == r2.date_from,
        r1.date_to == r2.date_to,
        r1.tx_type == r2.tx_type,
    ensures
        spec_search(store, r1).total == spec_search(store, r2).total,
        spec_search(store, r1).sum_income == spec_search(store, r2).sum_income,
        spec_search(store, r1).sum_expense == spec_search(store, r2).sum_expense,
        spec_search(store, r1).sum_income_std == spec_search(store, r2).sum_income_std,
        spec_search(store, r1).sum_expense_std == spec_search(store, r2).sum_expense_std,
        spec_search(store, r1).sum_income_reimb == spec_search(store, r2).sum_income_reimb,
        spec_search(store, r1).sum_expense_reimb == spec_search(store, r2).sum_expense_reimb,
        spec_search(store, r1).sum_init == spec_search(store, r2).sum_init,
{
    lemma_filtered_congruent(store, r1, r2);
}

/// Requesting the last page with the negative sentinel returns exactly the
/// page that requesting the last-page offset directly returns.
pub proof fn lemma_negative_offset_is_last_page(
    store: Seq<TxView>,
    r1: TxSearchView,
    r2: TxSearchView,
)
    requires
        r1.query == r2.query,
        r1.account_id == r2.account_id,
        r1.date_from == r2.date_from,
        r1.date_to == r2.date_to,
        r1.tx_type == r2.tx_type,
        r1.sort_by == r2.sort_by,
        r1.sort_dir == r2.sort_dir,
        r1.limit == r2.limit,
        spec_normalize(r1).offset < 0,
        spec_normalize(r2).offset == spec_last_offset(
            spec_filtered(store, r1).len() as int,
            spec_normalize(r1).limit,
        ),
    ensures
        spec_search(store, r1) == spec_search(store, r2),
{
    lemma_filtered_congruent(store, r1, r2);
    let f1 = spec_normalize(r1);
    let total = spec_filtered(store, r1).len() as int;
    lemma_last_page_request(total, f1.limit);
}

} // verus!
