//! Data model: accounts kinds, denormalized transaction rows, the raw search
//! request, and the search result, together with their mathematical views.
//!
//! Monetary amounts are integer minor units (cents); a positive amount is a
//! credit, a negative one a debit, zero is legal and contributes to no sum.

use vstd::prelude::*;

verus! {

/// Kind of an account: a standard account, or a reimbursable account whose
/// negative balance is money awaiting repayment.
#[derive(Clone, Copy, PartialEq, Eq, Structural, Debug)]
pub enum AccountKind {
    Standard,
    Reimbursable,
}

/// A transaction row, denormalized with its owning account's name, color and
/// kind and its category name, as the record store hands it out for display.
/// The date is an ISO `YYYY-MM-DD` string; the amount is in cents.
pub struct TransactionOut {
    pub id: i64,
    pub account_id: i64,
    pub account_name: String,
    pub account_color: Option<String>,
    pub date: String,
    pub category: Option<String>,
    pub description: Option<String>,
    pub amount: i64,
    pub account_kind: AccountKind,
}

/// Mathematical view of a transaction row.
pub ghost struct TxView {
    pub id: int,
    pub account_id: int,
    pub account_name: Seq<char>,
    pub account_color: Option<Seq<char>>,
    pub date: Seq<char>,
    pub category: Option<Seq<char>>,
    pub description: Option<Seq<char>>,
    pub amount: int,
    pub account_kind: AccountKind,
}

impl View for TransactionOut {
    type V = TxView;

    open spec fn view(&self) -> TxView {
        TxView {
            id: self.id as int,
            account_id: self.account_id as int,
            account_name: self.account_name@,
            account_color: self.account_color.deep_view(),
            date: self.date@,
            category: self.category.deep_view(),
            description: self.description.deep_view(),
            amount: self.amount as int,
            account_kind: self.account_kind,
        }
    }
}

impl DeepView for TransactionOut {
    type V = TxView;

    open spec fn deep_view(&self) -> TxView {
        self.view()
    }
}

impl TransactionOut {
    /// A copy that is provably equal to the original at the view level.
    pub fn duplicate(&self) -> (r: Self)
        ensures
            r@ == self@,
    {
        TransactionOut {
            id: self.id,
            account_id: self.account_id,
            account_name: self.account_name.clone(),
            account_color: match &self.account_color {
                Some(c) => Some(c.clone()),
                None => None,
            },
            date: self.date.clone(),
            category: match &self.category {
                Some(c) => Some(c.clone()),
                None => None,
            },
            description: match &self.description {
                Some(d) => Some(d.clone()),
                None => None,
            },
            amount: self.amount,
            account_kind: self.account_kind,
        }
    }
}

/// The raw, user-supplied search request. Every field is optional; absence
/// means "no constraint". Malformed values degrade to defaults instead of
/// failing (see the filter module).
pub struct TxSearch {
    pub query: Option<String>,
    pub account_id: Option<i64>,
    pub date_from: Option<String>,
    pub date_to: Option<String>,
    pub tx_type: Option<String>,
    pub limit: Option<i64>,
    pub offset: Option<i64>,
    pub sort_by: Option<String>,
    pub sort_dir: Option<String>,
}

/// Mathematical view of a raw search request.
pub ghost struct TxSearchView {
    pub query: Option<Seq<char>>,
    pub account_id: Option<int>,
    pub date_from: Option<Seq<char>>,
    pub date_to: Option<Seq<char>>,
    pub tx_type: Option<Seq<char>>,
    pub limit: Option<int>,
    pub offset: Option<int>,
    pub sort_by: Option<Seq<char>>,
    pub sort_dir: Option<Seq<char>>,
}

pub open spec fn opt_int_view(o: Option<i64>) -> Option<int> {
    match o {
        Some(v) => Some(v as int),
        None => None,
    }
}

impl View for TxSearch {
    type V = TxSearchView;

    open spec fn view(&self) -> TxSearchView {
        TxSearchView {
            query: self.query.deep_view(),
            account_id: opt_int_view(self.account_id),
            date_from: self.date_from.deep_view(),
            date_to: self.date_to.deep_view(),
            tx_type: self.tx_type.deep_view(),
            limit: opt_int_view(self.limit),
            offset: opt_int_view(self.offset),
            sort_by: self.sort_by.deep_view(),
            sort_dir: self.sort_dir.deep_view(),
        }
    }
}

/// The page of matching rows plus totals: the count of all matching rows, the
/// offset actually used, and sums over the entire filtered set (not just the
/// page). Sums are wide so that they cannot overflow for any row count.
pub struct TxSearchResult {
    pub items: Vec<TransactionOut>,
    pub total: u64,
    pub offset: u64,
    pub sum_income: i128,
    pub sum_expense: i128,
    pub sum_income_std: i128,
    pub sum_expense_std: i128,
    pub sum_income_reimb: i128,
    pub sum_expense_reimb: i128,
    pub sum_init: i128,
}

/// Mathematical view of a search result.
pub ghost struct TxSearchResultView {
    pub items: Seq<TxView>,
    pub total: int,
    pub offset: int,
    pub sum_income: int,
    pub sum_expense: int,
    pub sum_income_std: int,
    pub sum_expense_std: int,
    pub sum_income_reimb: int,
    pub sum_expense_reimb: int,
    pub sum_init: int,
}

impl View for TxSearchResult {
    type V = TxSearchResultView;

    open spec fn view(&self) -> TxSearchResultView {
        TxSearchResultView {
            items: self.items.deep_view(),
            total: self.total as int,
            offset: self.offset as int,
            sum_income: self.sum_income as int,
            sum_expense: self.sum_expense as int,
            sum_income_std: self.sum_income_std as int,
            sum_expense_std: self.sum_expense_std as int,
            sum_income_reimb: self.sum_income_reimb as int,
            sum_expense_reimb: self.sum_expense_reimb as int,
            sum_init: self.sum_init as int,
        }
    }
}

} // verus!
