//! The filter specification: normalization of a raw search request and the
//! predicate it denotes over transaction rows.
//!
//! Normalization is deliberately lenient: a missing field means "no
//! constraint", a free-text query is trimmed and treated as absent when
//! blank, an unrecognized sign class falls back to "all", an unrecognized
//! sort key to the date, and only the literal `desc` selects descending
//! order. The limit defaults to 15 (clamped to be non-negative) and the
//! offset to the "last page" sentinel `-1`.

use vstd::prelude::*;
use vstd::string::StrSliceExecFns;
use vstd::string::StringExecFns;
use crate::model::{TransactionOut, TxSearch, TxSearchView, TxView};
use crate::text::{contains_ci, spec_trim, str_contains_ci, trim_str};
use crate::dates::{date_le, date_le_exec, parse_iso_date, spec_parse_date};

verus! {

/// The sign-class filter: all rows, credits only, or debits only.
#[derive(Clone, Copy, PartialEq, Eq, Structural, Debug)]
pub enum SignClass {
    All,
    Income,
    Expense,
}

/// The sort key of a search request.
#[derive(Clone, Copy, PartialEq, Eq, Structural, Debug)]
pub enum SortKey {
    Date,
    Category,
    Description,
    Amount,
    Account,
    Id,
}

/// A normalized, validated filter specification.
pub struct FilterSpec {
    /// Trimmed and non-empty, or absent.
    pub query: Option<String>,
    pub account_id: Option<i64>,
    pub date_from: Option<String>,
    pub date_to: Option<String>,
    pub sign: SignClass,
    pub sort_key: SortKey,
    pub descending: bool,
    /// Page size, never negative.
    pub limit: i64,
    /// Requested offset; negative asks for the last page.
    pub offset: i64,
}

/// Mathematical view of a normalized filter specification.
pub ghost struct FilterSpecView {
    pub query: Option<Seq<char>>,
    pub account_id: Option<int>,
    pub date_from: Option<Seq<char>>,
    pub date_to: Option<Seq<char>>,
    pub sign: SignClass,
    pub sort_key: SortKey,
    pub descending: bool,
    pub limit: int,
    pub offset: int,
}

impl View for FilterSpec {
    type V = FilterSpecView;

    open spec fn view(&self) -> FilterSpecView {
        FilterSpecView {
            query: self.query.deep_view(),
            account_id: crate::model::opt_int_view(self.account_id),
            date_from: self.date_from.deep_view(),
            date_to: self.date_to.deep_view(),
            sign: self.sign,
            sort_key: self.sort_key,
            descending: self.descending,
            limit: self.limit as int,
            offset: self.offset as int,
        }
    }
}

/// The sign class a raw `tx_type` field denotes; anything but the two
/// recognized literals means "all".
pub open spec fn spec_sign_class(t: Option<Seq<char>>) -> SignClass {
    if t == Some("income"@) {
        SignClass::Income
    } else if t == Some("expense"@) {
        SignClass::Expense
    } else {
        SignClass::All
    }
}

/// The sort key a raw `sort_by` field denotes; anything unrecognized falls
/// back to the date.
pub open spec fn spec_sort_key(t: Option<Seq<char>>) -> SortKey {
    if t == Some("category"@) {
        SortKey::Category
    } else if t == Some("description"@) {
        SortKey::Description
    } else if t == Some("amount"@) {
        SortKey::Amount
    } else if t == Some("account"@) {
        SortKey::Account
    } else if t == Some("id"@) {
        SortKey::Id
    } else {
        SortKey::Date
    }
}

/// The normalized query: trimmed, and absent when blank.
pub open spec fn spec_norm_query(q: Option<Seq<char>>) -> Option<Seq<char>> {
    match q {
        Some(s) => if spec_trim(s).len() > 0 {
            Some(spec_trim(s))
        } else {
            None
        },
        None => None,
    }
}

/// Normalization of a whole raw search request.
pub open spec fn spec_normalize(r: TxSearchView) -> FilterSpecView {
    FilterSpecView {
        query: spec_norm_query(r.query),
        account_id: r.account_id,
        date_from: r.date_from,
        date_to: r.date_to,
        sign: spec_sign_class(r.tx_type),
        sort_key: spec_sort_key(r.sort_by),
        descending: r.sort_dir == Some("desc"@),
        limit: match r.limit {
            Some(v) => if v < 0 {
                0
            } else {
                v
            },
            None => 15,
        },
        offset: match r.offset {
            Some(o) => o,
            None => -1,
        },
    }
}

/// Normalizes a raw search request into a filter specification.
pub fn normalize(raw: &TxSearch) -> (f: FilterSpec)
    ensures
        f@ == spec_normalize(raw@),
{
    let query = match &raw.query {
        Some(q) => {
            let t = trim_str(q.as_str());
            if t.as_str().unicode_len() > 0 {
                Some(t)
            } else {
                None
            }
        },
        None => None,
    };
    let sign = match &raw.tx_type {
        Some(t) => {
            if *t == String::from_str("income") {
                SignClass::Income
            } else if *t == String::from_str("expense") {
                SignClass::Expense
            } else {
                SignClass::All
            }
        },
        None => SignClass::All,
    };
    let sort_key = match &raw.sort_by {
        Some(t) => {
            if *t == String::from_str("category") {
                SortKey::Category
            } else if *t == String::from_str("description") {
                SortKey::Description
            } else if *t == String::from_str("amount") {
                SortKey::Amount
            } else if *t == String::from_str("account") {
                SortKey::Account
            } else if *t == String::from_str("id") {
                SortKey::Id
            } else {
                SortKey::Date
            }
        },
        None => SortKey::Date,
    };
    let descending = match &raw.sort_dir {
        Some(t) => *t == String::from_str("desc"),
        None => false,
    };
    let limit = match raw.limit {
        Some(v) => if v < 0 {
            0
        } else {
            v
        },
        None => 15,
    };
    let offset = match raw.offset {
        Some(o) => o,
        None => -1,
    };
    FilterSpec {
        query,
        account_id: raw.account_id,
        date_from: match &raw.date_from {
            Some(d) => Some(d.clone()),
            None => None,
        },
        date_to: match &raw.date_to {
            Some(d) => Some(d.clone()),
            None => None,
        },
        sign,
        sort_key,
        descending,
        limit,
        offset,
    }
}

/// The free-text query matches a row: a case-insensitive substring of its
/// note or of its category name. A row without the field does not match
/// through that field.
pub open spec fn spec_text_matches(t: TxView, q: Seq<char>) -> bool {
    ||| match t.description {
        Some(d) => contains_ci(d, q),
        None => false,
    }
    ||| match t.category {
        Some(c) => contains_ci(c, q),
        None => false,
    }
}

/// The predicate a filter specification denotes over one row: account scope,
/// inclusive calendar date range (a bound or row date that is not a valid
/// calendar day excludes the row), sign class, and free-text match.
pub open spec fn spec_matches(f: FilterSpecView, t: TxView) -> bool {
    &&& match f.account_id {
        Some(a) => t.account_id == a,
        None => true,
    }
    &&& match f.date_from {
        Some(df) => match (spec_parse_date(t.date), spec_parse_date(df)) {
            (Some(td), Some(fd)) => date_le(fd, td),
            _ => false,
        },
        None => true,
    }
    &&& match f.date_to {
        Some(dt) => match (spec_parse_date(t.date), spec_parse_date(dt)) {
            (Some(td), Some(tod)) => date_le(td, tod),
            _ => false,
        },
        None => true,
    }
    &&& match f.sign {
        SignClass::All => true,
        SignClass::Income => t.amount > 0,
        SignClass::Expense => t.amount < 0,
    }
    &&& match f.query {
        Some(q) => spec_text_matches(t, q),
        None => true,
    }
}

/// Decides whether one row matches a filter specification.
pub fn row_matches(f: &FilterSpec, t: &TransactionOut) -> (r: bool)
    ensures
        r == spec_matches(f@, t@),
{
    let account_ok = match f.account_id {
        Some(a) => t.account_id == a,
        None => true,
    };
    let date_from_ok = match &f.date_from {
        Some(df) => {
            match (parse_iso_date(t.date.as_str()), parse_iso_date(df.as_str())) {
                (Some(td), Some(fd)) => date_le_exec(&fd, &td),
                _ => false,
            }
        },
        None => true,
    };
    let date_to_ok = match &f.date_to {
        Some(dt) => {
            match (parse_iso_date(t.date.as_str()), parse_iso_date(dt.as_str())) {
                (Some(td), Some(tod)) => date_le_exec(&td, &tod),
                _ => false,
            }
        },
        None => true,
    };
    let sign_ok = match f.sign {
        SignClass::All => true,
        SignClass::Income => t.amount > 0,
        SignClass::Expense => t.amount < 0,
    };
    let query_ok = match &f.query {
        Some(q) => {
            let desc_ok = match &t.description {
                Some(d) => str_contains_ci(d.as_str(), q.as_str()),
                None => false,
            };
            let cat_ok = match &t.category {
                Some(c) => str_contains_ci(c.as_str(), q.as_str()),
                None => false,
            };
            desc_ok || cat_ok
        },
        None => true,
    };
    account_ok && date_from_ok && date_to_ok && sign_ok && query_ok
}

/// The rows of `store` that match `f`, in store order.
pub fn filter_rows(store: &Vec<TransactionOut>, f: &FilterSpec) -> (out: Vec<TransactionOut>)
    ensures
        out.deep_view() == store.deep_view().filter(|t: TxView| spec_matches(f@, t)),
{
    let ghost pred = |t: TxView| spec_matches(f@, t);
    let mut out: Vec<TransactionOut> = Vec::new();
    let mut i: usize = 0;
    proof {
        reveal(Seq::filter);
        assert(store.deep_view().take(0) =~= Seq::<TxView>::empty());
        assert(out.deep_view() =~= Seq::<TxView>::empty());
    }
    while i < store.len()
        invariant
            0 <= i <= store.len(),
            store.deep_view().len() == store.len(),
            out.deep_view() == store.deep_view().take(i as int).filter(pred),
            pred == (|t: TxView| spec_matches(f@, t)),
        decreases store.len() - i,
    {
        let ghost prev = out.deep_view();
        let ghost s = store.deep_view();
        if row_matches(f, &store[i]) {
            out.push(store[i].duplicate());
        }
        proof {
            reveal(Seq::filter);
            assert(s.take(i + 1).drop_last() =~= s.take(i as int));
            assert(s.take(i + 1).last() == s[i as int]);
            if pred(s[i as int]) {
                assert(out.deep_view() =~= prev.push(s[i as int]));
            } else {
                assert(out.deep_view() =~= prev);
            }
        }
        i = i + 1;
    }
    proof {
        assert(store.deep_view().take(store.len() as int) =~= store.deep_view());
    }
    out
}

} // verus!
