//! Category-partitioned sums over the full filtered set, independent of the
//! page window.
//!
//! Rows under the reserved category `transfer` (any case) move money between
//! own accounts and are excluded from the income and expense sums; rows
//! under `init` (any case) are an opening position, summed separately and
//! likewise excluded. A zero amount contributes to no sum. The saldo of a
//! scope is `init + income + expense`.

use vstd::prelude::*;
use crate::model::{AccountKind, TransactionOut, TxView};
use crate::text::{eq_ci, str_eq_ci};

verus! {

/// The row's category is `name` up to ASCII case (`name` given lower-case).
pub open spec fn cat_is(t: TxView, name: Seq<char>) -> bool {
    match t.category {
        Some(c) => eq_ci(c, name),
        None => false,
    }
}

/// Excluded from the income and expense sums: transfers between own
/// accounts and opening balances.
pub open spec fn excluded_from_sums(t: TxView) -> bool {
    cat_is(t, "transfer"@) || cat_is(t, "init"@)
}

/// Sum of `f` over all rows of `s`.
pub open spec fn sum_by(s: Seq<TxView>, f: spec_fn(TxView) -> int) -> int
    decreases s.len(),
{
    if s.len() == 0 {
        0
    } else {
        sum_by(s.drop_last(), f) + f(s.last())
    }
}

/// What a row contributes to the income sum.
pub open spec fn income_contrib(t: TxView) -> int {
    if !excluded_from_sums(t) && t.amount > 0 {
        t.amount
    } else {
        0
    }
}

/// What a row contributes to the expense sum (non-positive).
pub open spec fn expense_contrib(t: TxView) -> int {
    if !excluded_from_sums(t) && t.amount < 0 {
        t.amount
    } else {
        0
    }
}

/// What a row contributes to the opening-balance sum.
pub open spec fn init_contrib(t: TxView) -> int {
    if cat_is(t, "init"@) {
        t.amount
    } else {
        0
    }
}

pub open spec fn spec_sum_income(s: Seq<TxView>) -> int {
    sum_by(s, |t: TxView| income_contrib(t))
}

pub open spec fn spec_sum_expense(s: Seq<TxView>) -> int {
    sum_by(s, |t: TxView| expense_contrib(t))
}

pub open spec fn spec_sum_income_kind(s: Seq<TxView>, k: AccountKind) -> int {
    sum_by(
        s,
        |t: TxView|
            if t.account_kind == k {
                income_contrib(t)
            } else {
                0
            },
    )
}

pub open spec fn spec_sum_expense_kind(s: Seq<TxView>, k: AccountKind) -> int {
    sum_by(
        s,
        |t: TxView|
            if t.account_kind == k {
                expense_contrib(t)
            } else {
                0
            },
    )
}

pub open spec fn spec_sum_init(s: Seq<TxView>) -> int {
    sum_by(s, |t: TxView| init_contrib(t))
}

/// Opening balance plus net income plus net expense.
pub open spec fn spec_saldo(s: Seq<TxView>) -> int {
    spec_sum_init(s) + spec_sum_income(s) + spec_sum_expense(s)
}

/// The breakdown of sums over one set of rows. Wide fields: for any row
/// count the true sums fit.
#[derive(Clone, Copy, PartialEq, Eq, Structural, Debug)]
pub struct Sums {
    pub income: i128,
    pub expense: i128,
    pub income_std: i128,
    pub expense_std: i128,
    pub income_reimb: i128,
    pub expense_reimb: i128,
    pub init: i128,
    pub saldo: i128,
}

fn row_excluded(t: &TransactionOut) -> (r: bool)
    ensures
        r == excluded_from_sums(t@),
{
    match &t.category {
        Some(c) => str_eq_ci(c.as_str(), "transfer") || str_eq_ci(c.as_str(), "init"),
        None => false,
    }
}

fn row_is_init(t: &TransactionOut) -> (r: bool)
    ensures
        r == cat_is(t@, "init"@),
{
    match &t.category {
        Some(c) => str_eq_ci(c.as_str(), "init"),
        None => false,
    }
}

/// Computes the whole breakdown of sums over `rows`: income and expense
/// excluding `transfer` and `init` rows, the same split by account kind,
/// the opening-balance sum, and the saldo.
pub fn aggregate(rows: &Vec<TransactionOut>) -> (s: Sums)
    ensures
        s.income as int == spec_sum_income(rows.deep_view()),
        s.expense as int == spec_sum_expense(rows.deep_view()),
        s.income_std as int == spec_sum_income_kind(rows.deep_view(), AccountKind::Standard),
        s.expense_std as int == spec_sum_expense_kind(rows.deep_view(), AccountKind::Standard),
        s.income_reimb as int == spec_sum_income_kind(rows.deep_view(), AccountKind::Reimbursable),
        s.expense_reimb as int == spec_sum_expense_kind(
            rows.deep_view(),
            AccountKind::Reimbursable,
        ),
        s.init as int == spec_sum_init(rows.deep_view()),
        s.saldo as int == spec_saldo(rows.deep_view()),
{
    let ghost v = rows.deep_view();
    let n = rows.len();
    let mut income: i128 = 0;
    let mut expense: i128 = 0;
    let mut income_std: i128 = 0;
    let mut expense_std: i128 = 0;
    let mut income_reimb: i128 = 0;
    let mut expense_reimb: i128 = 0;
    let mut init: i128 = 0;
    let mut i: usize = 0;
    proof {
        assert(v.take(0) =~= Seq::<TxView>::empty());
    }
    while i < n
        invariant
            0 <= i <= n,
            n == rows@.len(),
            v == rows.deep_view(),
            v.len() == n,
            income as int == spec_sum_income(v.take(i as int)),
            expense as int == spec_sum_expense(v.take(i as int)),
            income_std as int == spec_sum_income_kind(v.take(i as int), AccountKind::Standard),
            expense_std as int == spec_sum_expense_kind(v.take(i as int), AccountKind::Standard),
            income_reimb as int == spec_sum_income_kind(
                v.take(i as int),
                AccountKind::Reimbursable,
            ),
            expense_reimb as int == spec_sum_expense_kind(
                v.take(i as int),
                AccountKind::Reimbursable,
            ),
            init as int == spec_sum_init(v.take(i as int)),
            -(i as int) * 0x8000_0000_0000_0000 <= income as int <= (i as int)
                * 0x8000_0000_0000_0000,
            -(i as int) * 0x8000_0000_0000_0000 <= expense as int <= (i as int)
                * 0x8000_0000_0000_0000,
            -(i as int) * 0x8000_0000_0000_0000 <= income_std as int <= (i as int)
                * 0x8000_0000_0000_0000,
            -(i as int) * 0x8000_0000_0000_0000 <= expense_std as int <= (i as int)
                * 0x8000_0000_0000_0000,
            -(i as int) * 0x8000_0000_0000_0000 <= income_reimb as int <= (i as int)
                * 0x8000_0000_0000_0000,
            -(i as int) * 0x8000_0000_0000_0000 <= expense_reimb as int <= (i as int)
                * 0x8000_0000_0000_0000,
            -(i as int) * 0x8000_0000_0000_0000 <= init as int <= (i as int)
                * 0x8000_0000_0000_0000,
            -(i as int) * 0x8000_0000_0000_0000 <= init as int + income as int + expense as int
                <= (i as int) * 0x8000_0000_0000_0000,
            income >= 0,
            expense <= 0,
        decreases n - i,
    {
        let t = &rows[i];
        let excluded = row_excluded(t);
        let is_init = row_is_init(t);
        let is_std = match t.account_kind {
            AccountKind::Standard => true,
            AccountKind::Reimbursable => false,
        };
        proof {
            assert(v.take(i + 1).drop_last() =~= v.take(i as int));
            assert(v.take(i + 1).last() == v[i as int]);
            assert(t@ == v[i as int]);
            assert(n as int <= usize::MAX as int);
            assert(usize::MAX as int <= 0xffff_ffff_ffff_ffff);
        }
        if !excluded && t.amount > 0 {
            income = income + t.amount as i128;
            if is_std {
                income_std = income_std + t.amount as i128;
            } else {
                income_reimb = income_reimb + t.amount as i128;
            }
        }
        if !excluded && t.amount < 0 {
            expense = expense + t.amount as i128;
            if is_std {
                expense_std = expense_std + t.amount as i128;
            } else {
                expense_reimb = expense_reimb + t.amount as i128;
            }
        }
        if is_init {
            init = init + t.amount as i128;
        }
        i = i + 1;
    }
    proof {
        assert(v.take(n as int) =~= v);
    }
    let saldo: i128 = income + expense + init;
    Sums { income, expense, income_std, expense_std, income_reimb, expense_reimb, init, saldo }
}

} // verus!
