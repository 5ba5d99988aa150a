//! Reimbursement reconciliation.
//!
//! The window resolver walks one reimbursable account's full history
//! (oldest first) with a running balance from zero and cuts after the most
//! recent point the balance was non-negative: everything at or before that
//! point is settled, everything after is the open window, and the balance at
//! the cut is the initial carry. An account that was never square has its
//! whole history open and carry zero.
//!
//! The carry allocator walks the open window oldest to newest: a credit
//! replenishes the carry and emits no row; a debit consumes
//! `min(carry, need)` of the carry, is emitted with its adjusted amount
//! unless fully covered, and, when anything was consumed, carries a note
//! stating how much of the original amount was covered. The total
//! outstanding is the sum of the emitted adjusted amounts, never positive.

use vstd::prelude::*;
use vstd::string::StringExecFns;
use crate::model::{AccountKind, TransactionOut, TxView};
use crate::aggregate::sum_by;
use crate::amounts::{format_abs_cents, spec_format_amount};

verus! {

/// Caller-input errors of the window resolver.
#[derive(Clone, Copy, PartialEq, Eq, Structural, Debug)]
pub enum ReimburseError {
    AccountNotFound,
    NotReimbursable,
}

impl ReimburseError {
    /// The human-readable message reported for this error.
    pub fn message(&self) -> (r: String)
        ensures
            *self == ReimburseError::AccountNotFound ==> r@ == "Account not found"@,
            *self == ReimburseError::NotReimbursable ==> r@
                == "This export requires a reimbursable account"@,
    {
        match self {
            ReimburseError::AccountNotFound => String::from_str("Account not found"),
            ReimburseError::NotReimbursable => String::from_str(
                "This export requires a reimbursable account",
            ),
        }
    }
}

/// What the record store reports of an account: its display name and kind.
pub struct AccountInfo {
    pub name: String,
    pub kind: AccountKind,
}

/// Reconciliation entry points require an account scope. A request without
/// one is a caller error (not a domain or store error), reported with this
/// message; a scoped request passes its account through unchanged.
pub fn require_account_scope(account_id: Option<i64>) -> (r: Result<i64, String>)
    ensures
        account_id matches Some(id) ==> (r matches Ok(v) && v == id),
        account_id is None ==> (r matches Err(e) && e@
            == "Filter to a reimbursable account first"@),
{
    match account_id {
        Some(id) => Ok(id),
        None => Err(String::from_str("Filter to a reimbursable account first")),
    }
}

/// Sum of the amounts of `s`.
pub open spec fn sum_amounts(s: Seq<TxView>) -> int {
    sum_by(s, |t: TxView| t.amount)
}

/// Sum of the positive amounts of `s`.
pub open spec fn sum_positive(s: Seq<TxView>) -> int {
    sum_by(
        s,
        |t: TxView|
            if t.amount > 0 {
                t.amount
            } else {
                0
            },
    )
}

/// Sum of the negative amounts of `s`.
pub open spec fn sum_negative(s: Seq<TxView>) -> int {
    sum_by(
        s,
        |t: TxView|
            if t.amount < 0 {
                t.amount
            } else {
                0
            },
    )
}

/// The number of settled rows: everything up to and including the most
/// recent row after which the running balance (from zero) is non-negative.
pub open spec fn spec_cut(s: Seq<TxView>) -> int
    decreases s.len(),
{
    if s.len() == 0 {
        0
    } else if sum_amounts(s) >= 0 {
        s.len() as int
    } else {
        spec_cut(s.drop_last())
    }
}

/// The carry entering the open window: the running balance at the cut.
pub open spec fn spec_initial_carry(s: Seq<TxView>) -> int {
    sum_amounts(s.take(spec_cut(s)))
}

/// The open reimbursement window of one account: its name, the balance over
/// the whole history, the carry entering the window, and the window itself,
/// oldest first.
pub struct ReimbursableSlice {
    pub account_name: String,
    pub current_balance: i128,
    pub initial_carry: i128,
    pub window: Vec<TransactionOut>,
}

/// Resolves the open reimbursement window from what the store found for the
/// account (`None` when it does not exist) and the account's full history,
/// oldest first. Fails exactly when the account is missing or is not
/// reimbursable.
pub fn compute_reimbursable_slice(
    account: &Option<AccountInfo>,
    history: &Vec<TransactionOut>,
) -> (r: Result<ReimbursableSlice, ReimburseError>)
    ensures
        account.is_none() <==> r == Err::<ReimbursableSlice, _>(ReimburseError::AccountNotFound),
        (account matches Some(a) && a.kind != AccountKind::Reimbursable) <==> r == Err::<
            ReimbursableSlice,
            _,
        >(ReimburseError::NotReimbursable),
        r matches Ok(sl) ==> {
            let h = history.deep_view();
            &&& account matches Some(a) && sl.account_name@ == a.name@ && a.kind
                == AccountKind::Reimbursable
            &&& sl.current_balance as int == sum_amounts(h)
            &&& sl.initial_carry as int == spec_initial_carry(h)
            &&& sl.initial_carry >= 0
            &&& sl.initial_carry as int <= (h.len() as int) * 0x8000_0000_0000_0000
            &&& sl.window.deep_view() == h.skip(spec_cut(h))
        },
{
    let acc = match account {
        Some(a) => a,
        None => {
            return Err(ReimburseError::AccountNotFound);
        },
    };
    let is_reimb = match acc.kind {
        AccountKind::Reimbursable => true,
        AccountKind::Standard => false,
    };
    if !is_reimb {
        return Err(ReimburseError::NotReimbursable);
    }
    let ghost h = history.deep_view();
    let n = history.len();
    let mut running: i128 = 0;
    let mut cut: usize = 0;
    let mut carry: i128 = 0;
    let mut i: usize = 0;
    proof {
        assert(h.take(0) =~= Seq::<TxView>::empty());
    }
    while i < n
        invariant
            0 <= i <= n,
            n == history@.len(),
            h == history.deep_view(),
            h.len() == n,
            cut <= i,
            running as int == sum_amounts(h.take(i as int)),
            cut as int == spec_cut(h.take(i as int)),
            carry as int == sum_amounts(h.take(cut as int)),
            carry >= 0,
            -(i as int) * 0x8000_0000_0000_0000 <= running as int <= (i as int)
                * 0x8000_0000_0000_0000,
            carry as int <= (i as int) * 0x8000_0000_0000_0000,
        decreases n - i,
    {
        let t = &history[i];
        proof {
            assert(h.take(i + 1).drop_last() =~= h.take(i as int));
            assert(h.take(i + 1).last() == h[i as int]);
            assert(t@ == h[i as int]);
            assert(n as int <= usize::MAX as int);
            assert(usize::MAX as int <= 0xffff_ffff_ffff_ffff);
        }
        running = running + t.amount as i128;
        if running >= 0 {
            cut = i + 1;
            carry = running;
        }
        proof {
            if running >= 0 {
                assert(spec_cut(h.take(i + 1)) == i + 1);
            } else {
                assert(spec_cut(h.take(i + 1)) == spec_cut(h.take(i as int)));
                assert(h.take(cut as int) =~= h.take(i + 1).take(cut as int));
            }
        }
        i = i + 1;
    }
    proof {
        assert(h.take(n as int) =~= h);
    }
    let mut window: Vec<TransactionOut> = Vec::new();
    let mut j: usize = cut;
    proof {
        assert(window.deep_view() =~= Seq::<TxView>::empty());
        assert(h.subrange(cut as int, cut as int) =~= Seq::<TxView>::empty());
    }
    while j < n
        invariant
            cut <= j <= n,
            n == history@.len(),
            h == history.deep_view(),
            h.len() == n,
            window.deep_view() == h.subrange(cut as int, j as int),
        decreases n - j,
    {
        let ghost prev = window.deep_view();
        let d = history[j].duplicate();
        let ghost dv = d@;
        proof {
            assert(dv == h[j as int]);
        }
        window.push(d);
        proof {
            assert(window.deep_view() =~= prev.push(dv));
            assert(prev.push(dv) =~= h.subrange(cut as int, j as int + 1));
        }
        j = j + 1;
    }
    proof {
        assert(h.subrange(cut as int, n as int) =~= h.skip(cut as int));
    }
    Ok(
        ReimbursableSlice {
            account_name: acc.name.clone(),
            current_balance: running,
            initial_carry: carry,
            window,
        },
    )
}

/// What a debit consumes of the available carry: `min(carry, -amount)` for
/// a negative amount, nothing otherwise.
pub open spec fn spec_consumed(c: int, amt: int) -> int {
    if amt >= 0 {
        0
    } else if c < -amt {
        c
    } else {
        -amt
    }
}

/// The carry remaining after the whole window, starting from `init`.
pub open spec fn spec_carry_after(w: Seq<TxView>, init: int) -> int
    decreases w.len(),
{
    if w.len() == 0 {
        init
    } else {
        let c = spec_carry_after(w.drop_last(), init);
        let amt = w.last().amount;
        if amt > 0 {
            c + amt
        } else {
            c - spec_consumed(c, amt)
        }
    }
}

/// The total carry consumed across the whole window.
pub open spec fn spec_consumed_total(w: Seq<TxView>, init: int) -> int
    decreases w.len(),
{
    if w.len() == 0 {
        0
    } else {
        spec_consumed_total(w.drop_last(), init) + spec_consumed(
            spec_carry_after(w.drop_last(), init),
            w.last().amount,
        )
    }
}

/// One row of a reconciliation report: the transaction, its amount after
/// carry allocation, and a partial-coverage note when carry was consumed.
pub struct ReconciliationRow {
    pub tx: TransactionOut,
    pub adjusted: i64,
    pub note: Option<String>,
}

/// Mathematical view of a reconciliation row.
pub ghost struct ReconRowView {
    pub tx: TxView,
    pub adjusted: int,
    pub note: Option<Seq<char>>,
}

impl View for ReconciliationRow {
    type V = ReconRowView;

    open spec fn view(&self) -> ReconRowView {
        ReconRowView { tx: self.tx@, adjusted: self.adjusted as int, note: self.note.deep_view() }
    }
}

impl DeepView for ReconciliationRow {
    type V = ReconRowView;

    open spec fn deep_view(&self) -> ReconRowView {
        self.view()
    }
}

/// The note attached to a partially covered debit: how much of the original
/// magnitude the carry covered (`adjusted - amount`, the consumed carry), in
/// European decimal format.
pub open spec fn spec_partial_note(adjusted: int, amount: int) -> Seq<char> {
    "(partial: "@ + spec_format_amount(adjusted - amount) + " € of "@ + spec_format_amount(
        -amount,
    ) + " €)"@
}

/// What one window entry emits, given the carry available before it: a
/// credit or zero amount emits nothing, a fully covered debit is dropped,
/// any other debit is emitted with its adjusted amount.
pub open spec fn spec_row_out(t: TxView, c: int) -> Seq<ReconRowView> {
    if t.amount >= 0 {
        Seq::empty()
    } else {
        let consumed = spec_consumed(c, t.amount);
        let adjusted = t.amount + consumed;
        if adjusted == 0 {
            Seq::empty()
        } else {
            seq![
                ReconRowView {
                    tx: t,
                    adjusted: adjusted,
                    note: if consumed > 0 {
                        Some(spec_partial_note(adjusted, t.amount))
                    } else {
                        None
                    },
                },
            ]
        }
    }
}

/// The rows the allocator emits over the whole window.
pub open spec fn spec_alloc_rows(w: Seq<TxView>, init: int) -> Seq<ReconRowView>
    decreases w.len(),
{
    if w.len() == 0 {
        Seq::empty()
    } else {
        spec_alloc_rows(w.drop_last(), init) + spec_row_out(
            w.last(),
            spec_carry_after(w.drop_last(), init),
        )
    }
}

/// Sum of the adjusted amounts of emitted rows.
pub open spec fn sum_adjusted(rows: Seq<ReconRowView>) -> int
    decreases rows.len(),
{
    if rows.len() == 0 {
        0
    } else {
        sum_adjusted(rows.drop_last()) + rows.last().adjusted
    }
}

/// The allocator's result: the emitted rows, the total outstanding (the sum
/// of their adjusted amounts, never positive), and the carry left after the
/// last entry.
pub struct CarryReport {
    pub rows: Vec<ReconciliationRow>,
    pub total_outstanding: i128,
    pub final_carry: i128,
}

/// Walks the window oldest to newest, consuming the carry against debits.
pub fn allocate_carry(window: &Vec<TransactionOut>, initial_carry: i128) -> (r: CarryReport)
    requires
        initial_carry >= 0,
        initial_carry as int + (window@.len() as int) * 0x8000_0000_0000_0000
            < 0x8000_0000_0000_0000_0000_0000_0000_0000,
    ensures
        r.rows.deep_view() == spec_alloc_rows(window.deep_view(), initial_carry as int),
        r.total_outstanding as int == sum_adjusted(
            spec_alloc_rows(window.deep_view(), initial_carry as int),
        ),
        r.total_outstanding <= 0,
        r.final_carry as int == spec_carry_after(window.deep_view(), initial_carry as int),
        r.final_carry >= 0,
{
    let ghost w = window.deep_view();
    let n = window.len();
    let mut rows: Vec<ReconciliationRow> = Vec::new();
    let mut carry: i128 = initial_carry;
    let mut total: i128 = 0;
    let mut i: usize = 0;
    proof {
        assert(w.take(0) =~= Seq::<TxView>::empty());
        assert(rows.deep_view() =~= Seq::<ReconRowView>::empty());
    }
    while i < n
        invariant
            0 <= i <= n,
            n == window@.len(),
            w == window.deep_view(),
            w.len() == n,
            initial_carry >= 0,
            initial_carry as int + (n as int) * 0x8000_0000_0000_0000
                < 0x8000_0000_0000_0000_0000_0000_0000_0000,
            rows.deep_view() == spec_alloc_rows(w.take(i as int), initial_carry as int),
            carry as int == spec_carry_after(w.take(i as int), initial_carry as int),
            total as int == sum_adjusted(spec_alloc_rows(w.take(i as int), initial_carry as int)),
            carry >= 0,
            carry as int <= initial_carry as int + (i as int) * 0x8000_0000_0000_0000,
            -(i as int) * 0x8000_0000_0000_0000 <= total as int <= 0,
        decreases n - i,
    {
        let t = &window[i];
        let ghost prev_rows = rows.deep_view();
        let ghost prev_carry = carry as int;
        proof {
            assert(w.take(i + 1).drop_last() =~= w.take(i as int));
            assert(w.take(i + 1).last() == w[i as int]);
            assert(t@ == w[i as int]);
            assert(n as int <= usize::MAX as int);
            assert(usize::MAX as int <= 0xffff_ffff_ffff_ffff);
        }
        if t.amount > 0 {
            carry = carry + t.amount as i128;
            proof {
                assert(spec_row_out(t@, prev_carry) =~= Seq::<ReconRowView>::empty());
                assert(rows.deep_view() =~= spec_alloc_rows(w.take(i + 1), initial_carry as int));
            }
        } else if t.amount < 0 {
            let need: i128 = -(t.amount as i128);
            let consumed: i128 = if carry < need {
                carry
            } else {
                need
            };
            let adjusted_wide: i128 = t.amount as i128 + consumed;
            let adjusted: i64 = adjusted_wide as i64;
            carry = carry - consumed;
            if adjusted != 0 {
                let note: Option<String> = if consumed > 0 {
                    let mut s = String::from_str("(partial: ");
                    let covered = format_abs_cents(consumed as u64);
                    s.append(covered.as_str());
                    s.append(" € of ");
                    let original = format_abs_cents(need as u64);
                    s.append(original.as_str());
                    s.append(" €)");
                    proof {
                        assert(s@ =~= spec_partial_note(adjusted as int, t@.amount));
                    }
                    Some(s)
                } else {
                    None
                };
                let row = ReconciliationRow { tx: t.duplicate(), adjusted, note };
                let ghost rv = row@;
                rows.push(row);
                total = total + adjusted as i128;
                proof {
                    assert(spec_row_out(t@, prev_carry) =~= seq![rv]);
                    assert(rows.deep_view() =~= prev_rows.push(rv));
                    assert(prev_rows.push(rv) =~= prev_rows + seq![rv]);
                    let all = spec_alloc_rows(w.take(i + 1), initial_carry as int);
                    assert(all =~= prev_rows + seq![rv]);
                    assert(all.drop_last() =~= prev_rows);
                    assert(all.last() == rv);
                }
            } else {
                proof {
                    assert(spec_row_out(t@, prev_carry) =~= Seq::<ReconRowView>::empty());
                    assert(rows.deep_view() =~= spec_alloc_rows(
                        w.take(i + 1),
                        initial_carry as int,
                    ));
                }
            }
        } else {
            proof {
                assert(spec_row_out(t@, prev_carry) =~= Seq::<ReconRowView>::empty());
                assert(rows.deep_view() =~= spec_alloc_rows(w.take(i + 1), initial_carry as int));
            }
        }
        i = i + 1;
    }
    proof {
        assert(w.take(n as int) =~= w);
    }
    CarryReport { rows, total_outstanding: total, final_carry: carry }
}

/// Conservation of carry: what enters the window (the initial carry plus
/// every credit) is exactly what the debits consumed plus what remains
/// after the last entry.
pub proof fn lemma_carry_conservation(w: Seq<TxView>, init: int)
    ensures
        init + sum_positive(w) == spec_consumed_total(w, init) + spec_carry_after(w, init),
    decreases w.len(),
{
    if w.len() > 0 {
        lemma_carry_conservation(w.drop_last(), init);
    }
}

/// Conservation of debits: the emitted adjusted amounts are the original
/// negative amounts with the consumed carry added back — in magnitudes,
/// outstanding plus consumed equals the original debits.
pub proof fn lemma_adjusted_conservation(w: Seq<TxView>, init: int)
    ensures
        sum_adjusted(spec_alloc_rows(w, init)) == sum_negative(w) + spec_consumed_total(w, init),
    decreases w.len(),
{
    if w.len() > 0 {
        lemma_adjusted_conservation(w.drop_last(), init);
        let rows = spec_alloc_rows(w, init);
        let prev = spec_alloc_rows(w.drop_last(), init);
        let out = spec_row_out(w.last(), spec_carry_after(w.drop_last(), init));
        if out.len() == 0 {
            assert(rows =~= prev);
        } else {
            assert(rows.drop_last() =~= prev);
            assert(rows.last() == out[0]);
        }
    }
}

} // verus!
