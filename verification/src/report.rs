//! Report metadata handed to the document renderer: the time-span label, the
//! reconciliation period label, the selected columns in their stable order,
//! and the column header labels. The renderer consumes these and the sums of
//! the aggregator; it recomputes nothing.

use vstd::prelude::*;
use vstd::string::StrSliceExecFns;
use vstd::string::StringExecFns;
use crate::dates::{fmt_dmy, spec_fmt_dmy};
use crate::amounts::{int_str, spec_int_digits};

verus! {

/// The label of a date span: both bounds joined with a dash, one bound with
/// `since`/`until`, or the given placeholder when there is no bound.
pub open spec fn spec_span_label(
    f: Option<Seq<char>>,
    t: Option<Seq<char>>,
    empty: Seq<char>,
) -> Seq<char> {
    match (f, t) {
        (Some(df), Some(dt)) => spec_fmt_dmy(df) + " – "@ + spec_fmt_dmy(dt),
        (Some(df), None) => "since "@ + spec_fmt_dmy(df),
        (None, Some(dt)) => "until "@ + spec_fmt_dmy(dt),
        (None, None) => empty,
    }
}

fn span_label_impl(from: &Option<String>, to: &Option<String>, empty: &str) -> (r: String)
    ensures
        r@ == spec_span_label(from.deep_view(), to.deep_view(), empty@),
{
    match (from, to) {
        (Some(df), Some(dt)) => {
            let mut s = fmt_dmy(df.as_str());
            s.append(" – ");
            let te = fmt_dmy(dt.as_str());
            s.append(te.as_str());
            s
        },
        (Some(df), None) => {
            let mut s = String::from_str("since ");
            let fe = fmt_dmy(df.as_str());
            s.append(fe.as_str());
            s
        },
        (None, Some(dt)) => {
            let mut s = String::from_str("until ");
            let te = fmt_dmy(dt.as_str());
            s.append(te.as_str());
            s
        },
        (None, None) => empty.to_owned(),
    }
}

/// The time-span label of a filtered export: `All time` when unbounded.
pub fn time_span_label(from: &Option<String>, to: &Option<String>) -> (r: String)
    ensures
        r@ == spec_span_label(from.deep_view(), to.deep_view(), "All time"@),
{
    span_label_impl(from, to, "All time")
}

/// The period label of a reconciliation report, taken from the first and
/// last emitted row's date: a dash placeholder when no rows remain.
pub fn period_label(from: &Option<String>, to: &Option<String>) -> (r: String)
    ensures
        r@ == spec_span_label(from.deep_view(), to.deep_view(), "—"@),
{
    span_label_impl(from, to, "—")
}

/// The account line of an export: the account's name when the search was
/// scoped to one and the store knows its name, a numbered placeholder when
/// the store does not, and `All accounts` for an unscoped search.
pub open spec fn spec_account_label(scope: Option<int>, name: Option<Seq<char>>) -> Seq<char> {
    match scope {
        None => "All accounts"@,
        Some(id) => match name {
            Some(n) => n,
            None => "Account #"@ + spec_int_digits(id),
        },
    }
}

/// Builds the account line of an export.
pub fn account_label(scope: Option<i64>, name: &Option<String>) -> (r: String)
    ensures
        r@ == spec_account_label(crate::model::opt_int_view(scope), name.deep_view()),
{
    match scope {
        None => String::from_str("All accounts"),
        Some(id) => match name {
            Some(n) => n.clone(),
            None => {
                let mut s = String::from_str("Account #");
                let ds = int_str(id);
                s.append(ds.as_str());
                s
            },
        },
    }
}

/// The stable rank of a column name; unknown names rank last.
pub open spec fn col_rank(c: Seq<char>) -> int {
    if c == "date"@ {
        0
    } else if c == "account"@ {
        1
    } else if c == "category"@ {
        2
    } else if c == "description"@ {
        3
    } else if c == "amount"@ {
        4
    } else {
        5
    }
}

/// The columns of rank `k`, in their given order.
pub open spec fn spec_select(cols: Seq<Seq<char>>, k: int) -> Seq<Seq<char>>
    decreases cols.len(),
{
    if cols.len() == 0 {
        Seq::empty()
    } else {
        spec_select(cols.drop_last(), k) + (if col_rank(cols.last()) == k {
            seq![cols.last()]
        } else {
            Seq::empty()
        })
    }
}

/// The columns of rank below `k`, rank by rank.
pub open spec fn spec_ordered_up_to(cols: Seq<Seq<char>>, k: int) -> Seq<Seq<char>>
    decreases k,
{
    if k <= 0 {
        Seq::empty()
    } else {
        spec_ordered_up_to(cols, k - 1) + spec_select(cols, k - 1)
    }
}

/// The selected columns in their stable order: the known columns by rank,
/// then the unknown ones, each group keeping its given order.
pub open spec fn spec_order_columns(cols: Seq<Seq<char>>) -> Seq<Seq<char>> {
    spec_ordered_up_to(cols, 6)
}

fn col_rank_exec(c: &String) -> (r: usize)
    ensures
        r as int == col_rank(c@),
{
    if *c == String::from_str("date") {
        0
    } else if *c == String::from_str("account") {
        1
    } else if *c == String::from_str("category") {
        2
    } else if *c == String::from_str("description") {
        3
    } else if *c == String::from_str("amount") {
        4
    } else {
        5
    }
}

/// Rearranges the selected columns into their stable order.
pub fn order_columns(cols: &Vec<String>) -> (r: Vec<String>)
    ensures
        r.deep_view() == spec_order_columns(cols.deep_view()),
{
    let ghost all = cols.deep_view();
    let mut out: Vec<String> = Vec::new();
    let mut k: usize = 0;
    proof {
        assert(out.deep_view() =~= spec_ordered_up_to(all, 0));
    }
    while k < 6
        invariant
            0 <= k <= 6,
            all == cols.deep_view(),
            all.len() == cols@.len(),
            out.deep_view() == spec_ordered_up_to(all, k as int),
        decreases 6 - k,
    {
        let mut i: usize = 0;
        proof {
            assert(all.take(0) =~= Seq::<Seq<char>>::empty());
            assert(spec_select(all.take(0), k as int) =~= Seq::<Seq<char>>::empty());
            assert(out.deep_view() =~= spec_ordered_up_to(all, k as int) + spec_select(
                all.take(0),
                k as int,
            ));
        }
        while i < cols.len()
            invariant
                0 <= i <= cols@.len(),
                0 <= k < 6,
                all == cols.deep_view(),
                all.len() == cols@.len(),
                out.deep_view() == spec_ordered_up_to(all, k as int) + spec_select(
                    all.take(i as int),
                    k as int,
                ),
            decreases cols@.len() - i,
        {
            let ghost prev = out.deep_view();
            if col_rank_exec(&cols[i]) == k {
                out.push(cols[i].clone());
            }
            proof {
                assert(all.take(i + 1).drop_last() =~= all.take(i as int));
                assert(all.take(i + 1).last() == all[i as int]);
                if col_rank(all[i as int]) == k as int {
                    assert(out.deep_view() =~= prev.push(all[i as int]));
                    assert(prev.push(all[i as int]) =~= spec_ordered_up_to(all, k as int)
                        + spec_select(all.take(i + 1), k as int));
                } else {
                    assert(out.deep_view() =~= spec_ordered_up_to(all, k as int) + spec_select(
                        all.take(i + 1),
                        k as int,
                    ));
                }
            }
            i = i + 1;
        }
        proof {
            assert(all.take(all.len() as int) =~= all);
        }
        k = k + 1;
    }
    out
}

/// The default column selection of an export.
pub fn default_columns() -> (r: Vec<String>)
    ensures
        r.deep_view() =~= seq!["date"@, "account"@, "category"@, "description"@, "amount"@],
{
    let mut v: Vec<String> = Vec::new();
    v.push(String::from_str("date"));
    v.push(String::from_str("account"));
    v.push(String::from_str("category"));
    v.push(String::from_str("description"));
    v.push(String::from_str("amount"));
    proof {
        assert(v.deep_view() =~= seq!["date"@, "account"@, "category"@, "description"@, "amount"@]);
    }
    v
}

/// The column selection actually used: the given one, or the default when
/// none or an empty one was given.
pub fn effective_columns(columns: Option<Vec<String>>) -> (r: Vec<String>)
    ensures
        r.deep_view() == (match columns.deep_view() {
            Some(c) => if c.len() > 0 {
                c
            } else {
                seq!["date"@, "account"@, "category"@, "description"@, "amount"@]
            },
            None => seq!["date"@, "account"@, "category"@, "description"@, "amount"@],
        }),
{
    match columns {
        Some(c) => {
            if c.len() > 0 {
                c
            } else {
                default_columns()
            }
        },
        None => default_columns(),
    }
}

/// The header label of a column: the five known columns carry fixed labels,
/// an unknown column labels itself.
pub open spec fn spec_header_label(c: Seq<char>) -> Seq<char> {
    if c == "date"@ {
        "Date"@
    } else if c == "account"@ {
        "Account"@
    } else if c == "category"@ {
        "Category"@
    } else if c == "description"@ {
        "Notes"@
    } else if c == "amount"@ {
        "Value"@
    } else {
        c
    }
}

/// The header label written above a column.
pub fn header_label(c: &String) -> (r: String)
    ensures
        r@ == spec_header_label(c@),
{
    if *c == String::from_str("date") {
        String::from_str("Date")
    } else if *c == String::from_str("account") {
        String::from_str("Account")
    } else if *c == String::from_str("category") {
        String::from_str("Category")
    } else if *c == String::from_str("description") {
        String::from_str("Notes")
    } else if *c == String::from_str("amount") {
        String::from_str("Value")
    } else {
        c.clone()
    }
}

} // verus!
