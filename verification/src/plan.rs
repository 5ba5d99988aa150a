//! The query planner's predicate: a typed list of conjunctive clauses built
//! from a raw search request. The record-store adapter translates the list
//! into its native query language; nothing here concatenates user input into
//! query text. The list denotes exactly the filter predicate of the
//! normalized request (`lemma_clauses_denote_filter`).

use vstd::prelude::*;
use crate::model::{TxSearch, TxSearchView, TxView};
use crate::filter::{
    spec_matches, spec_norm_query, spec_normalize, spec_sign_class, spec_text_matches, SignClass,
};
use crate::text::trim_str;
use crate::dates::{date_le, spec_parse_date};
use vstd::string::StrSliceExecFns;
use vstd::string::StringExecFns;

verus! {

/// One conjunct of the planner's predicate.
pub enum WhereClause {
    EqualsAccount(i64),
    DateFrom(String),
    DateTo(String),
    SignClass(SignClass),
    TextMatch(String),
}

/// Mathematical view of a predicate clause.
pub ghost enum WhereClauseView {
    EqualsAccount(int),
    DateFrom(Seq<char>),
    DateTo(Seq<char>),
    SignClass(SignClass),
    TextMatch(Seq<char>),
}

impl View for WhereClause {
    type V = WhereClauseView;

    open spec fn view(&self) -> WhereClauseView {
        match self {
            WhereClause::EqualsAccount(a) => WhereClauseView::EqualsAccount(*a as int),
            WhereClause::DateFrom(d) => WhereClauseView::DateFrom(d@),
            WhereClause::DateTo(d) => WhereClauseView::DateTo(d@),
            WhereClause::SignClass(s) => WhereClauseView::SignClass(*s),
            WhereClause::TextMatch(q) => WhereClauseView::TextMatch(q@),
        }
    }
}

impl DeepView for WhereClause {
    type V = WhereClauseView;

    open spec fn deep_view(&self) -> WhereClauseView {
        self.view()
    }
}

/// The clause list a raw request denotes: account scope, date bounds, sign
/// class (only when it constrains anything), and the normalized free-text
/// query (only when non-blank).
pub open spec fn spec_clauses(r: TxSearchView) -> Seq<WhereClauseView> {
    (match r.account_id {
        Some(a) => seq![WhereClauseView::EqualsAccount(a)],
        None => Seq::empty(),
    }) + (match r.date_from {
        Some(d) => seq![WhereClauseView::DateFrom(d)],
        None => Seq::empty(),
    }) + (match r.date_to {
        Some(d) => seq![WhereClauseView::DateTo(d)],
        None => Seq::empty(),
    }) + (match spec_sign_class(r.tx_type) {
        SignClass::All => Seq::empty(),
        s => seq![WhereClauseView::SignClass(s)],
    }) + (match spec_norm_query(r.query) {
        Some(q) => seq![WhereClauseView::TextMatch(q)],
        None => Seq::empty(),
    })
}

/// What one clause requires of a row.
pub open spec fn clause_holds(c: WhereClauseView, t: TxView) -> bool {
    match c {
        WhereClauseView::EqualsAccount(a) => t.account_id == a,
        WhereClauseView::DateFrom(d) => match (spec_parse_date(t.date), spec_parse_date(d)) {
            (Some(td), Some(fd)) => date_le(fd, td),
            _ => false,
        },
        WhereClauseView::DateTo(d) => match (spec_parse_date(t.date), spec_parse_date(d)) {
            (Some(td), Some(tod)) => date_le(td, tod),
            _ => false,
        },
        WhereClauseView::SignClass(s) => match s {
            SignClass::All => true,
            SignClass::Income => t.amount > 0,
            SignClass::Expense => t.amount < 0,
        },
        WhereClauseView::TextMatch(q) => spec_text_matches(t, q),
    }
}

/// A row satisfies every clause of the list.
pub open spec fn clauses_hold(cs: Seq<WhereClauseView>, t: TxView) -> bool {
    forall|i: int| 0 <= i < cs.len() ==> clause_holds(#[trigger] cs[i], t)
}

proof fn lemma_clauses_hold_add(x: Seq<WhereClauseView>, y: Seq<WhereClauseView>, t: TxView)
    ensures
        clauses_hold(x + y, t) <==> clauses_hold(x, t) && clauses_hold(y, t),
{
    if clauses_hold(x + y, t) {
        assert forall|i: int| 0 <= i < x.len() implies clause_holds(#[trigger] x[i], t) by {
            assert((x + y)[i] == x[i]);
        }
        assert forall|i: int| 0 <= i < y.len() implies clause_holds(#[trigger] y[i], t) by {
            assert((x + y)[x.len() + i] == y[i]);
        }
    }
    if clauses_hold(x, t) && clauses_hold(y, t) {
        assert forall|i: int| 0 <= i < (x + y).len() implies clause_holds(
            #[trigger] (x + y)[i],
            t,
        ) by {
            if i < x.len() {
                assert((x + y)[i] == x[i]);
            } else {
                assert((x + y)[i] == y[i - x.len()]);
            }
        }
    }
}

proof fn lemma_clauses_hold_singleton(c: WhereClauseView, t: TxView)
    ensures
        clauses_hold(seq![c], t) <==> clause_holds(c, t),
{
    if clause_holds(c, t) {
        assert forall|i: int| 0 <= i < seq![c].len() implies clause_holds(
            #[trigger] seq![c][i],
            t,
        ) by {
            assert(seq![c][i] == c);
        }
    }
    if clauses_hold(seq![c], t) {
        assert(clause_holds(seq![c][0], t));
        assert(seq![c][0] == c);
    }
}

/// The planner's clause list means exactly the filter predicate of the
/// normalized request: a row satisfies every clause if and only if it
/// matches the normalized filter specification.
pub proof fn lemma_clauses_denote_filter(r: TxSearchView, t: TxView)
    ensures
        clauses_hold(spec_clauses(r), t) <==> spec_matches(spec_normalize(r), t),
{
    let p1: Seq<WhereClauseView> = match r.account_id {
        Some(a) => seq![WhereClauseView::EqualsAccount(a)],
        None => Seq::empty(),
    };
    let p2: Seq<WhereClauseView> = match r.date_from {
        Some(d) => seq![WhereClauseView::DateFrom(d)],
        None => Seq::empty(),
    };
    let p3: Seq<WhereClauseView> = match r.date_to {
        Some(d) => seq![WhereClauseView::DateTo(d)],
        None => Seq::empty(),
    };
    let p4: Seq<WhereClauseView> = match spec_sign_class(r.tx_type) {
        SignClass::All => Seq::empty(),
        s => seq![WhereClauseView::SignClass(s)],
    };
    let p5: Seq<WhereClauseView> = match spec_norm_query(r.query) {
        Some(q) => seq![WhereClauseView::TextMatch(q)],
        None => Seq::empty(),
    };
    lemma_clauses_hold_add(p1, p2, t);
    lemma_clauses_hold_add(p1 + p2, p3, t);
    lemma_clauses_hold_add(p1 + p2 + p3, p4, t);
    lemma_clauses_hold_add(p1 + p2 + p3 + p4, p5, t);
    assert(spec_clauses(r) == p1 + p2 + p3 + p4 + p5);
    let f = spec_normalize(r);
    match r.account_id {
        Some(a) => lemma_clauses_hold_singleton(WhereClauseView::EqualsAccount(a), t),
        None => {},
    }
    match r.date_from {
        Some(d) => lemma_clauses_hold_singleton(WhereClauseView::DateFrom(d), t),
        None => {},
    }
    match r.date_to {
        Some(d) => lemma_clauses_hold_singleton(WhereClauseView::DateTo(d), t),
        None => {},
    }
    match spec_sign_class(r.tx_type) {
        SignClass::All => {},
        s => lemma_clauses_hold_singleton(WhereClauseView::SignClass(s), t),
    }
    match spec_norm_query(r.query) {
        Some(q) => lemma_clauses_hold_singleton(WhereClauseView::TextMatch(q), t),
        None => {},
    }
    assert(clauses_hold(p1, t) == (match f.account_id {
        Some(a) => t.account_id == a,
        None => true,
    }));
    assert(clauses_hold(p2, t) == (match f.date_from {
        Some(df) => match (spec_parse_date(t.date), spec_parse_date(df)) {
            (Some(td), Some(fd)) => date_le(fd, td),
            _ => false,
        },
        None => true,
    }));
    assert(clauses_hold(p3, t) == (match f.date_to {
        Some(dt) => match (spec_parse_date(t.date), spec_parse_date(dt)) {
            (Some(td), Some(tod)) => date_le(td, tod),
            _ => false,
        },
        None => true,
    }));
    assert(clauses_hold(p4, t) == (match f.sign {
        SignClass::All => true,
        SignClass::Income => t.amount > 0,
        SignClass::Expense => t.amount < 0,
    }));
    assert(clauses_hold(p5, t) == (match f.query {
        Some(q) => spec_text_matches(t, q),
        None => true,
    }));
}

/// Builds the typed predicate clauses of a raw search request.
pub fn build_where(filters: &TxSearch) -> (r: Vec<WhereClause>)
    ensures
        r.deep_view() == spec_clauses(filters@),
{
    let mut out: Vec<WhereClause> = Vec::new();
    let ghost p1: Seq<WhereClauseView> = match filters@.account_id {
        Some(a) => seq![WhereClauseView::EqualsAccount(a)],
        None => Seq::empty(),
    };
    let ghost p2: Seq<WhereClauseView> = match filters@.date_from {
        Some(d) => seq![WhereClauseView::DateFrom(d)],
        None => Seq::empty(),
    };
    let ghost p3: Seq<WhereClauseView> = match filters@.date_to {
        Some(d) => seq![WhereClauseView::DateTo(d)],
        None => Seq::empty(),
    };
    let ghost p4: Seq<WhereClauseView> = match spec_sign_class(filters@.tx_type) {
        SignClass::All => Seq::empty(),
        s => seq![WhereClauseView::SignClass(s)],
    };
    let ghost p5: Seq<WhereClauseView> = match spec_norm_query(filters@.query) {
        Some(q) => seq![WhereClauseView::TextMatch(q)],
        None => Seq::empty(),
    };
    if let Some(acc) = filters.account_id {
        out.push(WhereClause::EqualsAccount(acc));
    }
    proof {
        assert(out.deep_view() =~= p1);
    }
    if let Some(df) = &filters.date_from {
        out.push(WhereClause::DateFrom(df.clone()));
    }
    proof {
        assert(out.deep_view() =~= p1 + p2);
    }
    if let Some(dt) = &filters.date_to {
        out.push(WhereClause::DateTo(dt.clone()));
    }
    proof {
        assert(out.deep_view() =~= p1 + p2 + p3);
    }
    match &filters.tx_type {
        Some(t) => {
            if *t == String::from_str("income") {
                out.push(WhereClause::SignClass(SignClass::Income));
            } else if *t == String::from_str("expense") {
                out.push(WhereClause::SignClass(SignClass::Expense));
            }
        },
        None => {},
    }
    proof {
        assert(out.deep_view() =~= p1 + p2 + p3 + p4);
    }
    match &filters.query {
        Some(q) => {
            let tq = trim_str(q.as_str());
            if tq.as_str().unicode_len() > 0 {
                out.push(WhereClause::TextMatch(tq));
            }
        },
        None => {},
    }
    proof {
        assert(out.deep_view() =~= p1 + p2 + p3 + p4 + p5);
        assert(spec_clauses(filters@) == p1 + p2 + p3 + p4 + p5);
    }
    out
}

} // verus!
