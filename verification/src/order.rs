//! Row ordering: a two-key sort — the requested primary key, then the row
//! identity as tie-breaker in the same direction — so that the order is
//! deterministic even when the primary key has duplicates. When the primary
//! key is the identity itself the tie-breaker coincides with it.
//!
//! Dates order as calendar days (rows whose date is not a valid calendar day
//! sort first), optional text fields sort with absent values first, text
//! orders lexicographically by code point.

use vstd::prelude::*;
use vstd::string::StringExecFns;
use crate::model::{TransactionOut, TxSearch, TxView};
use crate::filter::SortKey;
use crate::text::{seq_lt, str_lt};
use crate::dates::{date_lt, date_lt_exec, parse_iso_date, spec_parse_date, DateYmd};

verus! {

/// A resolved ordering: primary key and direction.
#[derive(Clone, Copy, PartialEq, Eq, Structural, Debug)]
pub struct OrderSpec {
    pub key: SortKey,
    pub descending: bool,
}

/// Resolves the ordering of a raw search request, leniently: an
/// unrecognized sort key falls back to the date, and only the literal
/// `desc` selects descending order.
pub fn build_order(filters: &TxSearch) -> (r: OrderSpec)
    ensures
        r.key == crate::filter::spec_sort_key(filters@.sort_by),
        r.descending == (filters@.sort_dir == Some("desc"@)),
{
    let key = match &filters.sort_by {
        Some(t) => {
            if *t == String::from_str("category") {
                SortKey::Category
            } else if *t == String::from_str("description") {
                SortKey::Description
            } else if *t == String::from_str("amount") {
                SortKey::Amount
            } else if *t == String::from_str("account") {
                SortKey::Account
            } else if *t == String::from_str("id") {
                SortKey::Id
            } else {
                SortKey::Date
            }
        },
        None => SortKey::Date,
    };
    let descending = match &filters.sort_dir {
        Some(t) => *t == String::from_str("desc"),
        None => false,
    };
    OrderSpec { key, descending }
}

/// Order on optional text: absent first, then lexicographic.
pub open spec fn opt_seq_lt(a: Option<Seq<char>>, b: Option<Seq<char>>) -> bool {
    match (a, b) {
        (Option::None, Option::Some(_)) => true,
        (Option::Some(x), Option::Some(y)) => seq_lt(x, y),
        _ => false,
    }
}

/// Order on optional dates: not-a-date first, then by calendar day.
pub open spec fn opt_date_lt(a: Option<DateYmd>, b: Option<DateYmd>) -> bool {
    match (a, b) {
        (Option::None, Option::Some(_)) => true,
        (Option::Some(x), Option::Some(y)) => date_lt(x, y),
        _ => false,
    }
}

/// Strict order under the primary sort key alone.
pub open spec fn key_lt(key: SortKey, a: TxView, b: TxView) -> bool {
    match key {
        SortKey::Date => opt_date_lt(spec_parse_date(a.date), spec_parse_date(b.date)),
        SortKey::Category => opt_seq_lt(a.category, b.category),
        SortKey::Description => opt_seq_lt(a.description, b.description),
        SortKey::Amount => a.amount < b.amount,
        SortKey::Account => seq_lt(a.account_name, b.account_name),
        SortKey::Id => a.id < b.id,
    }
}

/// Ascending order: primary key first, row identity as tie-breaker.
pub open spec fn base_le(key: SortKey, a: TxView, b: TxView) -> bool {
    key_lt(key, a, b) || (!key_lt(key, a, b) && !key_lt(key, b, a) && a.id <= b.id)
}

/// The requested order: the ascending order, reversed as a whole when the
/// direction is descending (both keys turn, as the planner demands).
pub open spec fn tx_le(ord: OrderSpec, a: TxView, b: TxView) -> bool {
    if ord.descending {
        base_le(ord.key, b, a)
    } else {
        base_le(ord.key, a, b)
    }
}

fn key_lt_exec(key: SortKey, a: &TransactionOut, b: &TransactionOut) -> (r: bool)
    ensures
        r == key_lt(key, a@, b@),
{
    match key {
        SortKey::Date => {
            match (parse_iso_date(a.date.as_str()), parse_iso_date(b.date.as_str())) {
                (Option::None, Option::Some(_)) => true,
                (Option::Some(x), Option::Some(y)) => date_lt_exec(&x, &y),
                _ => false,
            }
        },
        SortKey::Category => {
            match (&a.category, &b.category) {
                (Option::None, Option::Some(_)) => true,
                (Option::Some(x), Option::Some(y)) => str_lt(x.as_str(), y.as_str()),
                _ => false,
            }
        },
        SortKey::Description => {
            match (&a.description, &b.description) {
                (Option::None, Option::Some(_)) => true,
                (Option::Some(x), Option::Some(y)) => str_lt(x.as_str(), y.as_str()),
                _ => false,
            }
        },
        SortKey::Amount => a.amount < b.amount,
        SortKey::Account => str_lt(a.account_name.as_str(), b.account_name.as_str()),
        SortKey::Id => a.id < b.id,
    }
}

/// Decides the requested order between two rows.
pub fn tx_le_exec(ord: OrderSpec, a: &TransactionOut, b: &TransactionOut) -> (r: bool)
    ensures
        r == tx_le(ord, a@, b@),
{
    let (x, y) = if ord.descending {
        (b, a)
    } else {
        (a, b)
    };
    if key_lt_exec(ord.key, x, y) {
        true
    } else if key_lt_exec(ord.key, y, x) {
        false
    } else {
        x.id <= y.id
    }
}

/// Insertion of `x` into `s` before the first element that does not precede
/// it.
pub open spec fn spec_insert(ord: OrderSpec, x: TxView, s: Seq<TxView>) -> Seq<TxView>
    decreases s.len(),
{
    if s.len() == 0 {
        seq![x]
    } else if tx_le(ord, x, s[0]) {
        seq![x] + s
    } else {
        seq![s[0]] + spec_insert(ord, x, s.drop_first())
    }
}

/// Insertion sort of `s` under the requested order.
pub open spec fn spec_sort(ord: OrderSpec, s: Seq<TxView>) -> Seq<TxView>
    decreases s.len(),
{
    if s.len() == 0 {
        s
    } else {
        spec_insert(ord, s.last(), spec_sort(ord, s.drop_last()))
    }
}

/// Inserting adds exactly one element.
pub proof fn lemma_insert_len(ord: OrderSpec, x: TxView, s: Seq<TxView>)
    ensures
        spec_insert(ord, x, s).len() == s.len() + 1,
    decreases s.len(),
{
    if s.len() > 0 && !tx_le(ord, x, s[0]) {
        lemma_insert_len(ord, x, s.drop_first());
    }
}

/// Sorting keeps the number of rows.
pub proof fn lemma_sort_len(ord: OrderSpec, s: Seq<TxView>)
    ensures
        spec_sort(ord, s).len() == s.len(),
    decreases s.len(),
{
    if s.len() > 0 {
        lemma_sort_len(ord, s.drop_last());
        lemma_insert_len(ord, s.last(), spec_sort(ord, s.drop_last()));
    }
}

proof fn lemma_insert_at(ord: OrderSpec, x: TxView, s: Seq<TxView>, j: int)
    requires
        0 <= j <= s.len(),
        forall|k: int| 0 <= k < j ==> !tx_le(ord, x, s[k]),
        j < s.len() ==> tx_le(ord, x, s[j]),
    ensures
        spec_insert(ord, x, s) == s.take(j) + seq![x] + s.skip(j),
    decreases s.len(),
{
    if s.len() == 0 {
        assert(spec_insert(ord, x, s) =~= s.take(j) + seq![x] + s.skip(j));
    } else if tx_le(ord, x, s[0]) {
        assert(j == 0);
        assert(seq![x] + s =~= s.take(0) + seq![x] + s.skip(0));
    } else {
        assert(j >= 1);
        lemma_insert_at(ord, x, s.drop_first(), j - 1);
        assert(seq![s[0]] + (s.drop_first().take(j - 1) + seq![x] + s.drop_first().skip(j - 1))
            =~= s.take(j) + seq![x] + s.skip(j));
    }
}

fn insert_sorted(ord: OrderSpec, out: &mut Vec<TransactionOut>, x: TransactionOut)
    ensures
        final(out).deep_view() == spec_insert(ord, x@, old(out).deep_view()),
{
    let mut j: usize = 0;
    while j < out.len() && !tx_le_exec(ord, &x, &out[j])
        invariant
            0 <= j <= out.len(),
            *out == *old(out),
            out.deep_view().len() == out.len(),
            forall|k: int| 0 <= k < j ==> !tx_le(ord, x@, out.deep_view()[k]),
        decreases out.len() - j,
    {
        j = j + 1;
    }
    let ghost prev = out.deep_view();
    let ghost jj = j as int;
    out.insert(j, x);
    proof {
        lemma_insert_at(ord, x@, prev, jj);
        assert(out.deep_view() =~= prev.take(jj) + seq![x@] + prev.skip(jj));
    }
}

proof fn lemma_opt_seq_lt_trans(x: Option<Seq<char>>, y: Option<Seq<char>>, z: Option<Seq<char>>)
    requires
        opt_seq_lt(x, y),
        opt_seq_lt(y, z),
    ensures
        opt_seq_lt(x, z),
{
    match (x, y, z) {
        (Option::Some(a), Option::Some(b), Option::Some(c)) => {
            crate::text::lemma_seq_lt_trans(a, b, c);
        },
        _ => {},
    }
}

proof fn lemma_opt_seq_lt_negtrans(
    x: Option<Seq<char>>,
    y: Option<Seq<char>>,
    z: Option<Seq<char>>,
)
    requires
        !opt_seq_lt(x, y),
        !opt_seq_lt(y, z),
    ensures
        !opt_seq_lt(x, z),
{
    if opt_seq_lt(x, z) {
        match (x, y, z) {
            (Option::Some(a), Option::Some(b), Option::Some(c)) => {
                if crate::text::seq_lt(b, a) {
                    crate::text::lemma_seq_lt_trans(b, a, c);
                } else {
                    crate::text::lemma_seq_lt_connected(a, b);
                }
            },
            _ => {},
        }
        assert(false);
    }
}

proof fn lemma_key_lt_trans(key: SortKey, a: TxView, b: TxView, c: TxView)
    requires
        key_lt(key, a, b),
        key_lt(key, b, c),
    ensures
        key_lt(key, a, c),
{
    match key {
        SortKey::Date => {},
        SortKey::Category => {
            lemma_opt_seq_lt_trans(a.category, b.category, c.category);
        },
        SortKey::Description => {
            lemma_opt_seq_lt_trans(a.description, b.description, c.description);
        },
        SortKey::Amount => {},
        SortKey::Account => {
            crate::text::lemma_seq_lt_trans(a.account_name, b.account_name, c.account_name);
        },
        SortKey::Id => {},
    }
}

proof fn lemma_key_lt_negtrans(key: SortKey, a: TxView, b: TxView, c: TxView)
    requires
        !key_lt(key, a, b),
        !key_lt(key, b, c),
    ensures
        !key_lt(key, a, c),
{
    match key {
        SortKey::Date => {},
        SortKey::Category => {
            lemma_opt_seq_lt_negtrans(a.category, b.category, c.category);
        },
        SortKey::Description => {
            lemma_opt_seq_lt_negtrans(a.description, b.description, c.description);
        },
        SortKey::Amount => {},
        SortKey::Account => {
            if crate::text::seq_lt(a.account_name, c.account_name) {
                if crate::text::seq_lt(b.account_name, a.account_name) {
                    crate::text::lemma_seq_lt_trans(
                        b.account_name,
                        a.account_name,
                        c.account_name,
                    );
                } else {
                    crate::text::lemma_seq_lt_connected(a.account_name, b.account_name);
                }
                assert(false);
            }
        },
        SortKey::Id => {},
    }
}

proof fn lemma_base_le_trans(key: SortKey, a: TxView, b: TxView, c: TxView)
    requires
        base_le(key, a, b),
        base_le(key, b, c),
    ensures
        base_le(key, a, c),
{
    if key_lt(key, a, b) && key_lt(key, b, c) {
        lemma_key_lt_trans(key, a, b, c);
    } else if key_lt(key, a, b) {
        // b and c are tied on the key
        if !key_lt(key, a, c) {
            lemma_key_lt_negtrans(key, a, c, b);
            assert(false);
        }
    } else if key_lt(key, b, c) {
        // a and b are tied on the key
        if !key_lt(key, a, c) {
            lemma_key_lt_negtrans(key, b, a, c);
            assert(false);
        }
    } else {
        // both pairs tied: the ties compose, identities decide
        lemma_key_lt_negtrans(key, a, b, c);
        lemma_key_lt_negtrans(key, c, b, a);
    }
}

/// The requested order can compare any two rows.
pub proof fn lemma_tx_le_total(ord: OrderSpec, a: TxView, b: TxView)
    ensures
        tx_le(ord, a, b) || tx_le(ord, b, a),
{
}

/// The requested order is transitive.
pub proof fn lemma_tx_le_trans(ord: OrderSpec, a: TxView, b: TxView, c: TxView)
    requires
        tx_le(ord, a, b),
        tx_le(ord, b, c),
    ensures
        tx_le(ord, a, c),
{
    if ord.descending {
        lemma_base_le_trans(ord.key, c, b, a);
    } else {
        lemma_base_le_trans(ord.key, a, b, c);
    }
}

/// Every consecutive pair of the sequence stands in the requested order.
pub open spec fn sorted_by_order(ord: OrderSpec, s: Seq<TxView>) -> bool {
    forall|i: int, j: int| 0 <= i < j < s.len() ==> tx_le(ord, s[i], s[j])
}

proof fn lemma_insert_element_of(ord: OrderSpec, x: TxView, s: Seq<TxView>)
    ensures
        forall|m: int|
            0 <= m < spec_insert(ord, x, s).len() ==> spec_insert(ord, x, s)[m] == x || (
            exists|k: int| 0 <= k < s.len() && s[k] == spec_insert(ord, x, s)[m]),
    decreases s.len(),
{
    let out = spec_insert(ord, x, s);
    if s.len() == 0 {
    } else if tx_le(ord, x, s[0]) {
        assert forall|m: int| 0 <= m < out.len() implies out[m] == x || (exists|k: int|
            0 <= k < s.len() && s[k] == out[m]) by {
            if m > 0 {
                assert(s[m - 1] == out[m]);
            }
        }
    } else {
        let t = s.drop_first();
        lemma_insert_element_of(ord, x, t);
        let ins = spec_insert(ord, x, t);
        assert forall|m: int| 0 <= m < out.len() implies out[m] == x || (exists|k: int|
            0 <= k < s.len() && s[k] == out[m]) by {
            if m == 0 {
                assert(s[0] == out[0]);
            } else {
                assert(out[m] == ins[m - 1]);
                if ins[m - 1] != x {
                    let k = choose|k: int| 0 <= k < t.len() && t[k] == ins[m - 1];
                    assert(s[k + 1] == out[m]);
                }
            }
        }
    }
}

proof fn lemma_insert_keeps_sorted(ord: OrderSpec, x: TxView, s: Seq<TxView>)
    requires
        sorted_by_order(ord, s),
    ensures
        sorted_by_order(ord, spec_insert(ord, x, s)),
    decreases s.len(),
{
    let out = spec_insert(ord, x, s);
    if s.len() == 0 {
    } else if tx_le(ord, x, s[0]) {
        assert forall|i: int, j: int| 0 <= i < j < out.len() implies tx_le(
            ord,
            out[i],
            out[j],
        ) by {
            if i == 0 {
                assert(out[j] == s[j - 1]);
                if j > 1 {
                    lemma_tx_le_trans(ord, x, s[0], s[j - 1]);
                }
            } else {
                assert(out[i] == s[i - 1] && out[j] == s[j - 1]);
            }
        }
    } else {
        let t = s.drop_first();
        assert(sorted_by_order(ord, t)) by {
            assert forall|i: int, j: int| 0 <= i < j < t.len() implies tx_le(
                ord,
                t[i],
                t[j],
            ) by {
                assert(t[i] == s[i + 1] && t[j] == s[j + 1]);
            }
        }
        lemma_insert_keeps_sorted(ord, x, t);
        lemma_insert_element_of(ord, x, t);
        lemma_tx_le_total(ord, x, s[0]);
        let ins = spec_insert(ord, x, t);
        assert forall|i: int, j: int| 0 <= i < j < out.len() implies tx_le(
            ord,
            out[i],
            out[j],
        ) by {
            if i == 0 {
                assert(out[j] == ins[j - 1]);
                if ins[j - 1] == x {
                    assert(tx_le(ord, s[0], x));
                } else {
                    let k = choose|k: int| 0 <= k < t.len() && t[k] == ins[j - 1];
                    assert(t[k] == s[k + 1]);
                    assert(tx_le(ord, s[0], s[k + 1]));
                }
            } else {
                assert(out[i] == ins[i - 1] && out[j] == ins[j - 1]);
            }
        }
    }
}

/// The sorted sequence is sorted under the requested order.
pub proof fn lemma_sort_sorted(ord: OrderSpec, s: Seq<TxView>)
    ensures
        sorted_by_order(ord, spec_sort(ord, s)),
    decreases s.len(),
{
    if s.len() > 0 {
        lemma_sort_sorted(ord, s.drop_last());
        lemma_insert_keeps_sorted(ord, s.last(), spec_sort(ord, s.drop_last()));
    }
}

proof fn lemma_insert_is_permutation(ord: OrderSpec, x: TxView, s: Seq<TxView>)
    ensures
        spec_insert(ord, x, s).to_multiset() == s.to_multiset().insert(x),
    decreases s.len(),
{
    broadcast use vstd::seq_lib::group_to_multiset_ensures;

    if s.len() == 0 {
        assert(seq![x] =~= Seq::<TxView>::empty().push(x));
        assert(spec_insert(ord, x, s).to_multiset() =~= s.to_multiset().insert(x));
    } else if tx_le(ord, x, s[0]) {
        vstd::seq_lib::lemma_multiset_commutative(seq![x], s);
        assert(seq![x] =~= Seq::<TxView>::empty().push(x));
        assert(spec_insert(ord, x, s).to_multiset() =~= s.to_multiset().insert(x));
    } else {
        let t = s.drop_first();
        lemma_insert_is_permutation(ord, x, t);
        vstd::seq_lib::lemma_multiset_commutative(seq![s[0]], spec_insert(ord, x, t));
        vstd::seq_lib::lemma_multiset_commutative(seq![s[0]], t);
        assert(s =~= seq![s[0]] + t);
        assert(seq![s[0]] =~= Seq::<TxView>::empty().push(s[0]));
        assert(spec_insert(ord, x, s).to_multiset() =~= s.to_multiset().insert(x));
    }
}

/// The sort emits exactly the given rows: the result is a permutation.
pub proof fn lemma_sort_is_permutation(ord: OrderSpec, s: Seq<TxView>)
    ensures
        spec_sort(ord, s).to_multiset() == s.to_multiset(),
    decreases s.len(),
{
    broadcast use vstd::seq_lib::group_to_multiset_ensures;

    if s.len() > 0 {
        lemma_sort_is_permutation(ord, s.drop_last());
        lemma_insert_is_permutation(ord, s.last(), spec_sort(ord, s.drop_last()));
        assert(s =~= s.drop_last().push(s.last()));
        assert(spec_sort(ord, s).to_multiset() =~= s.to_multiset());
    }
}

/// `rows` rearranged into the requested order.
pub fn sort_rows(ord: OrderSpec, rows: &Vec<TransactionOut>) -> (out: Vec<TransactionOut>)
    ensures
        out.deep_view() == spec_sort(ord, rows.deep_view()),
{
    let mut out: Vec<TransactionOut> = Vec::new();
    let mut i: usize = 0;
    proof {
        assert(rows.deep_view().take(0) =~= Seq::<TxView>::empty());
        assert(out.deep_view() =~= Seq::<TxView>::empty());
    }
    while i < rows.len()
        invariant
            0 <= i <= rows.len(),
            rows.deep_view().len() == rows.len(),
            out.deep_view() == spec_sort(ord, rows.deep_view().take(i as int)),
        decreases rows.len() - i,
    {
        let ghost s = rows.deep_view();
        insert_sorted(ord, &mut out, rows[i].duplicate());
        proof {
            assert(s.take(i + 1).drop_last() =~= s.take(i as int));
            assert(s.take(i + 1).last() == s[i as int]);
        }
        i = i + 1;
    }
    proof {
        assert(rows.deep_view().take(rows.len() as int) =~= rows.deep_view());
    }
    out
}

} // verus!
