use ledger_core::model::{AccountKind, TransactionOut, TxSearch, TxSearchResult};
use ledger_core::order::{build_order, OrderSpec};
use ledger_core::filter::{normalize, SignClass, SortKey};
use ledger_core::paging::{last_page_offset, resolve_offset};
use ledger_core::plan::{build_where, WhereClause};
use ledger_core::search::{export_rows, search_transactions};

fn tx(
    id: i64,
    account_id: i64,
    account_name: &str,
    date: &str,
    category: Option<&str>,
    description: Option<&str>,
    amount: i64,
    kind: AccountKind,
) -> TransactionOut {
    TransactionOut {
        id,
        account_id,
        account_name: account_name.to_string(),
        account_color: None,
        date: date.to_string(),
        category: category.map(|s| s.to_string()),
        description: description.map(|s| s.to_string()),
        amount,
        account_kind: kind,
    }
}

fn blank_search() -> TxSearch {
    TxSearch {
        query: None,
        account_id: None,
        date_from: None,
        date_to: None,
        tx_type: None,
        limit: None,
        offset: None,
        sort_by: None,
        sort_dir: None,
    }
}

fn sample_store() -> Vec<TransactionOut> {
    vec![
        tx(1, 1, "Checking", "2024-01-05", Some("Groceries"), Some("market"), -2500, AccountKind::Standard),
        tx(2, 1, "Checking", "2024-01-06", Some("Salary"), Some("january pay"), 300000, AccountKind::Standard),
        tx(3, 2, "Expenses", "2024-01-07", Some("Travel"), Some("train ticket"), -4900, AccountKind::Reimbursable),
        tx(4, 1, "Checking", "2024-01-08", Some("Transfer"), Some("to savings"), -10000, AccountKind::Standard),
        tx(5, 1, "Checking", "2024-01-01", Some("Init"), Some("Initial balance"), 5000, AccountKind::Standard),
        tx(6, 2, "Expenses", "2024-01-09", None, Some("reimbursement"), 4900, AccountKind::Reimbursable),
        tx(7, 1, "Checking", "2024-01-10", Some("Groceries"), None, 0, AccountKind::Standard),
    ]
}

fn ids(r: &TxSearchResult) -> Vec<i64> {
    r.items.iter().map(|t| t.id).collect()
}

#[test]
fn sums_match_brute_force_scan() {
    let store = sample_store();
    let r = search_transactions(&store, &blank_search());

    // Brute force over the same predicate (everything matches).
    let mut income = 0i128;
    let mut expense = 0i128;
    let mut init = 0i128;
    for t in &store {
        let cat = t.category.as_deref().unwrap_or("").to_lowercase();
        let excluded = cat == "transfer" || cat == "init";
        if !excluded && t.amount > 0 {
            income += t.amount as i128;
        }
        if !excluded && t.amount < 0 {
            expense += t.amount as i128;
        }
        if cat == "init" {
            init += t.amount as i128;
        }
    }
    assert_eq!(r.sum_income, income);
    assert_eq!(r.sum_expense, expense);
    assert_eq!(r.sum_init, init);
    assert_eq!(r.sum_income, 300000 + 4900);
    assert_eq!(r.sum_expense, -2500 - 4900);
    assert_eq!(r.sum_init, 5000);
    assert_eq!(r.sum_income_std, 300000);
    assert_eq!(r.sum_expense_std, -2500);
    assert_eq!(r.sum_income_reimb, 4900);
    assert_eq!(r.sum_expense_reimb, -4900);
    assert_eq!(r.total, 7);
}

#[test]
fn transfer_rows_listed_but_not_summed() {
    let store = vec![
        tx(1, 1, "A", "2024-01-01", Some("TRANSFER"), Some("move"), -700, AccountKind::Standard),
        tx(2, 1, "A", "2024-01-02", Some("Food"), None, -300, AccountKind::Standard),
    ];
    let r = search_transactions(&store, &blank_search());
    assert_eq!(r.total, 2);
    assert_eq!(r.items.len(), 2);
    assert!(r.items.iter().any(|t| t.id == 1));
    assert_eq!(r.sum_expense, -300);
    assert_eq!(r.sum_income, 0);
}

#[test]
fn zero_amount_listed_but_not_summed() {
    let store = vec![tx(1, 1, "A", "2024-01-01", None, None, 0, AccountKind::Standard)];
    let r = search_transactions(&store, &blank_search());
    assert_eq!(r.total, 1);
    assert_eq!(r.items.len(), 1);
    assert_eq!(r.sum_income, 0);
    assert_eq!(r.sum_expense, 0);
}

#[test]
fn last_offset_formula() {
    assert_eq!(last_page_offset(23, 10), 20);
    assert_eq!(last_page_offset(0, 10), 0);
    assert_eq!(last_page_offset(23, 0), 0);
    assert_eq!(last_page_offset(20, 10), 10);
    assert_eq!(last_page_offset(21, 10), 20);
}

#[test]
fn offset_sentinel_and_clamp() {
    assert_eq!(resolve_offset(23, 10, -1), 20);
    assert_eq!(resolve_offset(23, 10, 999), 20);
    assert_eq!(resolve_offset(23, 10, 5), 5);
    assert_eq!(resolve_offset(0, 10, -1), 0);
    assert_eq!(resolve_offset(0, 10, 7), 0);
}

#[test]
fn search_pages_to_the_end() {
    let mut store = Vec::new();
    for i in 0..23 {
        store.push(tx(i + 1, 1, "A", "2024-01-01", None, None, 100, AccountKind::Standard));
    }
    let mut f = blank_search();
    f.limit = Some(10);
    f.offset = Some(-1);
    let last = search_transactions(&store, &f);
    assert_eq!(last.total, 23);
    assert_eq!(last.offset, 20);
    assert_eq!(last.items.len(), 3);

    let mut g = blank_search();
    g.limit = Some(10);
    g.offset = Some(20);
    let direct = search_transactions(&store, &g);
    assert_eq!(ids(&last), ids(&direct));
    assert_eq!(last.offset, direct.offset);

    let mut h = blank_search();
    h.limit = Some(10);
    h.offset = Some(999);
    let stale = search_transactions(&store, &h);
    assert_eq!(stale.offset, 20);
    assert_eq!(ids(&stale), ids(&direct));
}

#[test]
fn search_is_idempotent() {
    let store = sample_store();
    let mut f = blank_search();
    f.query = Some("a".to_string());
    f.sort_by = Some("amount".to_string());
    f.sort_dir = Some("desc".to_string());
    f.limit = Some(3);
    f.offset = Some(0);
    let a = search_transactions(&store, &f);
    let b = search_transactions(&store, &f);
    assert_eq!(ids(&a), ids(&b));
    assert_eq!(a.total, b.total);
    assert_eq!(a.offset, b.offset);
    assert_eq!(a.sum_income, b.sum_income);
    assert_eq!(a.sum_expense, b.sum_expense);
    assert_eq!(a.sum_income_std, b.sum_income_std);
    assert_eq!(a.sum_expense_std, b.sum_expense_std);
    assert_eq!(a.sum_income_reimb, b.sum_income_reimb);
    assert_eq!(a.sum_expense_reimb, b.sum_expense_reimb);
    assert_eq!(a.sum_init, b.sum_init);
    let dates_a: Vec<String> = a.items.iter().map(|t| t.date.clone()).collect();
    let dates_b: Vec<String> = b.items.iter().map(|t| t.date.clone()).collect();
    assert_eq!(dates_a, dates_b);
}

#[test]
fn sums_do_not_depend_on_page() {
    let store = sample_store();
    let mut f = blank_search();
    f.limit = Some(2);
    f.offset = Some(0);
    let first = search_transactions(&store, &f);
    let mut g = blank_search();
    g.limit = Some(3);
    g.offset = Some(-1);
    let last = search_transactions(&store, &g);
    assert_eq!(first.total, last.total);
    assert_eq!(first.sum_income, last.sum_income);
    assert_eq!(first.sum_expense, last.sum_expense);
    assert_eq!(first.sum_init, last.sum_init);
}

#[test]
fn text_query_is_trimmed_and_case_insensitive() {
    let store = sample_store();
    let mut f = blank_search();
    f.query = Some("  TRAIN  ".to_string());
    let r = search_transactions(&store, &f);
    assert_eq!(r.total, 1);
    assert_eq!(r.items[0].id, 3);

    // Blank query degrades to no constraint.
    let mut g = blank_search();
    g.query = Some("   ".to_string());
    let all = search_transactions(&store, &g);
    assert_eq!(all.total, 7);

    // Category names match too.
    let mut h = blank_search();
    h.query = Some("grocer".to_string());
    let cats = search_transactions(&store, &h);
    assert_eq!(cats.total, 2);
}

#[test]
fn sign_class_filters_and_is_lenient() {
    let store = sample_store();
    let mut f = blank_search();
    f.tx_type = Some("income".to_string());
    let inc = search_transactions(&store, &f);
    assert!(inc.items.iter().all(|t| t.amount > 0));
    assert_eq!(inc.total, 3);

    let mut g = blank_search();
    g.tx_type = Some("expense".to_string());
    let exp = search_transactions(&store, &g);
    assert!(exp.items.iter().all(|t| t.amount < 0));
    assert_eq!(exp.total, 3);

    let mut h = blank_search();
    h.tx_type = Some("banana".to_string());
    let all = search_transactions(&store, &h);
    assert_eq!(all.total, 7);
}

#[test]
fn date_range_is_inclusive_and_calendar_based() {
    let store = sample_store();
    let mut f = blank_search();
    f.date_from = Some("2024-01-06".to_string());
    f.date_to = Some("2024-01-08".to_string());
    let r = search_transactions(&store, &f);
    let mut got = ids(&r);
    got.sort();
    assert_eq!(got, vec![2, 3, 4]);

    // A row whose date is not a valid calendar day is excluded by a bound.
    let odd = vec![
        tx(1, 1, "A", "not-a-date", None, None, 100, AccountKind::Standard),
        tx(2, 1, "A", "2024-01-05", None, None, 100, AccountKind::Standard),
    ];
    let mut g = blank_search();
    g.date_from = Some("2024-01-01".to_string());
    let r2 = search_transactions(&odd, &g);
    assert_eq!(ids(&r2), vec![2]);

    // An unparseable bound excludes everything.
    let mut h = blank_search();
    h.date_from = Some("yesterday".to_string());
    let r3 = search_transactions(&store, &h);
    assert_eq!(r3.total, 0);
    assert_eq!(r3.offset, 0);
}

#[test]
fn account_scope_filters() {
    let store = sample_store();
    let mut f = blank_search();
    f.account_id = Some(2);
    let r = search_transactions(&store, &f);
    let mut got = ids(&r);
    got.sort();
    assert_eq!(got, vec![3, 6]);
}

#[test]
fn sort_by_amount_descending_with_id_tiebreak() {
    let store = vec![
        tx(1, 1, "A", "2024-01-01", None, None, 50, AccountKind::Standard),
        tx(2, 1, "A", "2024-01-02", None, None, -10, AccountKind::Standard),
        tx(3, 1, "A", "2024-01-03", None, None, 50, AccountKind::Standard),
    ];
    let mut f = blank_search();
    f.sort_by = Some("amount".to_string());
    f.sort_dir = Some("desc".to_string());
    f.offset = Some(0);
    let r = search_transactions(&store, &f);
    // Descending reverses the (amount, id) order as a whole: equal amounts
    // come with the larger id first.
    assert_eq!(ids(&r), vec![3, 1, 2]);

    // Only the literal "desc" selects descending.
    let mut g = blank_search();
    g.sort_by = Some("amount".to_string());
    g.sort_dir = Some("DESC".to_string());
    g.offset = Some(0);
    let asc = search_transactions(&store, &g);
    assert_eq!(ids(&asc), vec![2, 1, 3]);
}

#[test]
fn sort_by_category_puts_uncategorized_first() {
    let store = vec![
        tx(1, 1, "A", "2024-01-01", Some("zeta"), None, 1, AccountKind::Standard),
        tx(2, 1, "A", "2024-01-01", None, None, 2, AccountKind::Standard),
        tx(3, 1, "A", "2024-01-01", Some("Alpha"), None, 3, AccountKind::Standard),
    ];
    let mut f = blank_search();
    f.sort_by = Some("category".to_string());
    f.offset = Some(0);
    let r = search_transactions(&store, &f);
    assert_eq!(ids(&r), vec![2, 3, 1]);
}

#[test]
fn default_sort_is_by_date_then_id() {
    let store = vec![
        tx(5, 1, "A", "2024-01-02", None, None, 1, AccountKind::Standard),
        tx(2, 1, "A", "2024-01-01", None, None, 2, AccountKind::Standard),
        tx(9, 1, "A", "2024-01-01", None, None, 3, AccountKind::Standard),
    ];
    let mut f = blank_search();
    f.offset = Some(0);
    f.sort_by = Some("whatever".to_string());
    let r = search_transactions(&store, &f);
    assert_eq!(ids(&r), vec![2, 9, 5]);
}

#[test]
fn sort_by_date_puts_invalid_dates_first() {
    let store = vec![
        tx(1, 1, "A", "2024-01-02", None, None, 1, AccountKind::Standard),
        tx(2, 1, "A", "not a date", None, None, 2, AccountKind::Standard),
        tx(3, 1, "A", "2024-01-01", None, None, 3, AccountKind::Standard),
    ];
    let mut f = blank_search();
    f.offset = Some(0);
    let r = search_transactions(&store, &f);
    assert_eq!(ids(&r), vec![2, 3, 1]);
}

#[test]
fn sort_by_account_name() {
    let store = vec![
        tx(1, 1, "Wallet", "2024-01-01", None, None, 1, AccountKind::Standard),
        tx(2, 2, "Checking", "2024-01-01", None, None, 2, AccountKind::Standard),
        tx(3, 3, "Savings", "2024-01-01", None, None, 3, AccountKind::Standard),
    ];
    let mut f = blank_search();
    f.sort_by = Some("account".to_string());
    f.offset = Some(0);
    let r = search_transactions(&store, &f);
    assert_eq!(ids(&r), vec![2, 3, 1]);
}

#[test]
fn normalize_applies_defaults() {
    let f = normalize(&blank_search());
    assert_eq!(f.limit, 15);
    assert_eq!(f.offset, -1);
    assert_eq!(f.sign, SignClass::All);
    assert_eq!(f.sort_key, SortKey::Date);
    assert!(!f.descending);
    assert!(f.query.is_none());

    let mut raw = blank_search();
    raw.limit = Some(-7);
    let g = normalize(&raw);
    assert_eq!(g.limit, 0);
}

#[test]
fn build_order_resolves_keys() {
    let mut raw = blank_search();
    raw.sort_by = Some("account".to_string());
    raw.sort_dir = Some("desc".to_string());
    let o: OrderSpec = build_order(&raw);
    assert_eq!(o.key, SortKey::Account);
    assert!(o.descending);

    raw.sort_by = Some("nonsense".to_string());
    raw.sort_dir = Some("asc".to_string());
    let p = build_order(&raw);
    assert_eq!(p.key, SortKey::Date);
    assert!(!p.descending);
}

#[test]
fn build_where_emits_typed_clauses() {
    let mut raw = blank_search();
    raw.account_id = Some(4);
    raw.date_from = Some("2024-01-01".to_string());
    raw.date_to = Some("2024-02-01".to_string());
    raw.tx_type = Some("expense".to_string());
    raw.query = Some("  Cafe ".to_string());
    let clauses = build_where(&raw);
    assert_eq!(clauses.len(), 5);
    assert!(matches!(clauses[0], WhereClause::EqualsAccount(4)));
    match &clauses[1] {
        WhereClause::DateFrom(d) => assert_eq!(d, "2024-01-01"),
        _ => panic!("expected a date bound clause"),
    }
    match &clauses[2] {
        WhereClause::DateTo(d) => assert_eq!(d, "2024-02-01"),
        _ => panic!("expected a date bound clause"),
    }
    assert!(matches!(clauses[3], WhereClause::SignClass(SignClass::Expense)));
    match &clauses[4] {
        WhereClause::TextMatch(q) => assert_eq!(q, "Cafe"),
        _ => panic!("expected a text clause"),
    }

    // No constraints, no clauses; an unknown sign class adds none either.
    let mut bare = blank_search();
    bare.tx_type = Some("all".to_string());
    bare.query = Some("  ".to_string());
    let none = build_where(&bare);
    assert_eq!(none.len(), 0);
}

#[test]
fn export_rows_ignore_the_page_window() {
    let store = sample_store();
    let mut f = blank_search();
    f.limit = Some(2);
    f.offset = Some(0);
    f.sort_by = Some("id".to_string());
    let rows = export_rows(&store, &f);
    let got: Vec<i64> = rows.iter().map(|t| t.id).collect();
    assert_eq!(got, vec![1, 2, 3, 4, 5, 6, 7]);

    f.tx_type = Some("expense".to_string());
    let expenses = export_rows(&store, &f);
    let got: Vec<i64> = expenses.iter().map(|t| t.id).collect();
    assert_eq!(got, vec![1, 3, 4]);
}

#[test]
fn search_on_empty_store() {
    let store: Vec<TransactionOut> = Vec::new();
    let r = search_transactions(&store, &blank_search());
    assert_eq!(r.total, 0);
    assert_eq!(r.offset, 0);
    assert!(r.items.is_empty());
    assert_eq!(r.sum_income, 0);
    assert_eq!(r.sum_expense, 0);
    assert_eq!(r.sum_init, 0);
}
