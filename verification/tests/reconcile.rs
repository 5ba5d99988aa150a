use ledger_core::model::{AccountKind, TransactionOut};
use ledger_core::reimburse::{
    allocate_carry, compute_reimbursable_slice, require_account_scope, AccountInfo,
    ReimburseError,
};

fn tx(id: i64, date: &str, amount: i64) -> TransactionOut {
    TransactionOut {
        id,
        account_id: 2,
        account_name: "Expenses".to_string(),
        account_color: None,
        date: date.to_string(),
        category: None,
        description: None,
        amount,
        account_kind: AccountKind::Reimbursable,
    }
}

fn reimb_account() -> Option<AccountInfo> {
    Some(AccountInfo { name: "Expenses".to_string(), kind: AccountKind::Reimbursable })
}

#[test]
fn window_uncovered_credit_covered() {
    // window = [-50, +30, -20] with no initial carry:
    // the first debit is uncovered and emitted as is, the credit replenishes
    // the carry, the last debit is fully covered and dropped.
    let window = vec![tx(1, "2024-01-01", -50), tx(2, "2024-01-02", 30), tx(3, "2024-01-03", -20)];
    let report = allocate_carry(&window, 0);
    assert_eq!(report.rows.len(), 1);
    assert_eq!(report.rows[0].tx.id, 1);
    assert_eq!(report.rows[0].adjusted, -50);
    assert!(report.rows[0].note.is_none());
    assert_eq!(report.total_outstanding, -50);
    assert_eq!(report.final_carry, 10);
}

#[test]
fn window_single_debit_fully_covered() {
    // window = [-10] with initial carry 15: consumed 10, row dropped,
    // nothing outstanding, carry 5 remains.
    let window = vec![tx(1, "2024-01-01", -10)];
    let report = allocate_carry(&window, 15);
    assert!(report.rows.is_empty());
    assert_eq!(report.total_outstanding, 0);
    assert_eq!(report.final_carry, 5);
}

#[test]
fn partial_coverage_emits_note() {
    let window = vec![tx(1, "2024-01-01", -5000)];
    let report = allocate_carry(&window, 3000);
    assert_eq!(report.rows.len(), 1);
    assert_eq!(report.rows[0].adjusted, -2000);
    assert_eq!(
        report.rows[0].note.as_deref(),
        Some("(partial: 30,00 € of 50,00 €)")
    );
    assert_eq!(report.total_outstanding, -2000);
    assert_eq!(report.final_carry, 0);
}

#[test]
fn zero_amounts_have_no_effect() {
    let window = vec![tx(1, "2024-01-01", 0), tx(2, "2024-01-02", -10)];
    let report = allocate_carry(&window, 5);
    assert_eq!(report.rows.len(), 1);
    assert_eq!(report.rows[0].tx.id, 2);
    assert_eq!(report.rows[0].adjusted, -5);
    assert_eq!(
        report.rows[0].note.as_deref(),
        Some("(partial: 0,05 € of 0,10 €)")
    );
    assert_eq!(report.final_carry, 0);
}

#[test]
fn carry_conservation_holds_on_a_mixed_window() {
    let window = vec![
        tx(1, "2024-01-01", -100),
        tx(2, "2024-01-02", 30),
        tx(3, "2024-01-03", -50),
        tx(4, "2024-01-04", 200),
        tx(5, "2024-01-05", -40),
    ];
    let initial: i128 = 0;
    let report = allocate_carry(&window, initial);

    let sum_pos: i128 = window.iter().filter(|t| t.amount > 0).map(|t| t.amount as i128).sum();
    let sum_neg: i128 = window.iter().filter(|t| t.amount < 0).map(|t| t.amount as i128).sum();
    // Total consumed, recovered from the outputs: adjusted minus original
    // over the debits.
    let consumed = report.total_outstanding - sum_neg;

    // initialCarry + Σ(positive) = Σ(consumed) + carry after the last row.
    assert_eq!(initial + sum_pos, consumed + report.final_carry);
    // Σ(adjusted) + Σ(consumed) = Σ(negative) in magnitudes.
    assert_eq!(-report.total_outstanding + consumed, -sum_neg);

    assert_eq!(report.total_outstanding, -120);
    assert_eq!(report.final_carry, 160);
    assert_eq!(report.rows.len(), 2);
    assert_eq!(report.rows[0].adjusted, -100);
    assert!(report.rows[0].note.is_none());
    assert_eq!(report.rows[1].adjusted, -20);
    assert_eq!(
        report.rows[1].note.as_deref(),
        Some("(partial: 0,30 € of 0,50 €)")
    );
}

#[test]
fn resolver_cuts_after_last_square_point() {
    // running: 100, -50, -20, -40 — last non-negative after the first row.
    let history = vec![
        tx(1, "2024-01-01", 100),
        tx(2, "2024-01-02", -150),
        tx(3, "2024-01-03", 30),
        tx(4, "2024-01-04", -20),
    ];
    let slice = compute_reimbursable_slice(&reimb_account(), &history).unwrap();
    assert_eq!(slice.account_name, "Expenses");
    assert_eq!(slice.current_balance, -40);
    assert_eq!(slice.initial_carry, 100);
    let window_ids: Vec<i64> = slice.window.iter().map(|t| t.id).collect();
    assert_eq!(window_ids, vec![2, 3, 4]);
}

#[test]
fn resolver_with_never_square_history() {
    let history = vec![tx(1, "2024-01-01", -10), tx(2, "2024-01-02", -20)];
    let slice = compute_reimbursable_slice(&reimb_account(), &history).unwrap();
    assert_eq!(slice.initial_carry, 0);
    assert_eq!(slice.current_balance, -30);
    assert_eq!(slice.window.len(), 2);
}

#[test]
fn resolver_with_settled_history_has_empty_window() {
    // running: 100, 50, -30, 10, 0 — square again at the very end.
    let history = vec![
        tx(1, "2024-01-01", 100),
        tx(2, "2024-01-02", -50),
        tx(3, "2024-01-03", -80),
        tx(4, "2024-01-04", 40),
        tx(5, "2024-01-05", -10),
    ];
    let slice = compute_reimbursable_slice(&reimb_account(), &history).unwrap();
    assert_eq!(slice.initial_carry, 0);
    assert_eq!(slice.current_balance, 0);
    assert!(slice.window.is_empty());
}

#[test]
fn resolver_reports_missing_account() {
    let history: Vec<TransactionOut> = Vec::new();
    let err = match compute_reimbursable_slice(&None, &history) {
        Err(e) => e,
        Ok(_) => panic!("a missing account must be refused"),
    };
    assert_eq!(err, ReimburseError::AccountNotFound);
    assert_eq!(err.message(), "Account not found");
}

#[test]
fn resolver_refuses_standard_account() {
    let history: Vec<TransactionOut> = Vec::new();
    let account = Some(AccountInfo { name: "Checking".to_string(), kind: AccountKind::Standard });
    let err = match compute_reimbursable_slice(&account, &history) {
        Err(e) => e,
        Ok(_) => panic!("a standard account must be refused"),
    };
    assert_eq!(err, ReimburseError::NotReimbursable);
    assert_eq!(err.message(), "This export requires a reimbursable account");
}

#[test]
fn resolver_then_allocator_end_to_end() {
    let history = vec![
        tx(1, "2024-01-01", 50),
        tx(2, "2024-01-02", -30),
        tx(3, "2024-01-03", 40),  // running 60: last square point
        tx(4, "2024-01-04", -90),
        tx(5, "2024-01-05", 10),
        tx(6, "2024-01-06", -25),
    ];
    let slice = compute_reimbursable_slice(&reimb_account(), &history).unwrap();
    assert_eq!(slice.initial_carry, 60);
    let window_ids: Vec<i64> = slice.window.iter().map(|t| t.id).collect();
    assert_eq!(window_ids, vec![4, 5, 6]);

    let report = allocate_carry(&slice.window, slice.initial_carry);
    // -90 with carry 60: partially covered, -30 outstanding;
    // +10 replenishes; -25 with carry 10: -15 outstanding.
    assert_eq!(report.rows.len(), 2);
    assert_eq!(report.rows[0].tx.id, 4);
    assert_eq!(report.rows[0].adjusted, -30);
    assert_eq!(
        report.rows[0].note.as_deref(),
        Some("(partial: 0,60 € of 0,90 €)")
    );
    assert_eq!(report.rows[1].tx.id, 6);
    assert_eq!(report.rows[1].adjusted, -15);
    assert_eq!(report.total_outstanding, -45);
    assert_eq!(report.final_carry, 0);
    assert!(report.total_outstanding <= 0);
}

#[test]
fn reconciliation_requires_an_account_scope() {
    assert_eq!(require_account_scope(Some(7)), Ok(7));
    assert_eq!(
        require_account_scope(None),
        Err("Filter to a reimbursable account first".to_string())
    );
}
