use ledger_core::amounts::{format_amount_eu, int_str};
use ledger_core::category::{normalize_category_name, validate_category_name};
use ledger_core::dates::{fmt_dmy, iso_to_de, parse_iso_date, DateYmd};
use ledger_core::report::{
    account_label, default_columns, effective_columns, header_label, order_columns, period_label,
    time_span_label,
};
use ledger_core::session::{is_sqlite_header, map_notadb};

#[test]
fn amounts_format_european_style() {
    assert_eq!(format_amount_eu(0), "0,00");
    assert_eq!(format_amount_eu(7), "0,07");
    assert_eq!(format_amount_eu(100), "1,00");
    assert_eq!(format_amount_eu(-123456), "-1.234,56");
    assert_eq!(format_amount_eu(1234567890), "12.345.678,90");
    assert_eq!(format_amount_eu(-5), "-0,05");
    assert_eq!(format_amount_eu(i64::MIN), "-92.233.720.368.547.758,08");
    assert_eq!(format_amount_eu(i64::MAX), "92.233.720.368.547.758,07");
}

#[test]
fn integers_format_plainly() {
    assert_eq!(int_str(0), "0");
    assert_eq!(int_str(42), "42");
    assert_eq!(int_str(-42), "-42");
}

#[test]
fn iso_dates_rearrange_to_german_order() {
    assert_eq!(iso_to_de("2024-01-31"), "31.01.2024");
    assert_eq!(iso_to_de("1999-12-05x"), "05.12.1999");
    assert_eq!(iso_to_de("short"), "short");
    assert_eq!(iso_to_de(""), "");
}

#[test]
fn strict_date_parse_validates_the_calendar() {
    assert_eq!(parse_iso_date("2024-02-29"), Some(DateYmd { y: 2024, m: 2, d: 29 }));
    assert_eq!(parse_iso_date("2023-02-29"), None);
    assert_eq!(parse_iso_date("1900-02-29"), None);
    assert_eq!(parse_iso_date("2000-02-29"), Some(DateYmd { y: 2000, m: 2, d: 29 }));
    assert_eq!(parse_iso_date("2024-04-31"), None);
    assert_eq!(parse_iso_date("2024-13-01"), None);
    assert_eq!(parse_iso_date("2024-00-10"), None);
    assert_eq!(parse_iso_date("2024-1-10"), None);
    assert_eq!(parse_iso_date("24-01-10"), None);
    assert_eq!(parse_iso_date("2024/01/10"), None);
}

#[test]
fn display_dates_go_through_the_calendar_parser() {
    // Would fail if the date parser handed its argument back unchanged.
    assert_eq!(fmt_dmy("2023-02-01"), "01.02.2023");
    assert_eq!(fmt_dmy("bogus"), "bogus");
    assert_eq!(fmt_dmy("2023-02-30"), "2023-02-30");
}

#[test]
fn span_labels() {
    let f = Some("2023-02-01".to_string());
    let t = Some("2023-03-05".to_string());
    assert_eq!(time_span_label(&f, &t), "01.02.2023 – 05.03.2023");
    assert_eq!(time_span_label(&f, &None), "since 01.02.2023");
    assert_eq!(time_span_label(&None, &t), "until 05.03.2023");
    assert_eq!(time_span_label(&None, &None), "All time");
    assert_eq!(period_label(&None, &None), "—");
    assert_eq!(period_label(&f, &t), "01.02.2023 – 05.03.2023");
}

#[test]
fn account_labels() {
    assert_eq!(account_label(None, &None), "All accounts");
    assert_eq!(account_label(Some(7), &Some("Wallet".to_string())), "Wallet");
    assert_eq!(account_label(Some(7), &None), "Account #7");
}

#[test]
fn columns_have_a_stable_order() {
    let cols = vec![
        "amount".to_string(),
        "date".to_string(),
        "banana".to_string(),
        "account".to_string(),
    ];
    let ordered = order_columns(&cols);
    assert_eq!(ordered, vec!["date", "account", "amount", "banana"]);

    let defaults = default_columns();
    assert_eq!(defaults, vec!["date", "account", "category", "description", "amount"]);

    assert_eq!(effective_columns(None), defaults);
    assert_eq!(effective_columns(Some(Vec::new())), defaults);
    assert_eq!(
        effective_columns(Some(vec!["date".to_string()])),
        vec!["date".to_string()]
    );
}

#[test]
fn column_headers() {
    assert_eq!(header_label(&"date".to_string()), "Date");
    assert_eq!(header_label(&"account".to_string()), "Account");
    assert_eq!(header_label(&"category".to_string()), "Category");
    assert_eq!(header_label(&"description".to_string()), "Notes");
    assert_eq!(header_label(&"amount".to_string()), "Value");
    assert_eq!(header_label(&"banana".to_string()), "banana");
}

#[test]
fn category_names_are_trimmed() {
    assert_eq!(
        normalize_category_name(&Some("  Food ".to_string())),
        Some("Food".to_string())
    );
    assert_eq!(normalize_category_name(&Some("   ".to_string())), None);
    assert_eq!(normalize_category_name(&None), None);

    assert_eq!(validate_category_name(" Rent "), Ok("Rent".to_string()));
    assert_eq!(
        validate_category_name("  "),
        Err("Category name cannot be empty".to_string())
    );
}

#[test]
fn not_a_database_errors_are_classified() {
    assert_eq!(
        map_notadb("error: file is not a database", false),
        "Incorrect password for this encrypted database."
    );
    assert_eq!(
        map_notadb("error: file is not a database", true),
        "This file looks like a regular (unencrypted) SQLite database — not an SQLCipher-encrypted DB."
    );
    assert_eq!(
        map_notadb("sqlite: file is encrypted or is not a database", false),
        "Incorrect password for this encrypted database."
    );
    assert_eq!(map_notadb("disk I/O error", false), "Open failed: disk I/O error");
}

#[test]
fn plain_database_header_is_recognized() {
    let magic = b"SQLite format 3\0".to_vec();
    assert!(is_sqlite_header(&magic));
    let mut wrong = magic.clone();
    wrong[0] = b'X';
    assert!(!is_sqlite_header(&wrong));
    assert!(!is_sqlite_header(&magic[..15].to_vec()));
}
