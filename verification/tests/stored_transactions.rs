use std::str::FromStr;

use rusqlite::Connection;
use stonks_rs::database::statements::{sql, SqlStatement};
use stonks_rs::database::{add_transaction, create_tables, delete_transaction, edit_transaction, load_all_transactions_from_db};
use stonks_rs::date::Date;
use stonks_rs::decimal::Decimal;
use stonks_rs::types::{Currency, Transaction, TransactionType};

fn test_db() -> Connection {
    let conn = Connection::open_in_memory().unwrap();
    create_tables(&conn).unwrap();
    conn
}

fn d(text: &str) -> Decimal {
    Decimal::parse(text).unwrap()
}

fn rd(x: Decimal) -> rust_decimal::Decimal {
    rust_decimal::Decimal::from_i128_with_scale(x.mantissa(), x.scale())
}

fn sample_transaction() -> Transaction {
    Transaction {
        id: Some(0),
        ticker: "VWCE".to_string(),
        transaction_type: TransactionType::Buy,
        trade_date: Date::from_ymd_opt(2025, 1, 1).unwrap(),
        quantity: d("10.0"),
        price: d("100.0"),
        currency: Currency::EUR,
        fees: d("0.02"),
    }
}

#[test]
fn insert_transaction() {
    let conn = test_db();
    let tx = sample_transaction();
    add_transaction(&conn, tx).unwrap();
    let transactions = load_all_transactions_from_db(&conn).unwrap();
    assert_eq!(transactions.len(), 1);
    assert_eq!(transactions[0].ticker, "VWCE");
}

#[test]
fn update_transaction() {
    let conn = test_db();
    let mut tx = add_transaction(&conn, sample_transaction()).unwrap();
    tx.price = d("250.0");
    tx.quantity = d("20.0");
    edit_transaction(&conn, tx).unwrap();
    let transactions = load_all_transactions_from_db(&conn).unwrap();
    assert_eq!(transactions.len(), 1);
    assert_eq!(rd(transactions[0].price), rust_decimal::Decimal::from_str("250.0").unwrap());
    assert_eq!(rd(transactions[0].quantity), rust_decimal::Decimal::from_str("20.0").unwrap());
}

#[test]
fn delete_transaction_test() {
    let conn = test_db();
    let tx = add_transaction(&conn, sample_transaction()).unwrap();
    delete_transaction(&conn, tx.id.unwrap()).unwrap();
    let transactions = load_all_transactions_from_db(&conn).unwrap();
    assert!(transactions.is_empty());
}

#[test]
fn delete_keeps_the_other_transactions() {
    let conn = test_db();
    let first = add_transaction(&conn, sample_transaction()).unwrap();
    let second = add_transaction(&conn, sample_transaction()).unwrap();
    assert_ne!(first.id, second.id);
    delete_transaction(&conn, first.id.unwrap()).unwrap();
    let transactions = load_all_transactions_from_db(&conn).unwrap();
    assert_eq!(transactions.len(), 1);
    assert_eq!(transactions[0].id, second.id);
}

#[test]
fn statements_have_their_exact_text() {
    let delete = sql(SqlStatement::DeleteTransaction);
    assert!(delete.starts_with("DELETE FROM transactions"));
    assert!(delete.contains("WHERE id = ?1"));
    assert!(sql(SqlStatement::DeleteDividend).contains("WHERE id = ?1"));
    assert!(sql(SqlStatement::UpdateTransaction).contains("WHERE id = ?8"));
    assert!(sql(SqlStatement::UpdateDividend).contains("WHERE id = ?6"));
    assert!(sql(SqlStatement::SelectTransactions).contains("ORDER BY trade_date DESC"));
    assert!(sql(SqlStatement::CreateTables).contains("CREATE TABLE IF NOT EXISTS transactions"));
}
