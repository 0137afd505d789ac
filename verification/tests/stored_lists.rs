use rusqlite::Connection;
use stonks_rs::app::{AppState, Settings};
use stonks_rs::database::create_tables;
use stonks_rs::date::Date;
use stonks_rs::decimal::Decimal;
use stonks_rs::helpers::{add_dividend_to_list, add_transaction_to_list, delete_transaction_from_list, edit_transaction_in_list, ListError};
use stonks_rs::database::dividends::load_all_dividends_from_db;
use stonks_rs::database::load_all_transactions_from_db;
use stonks_rs::service::{db_add_transaction, init_db, open_database};
use stonks_rs::types::{Currency, Dividend, Transaction, TransactionType};

fn test_db() -> Connection {
    let conn = Connection::open_in_memory().unwrap();
    create_tables(&conn).unwrap();
    conn
}

fn d(text: &str) -> Decimal {
    Decimal::parse(text).unwrap()
}

fn tx(ticker: &str) -> Transaction {
    Transaction {
        id: None,
        ticker: ticker.to_string(),
        transaction_type: TransactionType::Buy,
        trade_date: Date::from_ymd_opt(2025, 1, 1).unwrap(),
        quantity: d("1.5"),
        price: d("99.90"),
        currency: Currency::USD,
        fees: d("0.02"),
    }
}

#[test]
fn stored_transaction_reads_back() {
    let conn = test_db();
    let stored = db_add_transaction(&conn, tx("VWCE")).unwrap();
    assert!(stored.id.is_some());
    assert_eq!(stored.ticker, "VWCE");
    assert_eq!(stored.trade_date.to_string(), "2025-01-01");
    assert_eq!(stored.price.to_string(), "99.90");
    assert_eq!(stored.currency, Currency::USD);
    assert_eq!(stored.transaction_type, TransactionType::Buy);
}

#[test]
fn list_follows_the_database() {
    let conn = test_db();
    let mut list = Vec::new();
    add_transaction_to_list(&conn, &mut list, tx("A")).unwrap();
    add_transaction_to_list(&conn, &mut list, tx("B")).unwrap();
    assert_eq!(list.len(), 2);
    let mut changed = list[0].copy();
    changed.ticker = "C".to_string();
    edit_transaction_in_list(&conn, &mut list, changed).unwrap();
    assert_eq!(list.iter().map(|t| t.ticker.clone()).collect::<Vec<_>>(), vec!["B", "C"]);
    let id = list[0].id.unwrap();
    delete_transaction_from_list(&conn, &mut list, id).unwrap();
    assert_eq!(list.len(), 1);
    assert_eq!(list[0].ticker, "C");
    match delete_transaction_from_list(&conn, &mut list, 999) {
        Err(ListError::NotFound(i)) => assert_eq!(i, 999),
        _ => panic!("no transaction has the id"),
    }
    let mut missing = tx("D");
    missing.id = Some(42);
    match edit_transaction_in_list(&conn, &mut list, missing) {
        Err(ListError::NotFound(i)) => assert_eq!(i, 42),
        _ => panic!("no transaction has the id"),
    }
    assert_eq!(list.len(), 1);
}

#[test]
fn dividends_are_appended() {
    let conn = test_db();
    let mut list = Vec::new();
    let div = Dividend {
        id: None,
        ticker: "VWCE".to_string(),
        payment_date: Date::from_ymd_opt(2025, 3, 1).unwrap(),
        amount: d("4.20"),
        taxes: d("1.05"),
        currency: Currency::EUR,
    };
    add_dividend_to_list(&conn, &mut list, div).unwrap();
    assert_eq!(list.len(), 1);
    assert!(list[0].id.is_some());
    assert_eq!(list[0].amount.to_string(), "4.20");
}

#[test]
fn form_is_saved_and_reset() {
    let conn = test_db();
    let today = Date::from_ymd_opt(2026, 7, 10).unwrap();
    let mut app = AppState::new(Vec::new(), Settings::default(), today);
    app.add_transaction();
    app.create_transaction.ticker = "NVDA".to_string();
    let trade_date = Date::parse("2026-07-09").unwrap();
    app.save_new_transaction(&conn, trade_date, d("3"), d("120.5"), d("1"), today).unwrap();
    assert_eq!(app.transactions.len(), 1);
    assert_eq!(app.transactions[0].ticker, "NVDA");
    assert!(app.create_transaction.ticker.is_empty());
    assert_eq!(app.create_transaction.trade_date_input, "2026-07-10");
    app.transactions.clear();
    app.reload_transactions(&conn).unwrap();
    assert_eq!(app.transactions.len(), 1);
    assert_eq!(app.transactions[0].quantity.to_string(), "3");
}

#[test]
fn missing_directory_is_an_error() {
    assert!(open_database("/nonexistent-dir-for-stonks/db.sqlite").is_err());
}

#[test]
fn opening_creates_the_tables() {
    let conn = open_database(":memory:").unwrap();
    assert!(load_all_transactions_from_db(&conn).unwrap().is_empty());
    assert!(load_all_dividends_from_db(&conn).unwrap().is_empty());
    let conn = init_db(":memory:").unwrap();
    assert!(load_all_transactions_from_db(&conn).unwrap().is_empty());
    let listing = stonks_rs::listing::init_db("/tmp/").unwrap();
    assert!(listing.prepare("SELECT ticker, quantity FROM transactions").is_ok());
    assert!(listing.prepare("SELECT ticker, amount FROM dividends").is_ok());
}
