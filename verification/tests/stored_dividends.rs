use std::str::FromStr;

use rusqlite::Connection;
use stonks_rs::database::create_tables;
use stonks_rs::database::dividends::{add_dividend, delete_dividend, edit_dividend, load_all_dividends_from_db};
use stonks_rs::date::Date;
use stonks_rs::decimal::Decimal;
use stonks_rs::types::{Currency, Dividend};

fn test_db() -> Connection {
    let conn = Connection::open_in_memory().unwrap();
    create_tables(&conn).unwrap();
    conn
}

fn d(text: &str) -> Decimal {
    Decimal::parse(text).unwrap()
}

fn rd(x: Decimal) -> rust_decimal::Decimal {
    rust_decimal::Decimal::from_i128_with_scale(x.mantissa(), x.scale())
}

fn sample_dividend() -> Dividend {
    Dividend {
        id: Some(0),
        ticker: "VWCE".to_string(),
        payment_date: Date::from_ymd_opt(2025, 1, 1).unwrap(),
        amount: d("10.0"),
        currency: Currency::EUR,
        taxes: d("0.02"),
    }
}

#[test]
fn insert_dividend() {
    let conn = test_db();
    let div = sample_dividend();
    add_dividend(&conn, div).unwrap();
    let dividends = load_all_dividends_from_db(&conn).unwrap();
    assert_eq!(dividends.len(), 1);
    assert_eq!(dividends[0].ticker, "VWCE");
}

#[test]
fn update_dividend() {
    let conn = test_db();
    let mut div = add_dividend(&conn, sample_dividend()).unwrap();
    div.amount = d("250.0");
    div.taxes = d("20.0");
    edit_dividend(&conn, div).unwrap();
    let dividends = load_all_dividends_from_db(&conn).unwrap();
    assert_eq!(dividends.len(), 1);
    assert_eq!(rd(dividends[0].amount), rust_decimal::Decimal::from_str("250.0").unwrap());
    assert_eq!(rd(dividends[0].taxes), rust_decimal::Decimal::from_str("20.0").unwrap());
}

#[test]
fn delete_dividend_test() {
    let conn = test_db();
    let div = add_dividend(&conn, sample_dividend()).unwrap();
    delete_dividend(&conn, div.id.unwrap()).unwrap();
    let dividends = load_all_dividends_from_db(&conn).unwrap();
    assert!(dividends.is_empty());
}
