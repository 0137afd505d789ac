use stonks_rs::database::dividends::{dividend_edit_params, dividend_from_row, dividend_params, dividends_from_rows};
use stonks_rs::database::{
    id_params, transaction_edit_params, transaction_from_row, transaction_params, transactions_from_rows, DbError, SqlValue,
};
use stonks_rs::pages::add_transaction::CreateTransaction;
use stonks_rs::date::Date;
use stonks_rs::decimal::Decimal;
use stonks_rs::types::{Currency, Dividend, Transaction, TransactionType};

fn text(s: &str) -> SqlValue {
    SqlValue::Text(s.to_string())
}

fn row(id: i64, currency: &str, quantity: &str) -> Vec<SqlValue> {
    vec![
        SqlValue::Integer(id),
        text("AMD"),
        text("sell"),
        text("2026-06-27"),
        text(quantity),
        text("45.97"),
        text(currency),
        text("0.07"),
    ]
}

#[test]
fn rows_are_read_in_order() {
    let rows = vec![row(1, "eur", "1.5"), row(2, "USD", "2")];
    let v = transactions_from_rows(&rows).unwrap();
    assert_eq!(v.len(), 2);
    assert_eq!(v[0].id, Some(1));
    assert_eq!(v[0].currency, Currency::EUR);
    assert_eq!(v[1].currency, Currency::USD);
    assert_eq!(v[1].transaction_type, TransactionType::Sell);
    assert_eq!(v[0].quantity.to_string(), "1.5");
    assert_eq!(v[0].trade_date.to_string(), "2026-06-27");
}

#[test]
fn a_bad_row_fails_the_read() {
    assert!(matches!(transactions_from_rows(&vec![row(1, "eur", "1"), row(2, "chf", "1")]), Err(DbError::InvalidRow)));
    assert!(matches!(transactions_from_rows(&vec![row(1, "eur", "one")]), Err(DbError::InvalidRow)));
    let mut short = row(1, "eur", "1");
    short.pop();
    assert!(matches!(transaction_from_row(&short), Err(DbError::InvalidRow)));
    let mut bad_type = row(1, "eur", "1");
    bad_type[2] = text("Buy");
    assert!(matches!(transaction_from_row(&bad_type), Err(DbError::InvalidRow)));
    assert!(transactions_from_rows(&Vec::new()).unwrap().is_empty());
}

#[test]
fn parameters_read_back() {
    let t = Transaction {
        id: None,
        ticker: "VWCE".to_string(),
        transaction_type: TransactionType::Buy,
        trade_date: Date::from_ymd_opt(2025, 1, 1).unwrap(),
        quantity: Decimal::parse("10.0").unwrap(),
        price: Decimal::parse("100.25").unwrap(),
        currency: Currency::USD,
        fees: Decimal::parse("0.02").unwrap(),
    };
    let mut stored = vec![SqlValue::Integer(7)];
    stored.extend(transaction_params(&t));
    assert_eq!(stored[3], text("2025-01-01"));
    let back = transaction_from_row(&stored).unwrap();
    assert_eq!(back.id, Some(7));
    assert_eq!(back.ticker, t.ticker);
    assert_eq!(back.price.to_string(), "100.25");
    assert_eq!(back.currency, Currency::USD);

    let d = Dividend {
        id: None,
        ticker: "VWCE".to_string(),
        payment_date: Date::from_ymd_opt(2025, 3, 1).unwrap(),
        amount: Decimal::parse("4.20").unwrap(),
        taxes: Decimal::parse("1.05").unwrap(),
        currency: Currency::EUR,
    };
    let mut stored = vec![SqlValue::Integer(3)];
    stored.extend(dividend_params(&d));
    let back = dividend_from_row(&stored).unwrap();
    assert_eq!(back.id, Some(3));
    assert_eq!(back.amount.to_string(), "4.20");
    assert_eq!(dividends_from_rows(&vec![stored]).unwrap().len(), 1);
}

#[test]
fn statement_parameters_end_with_the_id() {
    assert_eq!(id_params(42), vec![SqlValue::Integer(42)]);
    let t = Transaction {
        id: Some(9),
        ticker: "VWCE".to_string(),
        transaction_type: TransactionType::Sell,
        trade_date: Date::from_ymd_opt(2025, 1, 1).unwrap(),
        quantity: Decimal::parse("3").unwrap(),
        price: Decimal::parse("7.5").unwrap(),
        currency: Currency::EUR,
        fees: Decimal::parse("1").unwrap(),
    };
    let p = transaction_edit_params(&t);
    assert_eq!(p.len(), 8);
    assert_eq!(p[0], text("VWCE"));
    assert_eq!(p[1], text("sell"));
    assert_eq!(p[3], text("3"));
    assert_eq!(p[4], text("7.5"));
    assert_eq!(p[7], SqlValue::Integer(9));
    let p = transaction_edit_params(&Transaction { id: None, ..t });
    assert_eq!(p[7], SqlValue::Null);
    let d = Dividend {
        id: Some(4),
        ticker: "AMD".to_string(),
        payment_date: Date::from_ymd_opt(2025, 3, 1).unwrap(),
        amount: Decimal::parse("2").unwrap(),
        taxes: Decimal::parse("0.5").unwrap(),
        currency: Currency::USD,
    };
    let p = dividend_edit_params(&d);
    assert_eq!(p.len(), 6);
    assert_eq!(p[2], text("2"));
    assert_eq!(p[4], text("0.5"));
    assert_eq!(p[5], SqlValue::Integer(4));
}

#[test]
fn form_describes_the_new_transaction() {
    let date = Date::from_ymd_opt(2026, 7, 1).unwrap();
    let mut form = CreateTransaction::default_on(date);
    form.ticker = "NVDA".to_string();
    form.transaction_type = TransactionType::Sell;
    form.currency = Currency::USD;
    let t = form.new_transaction(date, Decimal::parse("2").unwrap(), Decimal::parse("130.5").unwrap(), Decimal::parse("1").unwrap());
    assert_eq!(t.id, None);
    assert_eq!(t.ticker, "NVDA");
    assert_eq!(t.transaction_type, TransactionType::Sell);
    assert_eq!(t.currency, Currency::USD);
    assert_eq!(t.trade_date.to_string(), "2026-07-01");
    assert_eq!(t.quantity.to_string(), "2");
    assert_eq!(t.price.to_string(), "130.5");
    assert_eq!(t.fees.to_string(), "1");
}
