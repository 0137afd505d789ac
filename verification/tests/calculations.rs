use std::str::FromStr;

use stonks_rs::calculate::{
    calc_avg_cost, calc_gross_dividends, calc_market_value, calc_net_dividends, calc_realized_gains,
    calc_sale_value, calc_unrealized_gain,
};
use stonks_rs::date::Date;
use stonks_rs::decimal::Decimal;
use stonks_rs::types::{Currency, Dividend, Transaction, TransactionType};

fn d(text: &str) -> Decimal {
    Decimal::parse(text).unwrap()
}

fn rd(x: Decimal) -> rust_decimal::Decimal {
    rust_decimal::Decimal::from_i128_with_scale(x.mantissa(), x.scale())
}

fn lit(text: &str) -> rust_decimal::Decimal {
    rust_decimal::Decimal::from_str(text).unwrap()
}

fn tx(kind: TransactionType, y: i32, m: u32, day: u32, quantity: &str, price: &str, fees: &str) -> Transaction {
    Transaction {
        id: None,
        ticker: "AMD".to_string(),
        transaction_type: kind,
        trade_date: Date::from_ymd_opt(y, m, day).unwrap(),
        quantity: d(quantity),
        price: d(price),
        currency: Currency::EUR,
        fees: d(fees),
    }
}

fn two_buys() -> Vec<Transaction> {
    vec![
        tx(TransactionType::Buy, 2026, 6, 27, "0.09937081", "45.97", "0.07"),
        tx(TransactionType::Buy, 2026, 7, 1, "0.02882124", "14.53", "0.02"),
    ]
}

fn current_price() -> Decimal {
    d("500")
}

#[test]
fn cost_price() {
    let transactions = two_buys();
    let cost_price = calc_avg_cost(&transactions, "AMD");
    assert_eq!(rd(cost_price).round_dp(2), lit("39.60"));
}

#[test]
fn calculations_cost_price() {
    let transactions = two_buys();
    let cost_price = calc_avg_cost(&transactions, "AMD");
    assert_eq!(rd(cost_price).round_dp(2), lit("39.60"));
}

#[test]
fn unrealized_gain() {
    let transactions = two_buys();
    let unrealized_gain = calc_unrealized_gain(&transactions, "AMD", current_price()).unwrap();
    assert_eq!(rd(unrealized_gain).round_dp(2), lit("24.49"));
}

#[test]
fn realized_gain() {
    let transactions = vec![
        tx(TransactionType::Buy, 2026, 6, 27, "10", "100", "1"),
        tx(TransactionType::Sell, 2026, 7, 1, "5", "120", "2"),
    ];
    let realized_gain = calc_realized_gains(&transactions, "AMD").unwrap();
    assert_eq!(rd(realized_gain).round_dp(2), lit("97.50"));
}

#[test]
fn dividends() {
    let dividends = vec![
        Dividend {
            id: None,
            ticker: "AMD".to_string(),
            payment_date: Date::from_ymd_opt(2026, 3, 1).unwrap(),
            amount: d("10"),
            taxes: d("2"),
            currency: Currency::EUR,
        },
        Dividend {
            id: None,
            ticker: "AMD".to_string(),
            payment_date: Date::from_ymd_opt(2026, 6, 1).unwrap(),
            amount: d("15"),
            taxes: d("3"),
            currency: Currency::EUR,
        },
    ];
    let gross = calc_gross_dividends(&dividends, "AMD");
    let net = calc_net_dividends(&dividends, "AMD");
    assert_eq!(rd(gross), lit("25"));
    assert_eq!(rd(net), lit("20"));
}

#[test]
fn sale_value() {
    let transactions = two_buys();
    let sale_value = calc_sale_value(&transactions, "AMD").unwrap();
    assert_eq!(rd(sale_value), lit("0"));
}

#[test]
fn market_value() {
    let transactions = two_buys();
    let result = calc_market_value(&transactions, "AMD", current_price()).unwrap();
    assert_eq!(rd(result).round_dp(2), lit("64.1"));
}
