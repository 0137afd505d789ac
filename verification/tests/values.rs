use std::str::FromStr;

use chrono::Datelike;

use stonks_rs::date::{Date, MAX_DAYS, MIN_DAYS};
use stonks_rs::decimal::Decimal;
use stonks_rs::listing::{currency_from_sql, listing_db_path};
use stonks_rs::service::exchange_pair_symbol;
use stonks_rs::types::{Currency, CurrencyError, CycleEnum, SqlTextError, TimeFrame, TransactionType};

fn d(text: &str) -> Decimal {
    Decimal::parse(text).unwrap()
}

#[test]
fn date_bounds_match_chrono() {
    assert_eq!(chrono::NaiveDate::MIN.num_days_from_ce(), MIN_DAYS);
    assert_eq!(chrono::NaiveDate::MAX.num_days_from_ce(), MAX_DAYS);
}

#[test]
fn date_from_parts_and_text() {
    let date = Date::from_ymd_opt(2026, 6, 27).unwrap();
    assert_eq!(date.to_string(), "2026-06-27");
    assert_eq!(date.year(), 2026);
    assert_eq!(Date::parse("2026-06-27").unwrap().days_from_ce, date.days_from_ce);
    assert!(Date::from_ymd_opt(2026, 2, 30).is_none());
    assert!(Date::parse("27.06.2026").is_none());
    assert_eq!(date.minus_days(30).to_string(), "2026-05-28");
    assert_eq!(Date::from_days(date.days_from_ce).unwrap().to_string(), "2026-06-27");
}

#[test]
fn decimal_arithmetic() {
    assert_eq!(d("1.5").checked_add(d("2.25")).unwrap().to_string(), "3.75");
    assert_eq!(d("1.5").checked_sub(d("2.25")).unwrap().to_string(), "-0.75");
    assert_eq!(d("1.5").checked_mul(d("2")).unwrap().to_string(), "3.0");
    assert_eq!(d("1").checked_div(d("4")).unwrap().to_string(), "0.25");
    assert!(d("1").checked_div(d("0")).is_none());
    let big = Decimal::from_parts(79228162514264337593543950335, 0).unwrap();
    assert!(big.checked_mul(d("2")).is_none());
    assert!(Decimal::from_parts(1, 29).is_none());
    assert!(Decimal::parse("abc").is_none());
}

#[test]
fn decimal_comparison_ignores_scale() {
    assert!(d("1.50").at_most(&d("1.5")));
    assert!(d("1.5").at_most(&d("1.50")));
    assert!(d("-2").at_most(&d("1")));
    assert!(!d("2.01").at_most(&d("2")));
    assert!(d("2").is_positive() && d("-2").is_negative() && d("0.00").is_zero());
}

#[test]
fn time_frame_labels_and_cycle() {
    assert_eq!(TimeFrame::OneDay.to_string(), "1d");
    assert_eq!(TimeFrame::OneMonth.to_string(), "1mo");
    assert_eq!(TimeFrame::YearToDate.to_string(), "ytd");
    assert_eq!(TimeFrame::Max.to_string(), "max");
    assert_eq!(TimeFrame::default(), TimeFrame::OneMonth);
    assert_eq!(TimeFrame::Max.next(), TimeFrame::OneMinute);
    assert_eq!(TimeFrame::OneMinute.previous(), TimeFrame::Max);
    assert_eq!(TimeFrame::OneMonth.cycle(), TimeFrame::ThreeMonth);
}

#[test]
fn full_cycle_returns_to_start() {
    let mut t = TimeFrame::OneWeek;
    for _ in 0..11 {
        t = t.next();
    }
    assert_eq!(t, TimeFrame::OneWeek);
    for start in [Currency::EUR, Currency::USD] {
        assert_eq!(start.next().previous(), start);
        assert_eq!(start.previous().next(), start);
    }
    assert_eq!(TransactionType::Buy.next(), TransactionType::Sell);
    assert_eq!(TransactionType::Sell.next(), TransactionType::Buy);
}

#[test]
fn currency_texts() {
    assert_eq!(Currency::EUR.to_string(), "EUR");
    assert_eq!(Currency::USD.to_sql(), "usd");
    assert_eq!(Currency::try_from("eur".to_string()).unwrap(), Currency::EUR);
    assert_eq!(Currency::try_from("Usd".to_string()).unwrap(), Currency::USD);
    match Currency::try_from("CHF".to_string()) {
        Err(CurrencyError::Unknown(v)) => assert_eq!(v, "CHF"),
        Ok(_) => panic!("CHF is no known currency"),
    }
    assert_eq!(Currency::column_result("EUR").unwrap(), Currency::EUR);
    assert_eq!(Currency::column_result("usd").unwrap(), Currency::USD);
    assert_eq!(Currency::column_result("yen"), Err(SqlTextError::UnknownCurrency));
    for c in [Currency::EUR, Currency::USD] {
        assert_eq!(Currency::try_from(c.to_string()).unwrap(), c);
        assert_eq!(Currency::column_result(&c.to_sql()).unwrap(), c);
    }
}

#[test]
fn transaction_type_texts() {
    assert_eq!(TransactionType::Buy.to_string(), "Buy");
    assert_eq!(TransactionType::Sell.to_sql(), "sell");
    assert_eq!(TransactionType::column_result("buy").unwrap(), TransactionType::Buy);
    assert_eq!(TransactionType::column_result("Buy"), Err(SqlTextError::UnknownTransactionType));
    for t in [TransactionType::Buy, TransactionType::Sell] {
        assert_eq!(TransactionType::column_result(&t.to_sql()).unwrap(), t);
    }
}

#[test]
fn exchange_pair() {
    assert_eq!(exchange_pair_symbol(Currency::EUR, Currency::USD), "EURUSD=X");
    assert_eq!(exchange_pair_symbol(Currency::USD, Currency::EUR), "USDEUR=X");
}

#[test]
fn listing_texts() {
    assert_eq!(listing_db_path("/home/a/.stonks-rs/"), "/home/a/.stonks-rs/stonks-rs.db");
    assert_eq!(currency_from_sql("usd"), Some(Currency::USD));
    assert_eq!(currency_from_sql("eur"), Some(Currency::EUR));
    assert_eq!(currency_from_sql("EUR"), None);
}

#[test]
fn decimal_text_round_trip() {
    for text in ["0.09937081", "45.97", "-12.500", "0"] {
        let x = d(text);
        assert_eq!(x.to_string(), text);
        let r = rust_decimal::Decimal::from_str(text).unwrap();
        assert_eq!((x.mantissa(), x.scale()), (r.mantissa(), r.scale()));
    }
}

#[test]
fn exchange_rate_only_for_other_currencies() {
    assert!(stonks_rs::calculate::needs_exchange_rate(Some(Currency::EUR), Currency::USD));
    assert!(!stonks_rs::calculate::needs_exchange_rate(Some(Currency::EUR), Currency::EUR));
    assert!(!stonks_rs::calculate::needs_exchange_rate(None, Currency::USD));
}
