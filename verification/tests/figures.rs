use stonks_rs::calculate::{
    calc_cost_basis, calc_portfolio_value, calc_portfolio_weight, calc_shares, calc_total_return, calc_unrealized_gain_prec,
    checked_gross_dividends, checked_portfolio_weight, checked_total_return, quotes_match_portfolio, AssetQuote,
    CalcError,
};
use stonks_rs::date::Date;
use stonks_rs::decimal::Decimal;
use stonks_rs::service::{
    checked_get_market_value, checked_get_portfolio_value, checked_ticker_info, get_market_value, get_ticker_info,
    portfolio_tickers, TickerInfo, TickerQuote,
};
use stonks_rs::types::{Currency, Dividend, Transaction, TransactionType};

fn d(text: &str) -> Decimal {
    Decimal::parse(text).unwrap()
}

fn s(x: Decimal) -> String {
    x.to_string()
}

fn r(text: &str) -> rust_decimal::Decimal {
    rust_decimal::Decimal::from_str_exact(text).unwrap()
}

fn rd(x: Decimal) -> rust_decimal::Decimal {
    rust_decimal::Decimal::from_i128_with_scale(x.mantissa(), x.scale())
}

/// Average cost of AMD in the book, as the bookkeeping rule computes it.
fn amd_avg_cost() -> rust_decimal::Decimal {
    (r("0.0") + (r("10") * r("100") + r("1"))) / r("10")
}

fn tx(ticker: &str, kind: TransactionType, quantity: &str, price: &str, fees: &str) -> Transaction {
    Transaction {
        id: None,
        ticker: ticker.to_string(),
        transaction_type: kind,
        trade_date: Date::from_ymd_opt(2026, 6, 27).unwrap(),
        quantity: d(quantity),
        price: d(price),
        currency: Currency::EUR,
        fees: d(fees),
    }
}

fn book() -> Vec<Transaction> {
    vec![
        tx("AMD", TransactionType::Buy, "10", "100", "1"),
        tx("AMD", TransactionType::Sell, "5", "120", "2"),
        tx("AAPL", TransactionType::Buy, "2", "50", "0"),
    ]
}

#[test]
fn shares_and_cost() {
    let (bought, sold) = calc_shares(&book(), "AMD");
    assert_eq!((s(bought), s(sold)), ("10".to_string(), "5".to_string()));
    assert_eq!(s(calc_cost_basis(&book(), "AMD").unwrap()), "1001.00");
    let gain = r("110") * (r("10") - r("5")) - amd_avg_cost();
    let expected = gain / amd_avg_cost() * r("100");
    let perc = rd(calc_unrealized_gain_prec(&book(), "AMD", d("110")).unwrap());
    assert_eq!((perc.mantissa(), perc.scale()), (expected.mantissa(), expected.scale()));
    let (none_bought, _) = calc_shares(&book(), "MSFT");
    assert!(none_bought.is_zero());
}

#[test]
fn portfolio_value_converts_foreign_quotes() {
    let quotes = vec![
        AssetQuote { ticker: "AMD".to_string(), price: d("110"), currency: Currency::USD, exchange_rate: d("0.5") },
        AssetQuote { ticker: "AAPL".to_string(), price: d("60"), currency: Currency::EUR, exchange_rate: d("3") },
    ];
    assert_eq!(s(calc_portfolio_value(&book(), Some(Currency::EUR), &quotes).unwrap()), "395.0");
    assert_eq!(s(calc_portfolio_value(&book(), None, &quotes).unwrap()), "670");
    assert_eq!(s(checked_get_portfolio_value(&book(), Some(Currency::USD), &quotes).unwrap()), "910");
    let weight = rd(calc_portfolio_weight(&book(), "AAPL", d("60"), Currency::EUR, d("3"), &quotes).unwrap());
    let expected = r("60") * r("2") / r("395.0") * r("100");
    assert_eq!((weight.mantissa(), weight.scale()), (expected.mantissa(), expected.scale()));
    let amd = rd(checked_portfolio_weight(&book(), "AMD", d("110"), Currency::USD, d("0.5"), &quotes).unwrap());
    let expected_amd = r("110") * r("5") * r("0.5") / r("395.0") * r("100");
    assert_eq!((amd.mantissa(), amd.scale()), (expected_amd.mantissa(), expected_amd.scale()));
    let sum = amd + weight;
    assert!(sum > r("99.99") && sum < r("100.01"));
}

#[test]
fn weight_of_an_empty_portfolio_fails() {
    let closed = vec![tx("X", TransactionType::Buy, "1", "10", "0"), tx("X", TransactionType::Sell, "1", "12", "0")];
    let quotes = vec![AssetQuote { ticker: "X".to_string(), price: d("10"), currency: Currency::EUR, exchange_rate: d("1") }];
    assert!(quotes_match_portfolio(&closed, &quotes));
    assert!(matches!(
        checked_portfolio_weight(&closed, "X", d("10"), Currency::EUR, d("1"), &quotes),
        Err(CalcError::Overflow)
    ));
}

#[test]
fn quotes_must_name_each_ticker_once() {
    let q = |t: &str| AssetQuote { ticker: t.to_string(), price: d("1"), currency: Currency::EUR, exchange_rate: d("1") };
    assert!(quotes_match_portfolio(&book(), &[q("AMD"), q("AAPL")]));
    assert!(!quotes_match_portfolio(&book(), &[q("AAPL"), q("AMD")]));
    assert!(!quotes_match_portfolio(&book(), &[q("AMD"), q("AAPL"), q("AMD")]));
    assert!(!quotes_match_portfolio(&book(), &[q("AMD")]));
    assert!(quotes_match_portfolio(&[], &[]));
}

#[test]
fn market_value_in_target_currency() {
    assert_eq!(s(get_market_value(&book(), "AMD", d("110"), Some(d("0.5"))).unwrap()), "275.0");
    assert_eq!(s(get_market_value(&book(), "AMD", d("110"), None).unwrap()), "550");
    let huge = Decimal::from_parts(79228162514264337593543950335, 0).unwrap();
    assert!(matches!(checked_get_market_value(&book(), "AMD", huge, None), Err(CalcError::Overflow)));
}

#[test]
fn total_return_and_dividends() {
    let dividends = vec![Dividend {
        id: None,
        ticker: "AMD".to_string(),
        payment_date: Date::from_ymd_opt(2026, 3, 1).unwrap(),
        amount: d("10"),
        taxes: d("2"),
        currency: Currency::EUR,
    }];
    let unrealized = r("110") * (r("10") - r("5")) - amd_avg_cost();
    let realized = (r("0") + r("0") + (r("5") * r("120") - r("2"))) - amd_avg_cost() * r("5");
    let expected = unrealized + realized + (r("0") + (r("10") - r("2")));
    let total = rd(calc_total_return(&book(), &dividends, "AMD", d("110")).unwrap());
    assert_eq!((total.mantissa(), total.scale()), (expected.mantissa(), expected.scale()));
    assert_eq!(total.to_string(), "555.40");
    assert_eq!(rd(checked_total_return(&book(), &dividends, "AMD", d("110")).unwrap()), expected);
    assert_eq!(s(checked_gross_dividends(&dividends, "AMD").unwrap()), "10");
}

#[test]
fn tickers_once_each() {
    let t = portfolio_tickers(&book());
    assert_eq!(t, vec!["AMD".to_string(), "AAPL".to_string()]);
    assert!(portfolio_tickers(&[]).is_empty());
}

#[test]
fn ticker_info_in_two_steps() {
    let book = book();
    match get_ticker_info("AMD".to_string(), &book, None) {
        TickerInfo::NeedsQuote => {}
        TickerInfo::Ready(_) => panic!("shares are held, a quote is needed"),
    }
    let quote = TickerQuote {
        current_price: d("110"),
        name: "Advanced Micro Devices".to_string(),
        todays_change: d("1.5"),
        exchange_rate: Some(d("2")),
    };
    match get_ticker_info("AMD".to_string(), &book, Some(quote)) {
        TickerInfo::Ready(data) => {
            assert_eq!(data.ticker, "AMD");
            assert_eq!(data.name, "Advanced Micro Devices");
            assert_eq!(s(data.total_shares), "5");
            assert_eq!(s(data.current_price), "220");
            assert_eq!(s(data.market_value), "1100");
            assert_eq!(rd(data.avg_cost), amd_avg_cost() * r("2"));
            assert_eq!(rd(data.avg_cost).to_string(), "200.20");
            assert_eq!(rd(data.cost_basis), r("2002"));
            assert_eq!(rd(data.unrealized_gain), r("899.8"));
            assert_eq!(rd(data.realized_gain), r("195"));
            assert_eq!(s(data.todays_change), "1.5");
        }
        TickerInfo::NeedsQuote => panic!("a quote was given"),
    }
    let closed = vec![tx("X", TransactionType::Buy, "1", "10", "0"), tx("X", TransactionType::Sell, "1", "12", "0")];
    match checked_ticker_info("X".to_string(), &closed, None) {
        Ok(TickerInfo::Ready(data)) => {
            assert!(data.total_shares.is_zero());
            assert_eq!(data.ticker, "");
            assert!(data.market_value.is_zero());
        }
        _ => panic!("no shares are held"),
    }
    let quote = TickerQuote {
        current_price: d("110"),
        name: "Advanced Micro Devices".to_string(),
        todays_change: d("-2"),
        exchange_rate: None,
    };
    match checked_ticker_info("AMD".to_string(), &book, Some(quote)) {
        Ok(TickerInfo::Ready(data)) => {
            assert_eq!(data.ticker, "AMD");
            assert_eq!(s(data.market_value), "550");
            assert_eq!(s(data.todays_change), "-2");
            assert_eq!(rd(data.unrealized_gain), r("550") - amd_avg_cost());
        }
        _ => panic!("a quote was given"),
    }
    assert!(matches!(checked_ticker_info("AMD".to_string(), &book, None), Ok(TickerInfo::NeedsQuote)));
}
