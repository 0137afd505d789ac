use stonks_rs::app::{AppState, Settings};
use stonks_rs::date::Date;
use stonks_rs::decimal::Decimal;
use stonks_rs::pages::dashboard::{top_performers, worst_performers};
use stonks_rs::pages::overview::overview_rows;
use stonks_rs::pages::transactions::{
    filter_transactions, get_transaction_type_count, is_currently_focused, table_transactions, InputFocus, TransactionTypeFilter,
};
use stonks_rs::ticker_map::TickerInfoMap;
use stonks_rs::types::{Currency, TickerData, TimeFrame, Transaction, TransactionType};

fn day(y: i32, m: u32, d: u32) -> Date {
    Date::from_ymd_opt(y, m, d).unwrap()
}

fn tx(id: i64, ticker: &str, kind: TransactionType, date: Date) -> Transaction {
    Transaction {
        id: Some(id),
        ticker: ticker.to_string(),
        transaction_type: kind,
        trade_date: date,
        quantity: Decimal::parse("1").unwrap(),
        price: Decimal::parse("100").unwrap(),
        currency: Currency::EUR,
        fees: Decimal::parse("0").unwrap(),
    }
}

fn sample() -> Vec<Transaction> {
    vec![
        tx(1, "AMD", TransactionType::Buy, day(2026, 6, 20)),
        tx(2, "AAPL", TransactionType::Buy, day(2026, 7, 5)),
        tx(3, "amd", TransactionType::Sell, day(2026, 7, 1)),
        tx(4, "VWCE", TransactionType::Buy, day(2025, 1, 1)),
        tx(5, "AMD", TransactionType::Buy, day(2026, 7, 5)),
    ]
}

fn ids(v: &[Transaction]) -> Vec<i64> {
    v.iter().map(|t| t.id.unwrap()).collect()
}

#[test]
fn counts_buys_and_sells() {
    assert_eq!(get_transaction_type_count(&sample()), (4, 1));
    assert_eq!(get_transaction_type_count(&[]), (0, 0));
}

#[test]
fn table_is_newest_first_and_filtered() {
    let mut app = AppState::new(sample(), Settings::default(), day(2026, 7, 10));
    app.transaction_page.filters.period = TimeFrame::Max;
    assert_eq!(ids(&table_transactions(&app, day(2026, 7, 10))), vec![5, 2, 3, 1, 4]);
    app.transaction_page.filters.period = TimeFrame::OneMonth;
    assert_eq!(ids(&table_transactions(&app, day(2026, 7, 10))), vec![5, 2, 3, 1]);
    app.transaction_page.filters.period = TimeFrame::OneWeek;
    assert_eq!(ids(&table_transactions(&app, day(2026, 7, 10))), vec![5, 2]);
    app.transaction_page.filters.period = TimeFrame::YearToDate;
    app.transaction_page.filters.ticker = "Am".to_string();
    assert_eq!(ids(&table_transactions(&app, day(2026, 7, 10))), vec![5, 3, 1]);
    app.transaction_page.filters.transaction_type = TransactionTypeFilter::Sell;
    assert_eq!(ids(&table_transactions(&app, day(2026, 7, 10))), vec![3]);
}

#[test]
fn filter_keeps_order() {
    let mut app = AppState::new(Vec::new(), Settings::default(), day(2026, 7, 10));
    app.transaction_page.filters.transaction_type = TransactionTypeFilter::Buy;
    app.transaction_page.filters.period = TimeFrame::Max;
    let mut v = sample();
    filter_transactions(&app, &mut v, day(2026, 7, 10));
    assert_eq!(ids(&v), vec![1, 2, 4, 5]);
}

#[test]
fn focus_check() {
    assert!(is_currently_focused(Some(&InputFocus::Ticker), InputFocus::Ticker));
    assert!(!is_currently_focused(Some(&InputFocus::Table), InputFocus::Ticker));
    assert!(!is_currently_focused(None, InputFocus::Ticker));
    assert_eq!(TransactionTypeFilter::Sell.to_string(), "Sell");
    assert_eq!(InputFocus::from_repr(3), Some(InputFocus::Table));
    assert_eq!(InputFocus::from_repr(4), None);
}

fn figures(ticker: &str, gain: &str, change: &str) -> TickerData {
    let mut d = TickerData::default();
    d.ticker = ticker.to_string();
    d.name = ticker.to_string();
    d.total_shares = Decimal::parse("1").unwrap();
    d.unrealized_gain = Decimal::parse(gain).unwrap();
    d.todays_change = Decimal::parse(change).unwrap();
    d
}

fn names(v: &[TickerData]) -> Vec<String> {
    v.iter().map(|d| d.ticker.clone()).collect()
}

#[test]
fn overview_is_largest_gain_first() {
    let mut map = TickerInfoMap::new();
    map.insert("A".to_string(), figures("A", "10.5", "0"));
    map.insert("B".to_string(), figures("B", "-3", "0"));
    map.insert("C".to_string(), figures("C", "10.50", "0"));
    map.insert("D".to_string(), figures("D", "100", "0"));
    assert_eq!(names(&overview_rows(&map)), vec!["D", "C", "A", "B"]);
    assert!(overview_rows(&TickerInfoMap::new()).is_empty());
}

#[test]
fn performers_of_the_day() {
    let assets = vec![
        figures("A", "0", "-5"),
        figures("B", "0", "2"),
        figures("C", "0", "0"),
        figures("D", "0", "-1"),
        figures("E", "0", "4"),
        figures("F", "0", "-2"),
        figures("G", "0", "1"),
        figures("H", "0", "3"),
    ];
    assert_eq!(names(&worst_performers(&assets)), vec!["A", "C", "D"]);
    assert_eq!(names(&top_performers(&assets)), vec!["H", "G", "E"]);
    assert!(worst_performers(&[]).is_empty());
    assert_eq!(names(&top_performers(&assets[..2])), vec!["B"]);
}

#[test]
fn ticker_map_keeps_one_entry_per_ticker() {
    let mut map = TickerInfoMap::new();
    map.insert("A".to_string(), figures("A", "1", "0"));
    map.insert("B".to_string(), figures("B", "2", "0"));
    map.insert("A".to_string(), figures("A", "3", "0"));
    assert_eq!(map.len(), 2);
    assert_eq!(map.get(&"A".to_string()).unwrap().unrealized_gain.to_string(), "3");
    map.remove(&"A".to_string());
    map.remove(&"Z".to_string());
    assert_eq!(map.len(), 1);
    assert!(map.get(&"A".to_string()).is_none());
    assert_eq!(map.entries()[0].0, "B");
}

#[test]
fn ticker_filter_finds_a_run_anywhere() {
    let mut app = AppState::new(sample(), Settings::default(), day(2026, 7, 10));
    app.transaction_page.filters.period = TimeFrame::Max;
    app.transaction_page.filters.ticker = "pl".to_string();
    assert_eq!(ids(&table_transactions(&app, day(2026, 7, 10))), vec![2]);
    app.transaction_page.filters.ticker = "wce".to_string();
    assert_eq!(ids(&table_transactions(&app, day(2026, 7, 10))), vec![4]);
    app.transaction_page.filters.ticker = "vwcex".to_string();
    assert!(table_transactions(&app, day(2026, 7, 10)).is_empty());
    app.transaction_page.filters.ticker = "ap".to_string();
    assert_eq!(ids(&table_transactions(&app, day(2026, 7, 10))), vec![2]);
}
