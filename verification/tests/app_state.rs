use stonks_rs::app::{Action, AppState, Settings};
use stonks_rs::date::Date;
use stonks_rs::decimal::Decimal;
use stonks_rs::focus::CurrentFocus;
use stonks_rs::pages::add_transaction::InputFocus as FormField;
use stonks_rs::pages::transactions::{InputFocus as PageField, TransactionTypeFilter};
use stonks_rs::pages::{Page, PageState};
use stonks_rs::types::{Currency, TickerData, TimeFrame, Transaction, TransactionType};
use stonks_rs::update::{key_would_fail, keyboard_update, KeyCode, KeyEvent, KeyOutcome, UpdateMessage, UpdateRequest};

fn today() -> Date {
    Date::from_ymd_opt(2026, 7, 10).unwrap()
}

fn tx(ticker: &str, kind: TransactionType) -> Transaction {
    Transaction {
        id: Some(1),
        ticker: ticker.to_string(),
        transaction_type: kind,
        trade_date: Date::from_ymd_opt(2026, 7, 1).unwrap(),
        quantity: Decimal::parse("2").unwrap(),
        price: Decimal::parse("10").unwrap(),
        currency: Currency::EUR,
        fees: Decimal::parse("0").unwrap(),
    }
}

fn state() -> AppState {
    AppState::new(vec![tx("AMD", TransactionType::Buy), tx("AAPL", TransactionType::Buy), tx("AMD", TransactionType::Sell)], Settings::default(), today())
}

fn key(c: char) -> KeyEvent {
    KeyEvent { code: KeyCode::Char(c), control: false }
}

fn press(app: &mut AppState, code: KeyCode) -> KeyOutcome {
    keyboard_update(app, KeyEvent { code, control: false })
}

#[test]
fn new_state_starts_on_dashboard() {
    let app = state();
    assert!(app.current_page.same_as(&Page::Dashboard));
    assert!(matches!(app.page_state, PageState::Blank));
    assert_eq!(app.focused_field, CurrentFocus::Unfocused);
    assert_eq!(app.create_transaction.trade_date_input, "2026-07-10");
    assert_eq!(app.create_transaction.fees, "0");
    assert_eq!(app.transaction_page.filters.period, TimeFrame::OneMonth);
    assert!(app.portfolio.value.is_none());
    assert_eq!(app.refresh_interval_secs(), 30);
}

#[test]
fn paging_cycles_through_four_pages() {
    let mut app = state();
    let expected = [Page::Overview, Page::Transactions, Page::Dividends, Page::Dashboard];
    for page in expected.iter() {
        app.next_page();
        assert!(app.current_page.same_as(page));
    }
    app.previous_page();
    assert!(app.current_page.same_as(&Page::Dividends));
    app.next_page();
    assert!(app.current_page.same_as(&Page::Dashboard));
    app.next_page();
    assert!(matches!(app.page_state, PageState::Overview(_)));
}

#[test]
fn leaving_transactions_resets_filters() {
    let mut app = state();
    app.next_page();
    app.next_page();
    app.transaction_page.filters.ticker = "amd".to_string();
    app.transaction_page.filters.transaction_type = TransactionTypeFilter::Sell;
    app.next_page();
    assert!(app.current_page.same_as(&Page::Dividends));
    assert_eq!(app.transaction_page.filters.ticker, "");
    assert_eq!(app.transaction_page.filters.transaction_type, TransactionTypeFilter::All);
}

#[test]
fn keys_move_between_pages_and_quit() {
    let mut app = state();
    assert_eq!(keyboard_update(&mut app, key('l')), KeyOutcome::Nothing);
    assert!(app.current_page.same_as(&Page::Overview));
    press(&mut app, KeyCode::Left);
    assert!(app.current_page.same_as(&Page::Dashboard));
    keyboard_update(&mut app, key('?'));
    assert_eq!(app.current_action, Action::Hotkeys);
    keyboard_update(&mut app, KeyEvent { code: KeyCode::Char(','), control: true });
    assert!(app.current_page.same_as(&Page::Settings(Box::new(Page::Dashboard))));
    keyboard_update(&mut app, key('c'));
    assert!(!app.should_quit);
    keyboard_update(&mut app, KeyEvent { code: KeyCode::Char('C'), control: true });
    assert!(app.should_quit);
}

#[test]
fn form_is_filled_by_keys() {
    let mut app = state();
    keyboard_update(&mut app, key('a'));
    assert!(app.current_page.same_as(&Page::AddTransaction));
    assert_eq!(app.focused_field, CurrentFocus::AddTransaction(FormField::Ticker));
    press(&mut app, KeyCode::Enter);
    assert!(app.input_mode);
    for c in "NVDA".chars() {
        keyboard_update(&mut app, key(c));
    }
    press(&mut app, KeyCode::Backspace);
    assert_eq!(app.create_transaction.ticker, "NVD");
    press(&mut app, KeyCode::Esc);
    assert!(!app.input_mode);
    keyboard_update(&mut app, key('2'));
    assert_eq!(app.focused_field, CurrentFocus::AddTransaction(FormField::TransactionType));
    press(&mut app, KeyCode::Enter);
    press(&mut app, KeyCode::Tab);
    assert_eq!(app.create_transaction.transaction_type, TransactionType::Sell);
    press(&mut app, KeyCode::Esc);
    assert_eq!(keyboard_update(&mut app, key('s')), KeyOutcome::SaveTransaction);
    assert_eq!(app.create_transaction.ticker, "NVD");
}

#[test]
fn focus_moves_round_the_fields() {
    let mut app = state();
    app.next_page();
    app.next_page();
    press(&mut app, KeyCode::Enter);
    assert!(app.current_page_focused);
    assert_eq!(app.focused_field, CurrentFocus::TransactionPage(PageField::Period));
    app.handle_shift_tab();
    assert_eq!(app.focused_field, CurrentFocus::TransactionPage(PageField::Table));
    app.handle_tab();
    assert_eq!(app.focused_field, CurrentFocus::TransactionPage(PageField::Period));
    keyboard_update(&mut app, key('3'));
    assert_eq!(app.focused_field, CurrentFocus::TransactionPage(PageField::Ticker));
    keyboard_update(&mut app, key('9'));
    assert_eq!(app.focused_field, CurrentFocus::TransactionPage(PageField::Ticker));
    press(&mut app, KeyCode::Esc);
    assert_eq!(app.focused_field, CurrentFocus::Unfocused);
    press(&mut app, KeyCode::Esc);
    assert!(!app.current_page_focused);
}

#[test]
fn selectors_step_in_input_mode() {
    let mut app = state();
    app.next_page();
    app.next_page();
    press(&mut app, KeyCode::Enter);
    press(&mut app, KeyCode::Enter);
    assert!(app.input_mode);
    app.handle_tab();
    assert_eq!(app.transaction_page.filters.period, TimeFrame::ThreeMonth);
    app.handle_shift_tab();
    app.handle_shift_tab();
    assert_eq!(app.transaction_page.filters.period, TimeFrame::OneWeek);
}

#[test]
fn failing_keys_are_told() {
    let mut app = state();
    assert!(key_would_fail(&app, KeyEvent { code: KeyCode::Enter, control: false }));
    app.next_page();
    app.next_page();
    assert!(!key_would_fail(&app, KeyEvent { code: KeyCode::Enter, control: false }));
    press(&mut app, KeyCode::Enter);
    assert!(key_would_fail(&app, key('0')));
    assert!(!key_would_fail(&app, key('1')));
}

#[test]
fn updates_are_requested_once_per_ticker() {
    let app = state();
    let requests = app.request_updates();
    assert_eq!(requests.len(), 3);
    match &requests[0] {
        UpdateRequest::PortfolioValue(t, c) => {
            assert_eq!(t.len(), 3);
            assert_eq!(*c, Currency::EUR);
        }
        _ => panic!("the portfolio value comes first"),
    }
    let tickers: Vec<String> = requests[1..]
        .iter()
        .map(|r| match r {
            UpdateRequest::TickerData(t, _, _) => t.clone(),
            _ => panic!("ticker requests follow"),
        })
        .collect();
    assert_eq!(tickers, vec!["AMD".to_string(), "AAPL".to_string()]);
}

fn data(ticker: &str, shares: &str) -> TickerData {
    let mut d = TickerData::default();
    d.ticker = ticker.to_string();
    d.total_shares = Decimal::parse(shares).unwrap();
    d
}

#[test]
fn messages_update_the_portfolio() {
    let mut app = state();
    app.process_updates(vec![
        UpdateMessage::PortfolioValue(Decimal::parse("10").unwrap()),
        UpdateMessage::Ticker { ticker: "AMD".to_string(), data: data("AMD", "2") },
        UpdateMessage::Error("offline".to_string()),
        UpdateMessage::PortfolioValue(Decimal::parse("12.5").unwrap()),
        UpdateMessage::Ticker { ticker: "AAPL".to_string(), data: data("AAPL", "1") },
    ]);
    assert_eq!(app.portfolio.value.unwrap().to_string(), "12.5");
    assert_eq!(app.error, "offline");
    assert_eq!(app.portfolio.ticker_info.len(), 2);
    app.process_updates(vec![UpdateMessage::Ticker { ticker: "AMD".to_string(), data: data("AMD", "0") }]);
    assert_eq!(app.portfolio.ticker_info.len(), 1);
    assert!(app.portfolio.ticker_info.get(&"AMD".to_string()).is_none());
    assert_eq!(app.portfolio.ticker_info.get(&"AAPL".to_string()).unwrap().total_shares.to_string(), "1");
}

#[test]
fn refresh_after_the_interval() {
    let mut app = state();
    assert!(app.refresh_due(None));
    assert!(!app.refresh_due(Some(29_999_999_999)));
    assert!(app.refresh_due(Some(30_000_000_000)));
    app.settings.default.refresh_rate = Some(5);
    assert_eq!(app.refresh_interval_secs(), 5);
    assert!(app.refresh_due(Some(5_000_000_000)));
    assert!(!app.refresh_due(Some(4_999_999_999)));
}

fn batch() -> (Vec<UpdateMessage>, Vec<UpdateMessage>) {
    (
        vec![
            UpdateMessage::Ticker { ticker: "AMD".to_string(), data: data("AMD", "2") },
            UpdateMessage::PortfolioValue(Decimal::parse("7").unwrap()),
        ],
        vec![
            UpdateMessage::Ticker { ticker: "AMD".to_string(), data: data("AMD", "0") },
            UpdateMessage::Error("late".to_string()),
        ],
    )
}

#[test]
fn batches_of_messages_add_up() {
    let (a, b) = batch();
    let mut one_by_one = state();
    one_by_one.process_updates(a);
    one_by_one.process_updates(b);
    let (a, b) = batch();
    let mut together = state();
    together.process_updates(a.into_iter().chain(b).collect());
    assert_eq!(one_by_one.portfolio.ticker_info.len(), together.portfolio.ticker_info.len());
    assert_eq!(together.portfolio.ticker_info.len(), 0);
    assert_eq!(one_by_one.portfolio.value.unwrap().to_string(), together.portfolio.value.unwrap().to_string());
    assert_eq!(one_by_one.error, together.error);
}

#[test]
fn ctrl_c_quits_while_typing() {
    let mut app = state();
    keyboard_update(&mut app, key('a'));
    press(&mut app, KeyCode::Enter);
    assert!(app.input_mode);
    keyboard_update(&mut app, key('N'));
    keyboard_update(&mut app, KeyEvent { code: KeyCode::Char('c'), control: true });
    assert!(app.should_quit);
    assert_eq!(app.create_transaction.ticker, "N");
    let mut other = state();
    keyboard_update(&mut other, key('a'));
    press(&mut other, KeyCode::Enter);
    keyboard_update(&mut other, key('c'));
    assert!(!other.should_quit);
    assert_eq!(other.create_transaction.ticker, "c");
}
