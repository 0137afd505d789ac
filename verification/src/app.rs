//! The state of the application and the changes that user actions and
//! background updates make to it.
use vstd::prelude::*;
use crate::date::Date;
use crate::database::{load_all_transactions_from_db, spec_transactions_from_rows, spec_transaction_from_row, DbError, SqlValue};
use crate::decimal::Decimal;
use crate::focus::{next_focus, previous_focus, CurrentFocus};
use crate::helpers::{add_transaction_to_list, ListError};
use crate::pages::add_transaction::{self, CreateTransaction};
use crate::pages::transactions::{self, TransactionPage, TransactionTypeFilter};
use crate::pages::{OverviewState, Page, PageState, TableSelection, TransactionState};
use crate::service::portfolio_tickers;
use crate::ticker_map::TickerInfoMap;
use crate::types::{next_position, previous_position, Currency, CycleEnum, TickerData, TimeFrame, Transaction, TransactionType};
use crate::update::{UpdateMessage, UpdateRequest};

verus! {

/// What the application is doing besides showing a page.
#[derive(Debug, Clone, Copy, PartialEq, Eq, Structural)]
pub enum Action {
    Idle,
    _Edit(u64),
    _Delete(u64),
    Hotkeys,
}

impl Default for Action {
    fn default() -> (r: Self)
        ensures
            r == Action::Idle,
    {
        Action::Idle
    }
}

/// Settings of the application itself.
#[derive(Debug, Clone)]
pub struct AppConfig {
    /// Name of the colour theme; `None` for the built-in one.
    pub theme: Option<String>,
}

/// Defaults of the portfolio views.
#[derive(Debug, Clone, Copy)]
pub struct DefaultConfig {
    /// Currency in which values are shown.
    pub currency: Currency,
    /// Seconds between refreshes of the market data; 30 where unset.
    pub refresh_rate: Option<u64>,
}

/// The settings read from the configuration file.
#[derive(Debug, Clone)]
pub struct Settings {
    pub app: AppConfig,
    pub default: DefaultConfig,
}

impl Default for Settings {
    fn default() -> (r: Self)
        ensures
            r.app.theme is None,
            r.default.currency == Currency::EUR,
            r.default.refresh_rate is None,
    {
        Settings {
            app: AppConfig { theme: None },
            default: DefaultConfig { currency: Currency::EUR, refresh_rate: None },
        }
    }
}

/// Market figures of the portfolio.
#[derive(Debug, Clone)]
pub struct Portfolio {
    /// Value of the whole portfolio, once it is known.
    pub value: Option<Decimal>,
    /// Figures of each position, by ticker.
    pub ticker_info: TickerInfoMap,
}

/// The state of the application.
#[derive(Debug)]
pub struct AppState {
    pub transactions: Vec<Transaction>,
    pub settings: Settings,
    pub should_quit: bool,
    pub current_page: Page,
    pub page_state: PageState,
    pub current_action: Action,
    /// The last error reported by a background update.
    pub error: String,
    pub transaction_page: TransactionPage,
    pub current_page_focused: bool,
    pub input_mode: bool,
    pub focused_field: CurrentFocus,
    pub create_transaction: CreateTransaction,
    pub portfolio: Portfolio,
}

/// The page state kept on entering the overview page.
pub open spec fn fresh_overview() -> PageState {
    PageState::Overview(OverviewState { overview_table: TableSelection { offset: 0, selected: None } })
}

/// The page state kept on entering the transactions page.
pub open spec fn fresh_transaction_state() -> PageState {
    PageState::Transaction(TransactionState { transaction_table: TableSelection { offset: 0, selected: None } })
}

/// The filters of the transactions page are reset.
pub open spec fn is_fresh_transaction_page(p: TransactionPage) -> bool {
    &&& p.filters.period == TimeFrame::OneMonth
    &&& p.filters.transaction_type == TransactionTypeFilter::All
    &&& p.filters.ticker@ == Seq::<char>::empty()
}

/// Only the fields of `b` that the change names differ from `a`'s.
pub open spec fn same_except_pages(a: AppState, b: AppState) -> bool {
    b == AppState {
        current_page: b.current_page,
        page_state: b.page_state,
        current_action: b.current_action,
        transaction_page: b.transaction_page,
        ..a
    }
}

/// Paging forward: dashboard, overview, transactions, dividends and round
/// again; any other page goes to the dashboard. The action is reset; the
/// overview and transactions pages get fresh state, and leaving the
/// transactions page resets its filters.
pub open spec fn next_page_rel(a: AppState, b: AppState) -> bool {
    &&& same_except_pages(a, b)
    &&& b.current_action == Action::Idle
    &&& match a.current_page {
        Page::Dashboard => b.current_page == Page::Overview && b.page_state == fresh_overview()
            && b.transaction_page == a.transaction_page,
        Page::Overview => b.current_page == Page::Transactions && b.page_state == fresh_transaction_state()
            && b.transaction_page == a.transaction_page,
        Page::Transactions => b.current_page == Page::Dividends && b.page_state == a.page_state
            && is_fresh_transaction_page(b.transaction_page),
        _ => b.current_page == Page::Dashboard && b.page_state == a.page_state
            && b.transaction_page == a.transaction_page,
    }
}

/// Paging back: dashboard, dividends, transactions, overview and round
/// again; any other page goes to the dashboard. The action is reset; leaving
/// the transactions page resets its filters and enters the overview with
/// fresh state, and the transactions page is entered with fresh state.
pub open spec fn previous_page_rel(a: AppState, b: AppState) -> bool {
    &&& same_except_pages(a, b)
    &&& b.current_action == Action::Idle
    &&& match a.current_page {
        Page::Dashboard => b.current_page == Page::Dividends && b.page_state == a.page_state
            && b.transaction_page == a.transaction_page,
        Page::Overview => b.current_page == Page::Dashboard && b.page_state == a.page_state
            && b.transaction_page == a.transaction_page,
        Page::Transactions => b.current_page == Page::Overview && b.page_state == fresh_overview()
            && is_fresh_transaction_page(b.transaction_page),
        Page::Dividends => b.current_page == Page::Transactions && b.page_state == fresh_transaction_state()
            && b.transaction_page == a.transaction_page,
        _ => b.current_page == Page::Dashboard && b.page_state == a.page_state
            && b.transaction_page == a.transaction_page,
    }
}

/// The pages whose fields can take the focus.
pub open spec fn focusable(p: Page) -> bool {
    p == Page::Transactions || p == Page::AddTransaction
}

/// Focusing the page: its first field takes the focus.
pub open spec fn focus_page_rel(a: AppState, b: AppState) -> bool {
    &&& b == AppState { focused_field: b.focused_field, current_page_focused: true, ..a }
    &&& a.current_page == Page::Transactions ==> b.focused_field == CurrentFocus::TransactionPage(transactions::InputFocus::Period)
    &&& a.current_page == Page::AddTransaction ==> b.focused_field == CurrentFocus::AddTransaction(add_transaction::InputFocus::Ticker)
}

/// Choosing field `number` (counted from 1) of the focused page; nothing
/// happens where the page is not focused or has no such field.
pub open spec fn layout_focus_rel(a: AppState, b: AppState, number: Option<usize>) -> bool {
    if a.current_page_focused && number is Some {
        let n = number.unwrap();
        if a.current_page == Page::Transactions && 1 <= n <= transactions::InputFocus::count() {
            b == AppState { focused_field: CurrentFocus::TransactionPage(transactions::InputFocus::at((n - 1) as nat)), ..a }
        } else if a.current_page == Page::AddTransaction && 1 <= n <= add_transaction::InputFocus::count() {
            b == AppState { focused_field: CurrentFocus::AddTransaction(add_transaction::InputFocus::at((n - 1) as nat)), ..a }
        } else {
            b == a
        }
    } else {
        b == a
    }
}

/// Typing a character into the focused text field of a page.
pub open spec fn input_char_rel(a: AppState, b: AppState, c: char) -> bool {
    match a.focused_field {
        CurrentFocus::AddTransaction(f) => {
            &&& b == AppState { create_transaction: b.create_transaction, ..a }
            &&& add_transaction::same_but(b.create_transaction, a.create_transaction, f)
            &&& match add_transaction::field_text(a.create_transaction, f) {
                Some(t) => add_transaction::field_text(b.create_transaction, f) == Some(t.push(c)),
                None => b.create_transaction == a.create_transaction,
            }
        },
        CurrentFocus::TransactionPage(f) => if f == transactions::InputFocus::Ticker {
            &&& b.transaction_page.filters.ticker@ == a.transaction_page.filters.ticker@.push(c)
            &&& b == AppState { transaction_page: TransactionPage { filters: transactions::TransactionFilters { ticker: b.transaction_page.filters.ticker, ..a.transaction_page.filters } }, ..a }
        } else {
            b == a
        },
        CurrentFocus::Unfocused => b == a,
    }
}

/// The text with its last character removed (empty text stays empty).
pub open spec fn backspaced(t: Seq<char>) -> Seq<char> {
    if t.len() == 0 { t } else { t.drop_last() }
}

/// Deleting the last character of the focused text field of a page.
pub open spec fn input_backspace_rel(a: AppState, b: AppState) -> bool {
    match a.focused_field {
        CurrentFocus::AddTransaction(f) => {
            &&& b == AppState { create_transaction: b.create_transaction, ..a }
            &&& add_transaction::same_but(b.create_transaction, a.create_transaction, f)
            &&& match add_transaction::field_text(a.create_transaction, f) {
                Some(t) => add_transaction::field_text(b.create_transaction, f) == Some(backspaced(t)),
                None => b.create_transaction == a.create_transaction,
            }
        },
        CurrentFocus::TransactionPage(f) => if f == transactions::InputFocus::Ticker {
            &&& b.transaction_page.filters.ticker@ == backspaced(a.transaction_page.filters.ticker@)
            &&& b == AppState { transaction_page: TransactionPage { filters: transactions::TransactionFilters { ticker: b.transaction_page.filters.ticker, ..a.transaction_page.filters } }, ..a }
        } else {
            b == a
        },
        CurrentFocus::Unfocused => b == a,
    }
}

/// Tab (forward) or shift-tab (backward): in input mode the focused selector
/// steps to its next (previous) value; otherwise the focus moves to the next
/// (previous) field of the page.
pub open spec fn tab_rel(a: AppState, b: AppState, forward: bool) -> bool {
    if a.input_mode {
        match a.focused_field {
            CurrentFocus::TransactionPage(transactions::InputFocus::TransactionType) => {
                let v = a.transaction_page.filters.transaction_type;
                let p = if forward { next_position(v.position(), 3) } else { previous_position(v.position(), 3) };
                b == AppState { transaction_page: TransactionPage { filters: transactions::TransactionFilters {
                    transaction_type: TransactionTypeFilter::at(p), ..a.transaction_page.filters } }, ..a }
            },
            CurrentFocus::TransactionPage(transactions::InputFocus::Period) => {
                let v = a.transaction_page.filters.period;
                let p = if forward { next_position(v.position(), 11) } else { previous_position(v.position(), 11) };
                b == AppState { transaction_page: TransactionPage { filters: transactions::TransactionFilters {
                    period: TimeFrame::at(p), ..a.transaction_page.filters } }, ..a }
            },
            CurrentFocus::AddTransaction(add_transaction::InputFocus::TransactionType) => {
                let v = a.create_transaction.transaction_type;
                let p = if forward { next_position(v.position(), 2) } else { previous_position(v.position(), 2) };
                b == AppState { create_transaction: CreateTransaction { transaction_type: TransactionType::at(p), ..a.create_transaction }, ..a }
            },
            CurrentFocus::AddTransaction(add_transaction::InputFocus::Currency) => {
                let v = a.create_transaction.currency;
                let p = if forward { next_position(v.position(), 2) } else { previous_position(v.position(), 2) };
                b == AppState { create_transaction: CreateTransaction { currency: Currency::at(p), ..a.create_transaction }, ..a }
            },
            _ => b == a,
        }
    } else {
        b == AppState { focused_field: if forward { next_focus(a.focused_field) } else { previous_focus(a.focused_field) }, ..a }
    }
}

/// The four pages that one pages through.
pub open spec fn main_page(p: Page) -> bool {
    p == Page::Dashboard || p == Page::Overview || p == Page::Transactions || p == Page::Dividends
}

/// Paging back after paging forward, or forward after back, returns to the
/// page one started on, where that is one of the four main pages.
pub proof fn lemma_page_round_trip(a: AppState, b: AppState, c: AppState)
    requires
        main_page(a.current_page),
    ensures
        next_page_rel(a, b) && previous_page_rel(b, c) ==> c.current_page == a.current_page,
        previous_page_rel(a, b) && next_page_rel(b, c) ==> c.current_page == a.current_page,
{
}

/// Paging forward four times from one of the main pages visits the other
/// three and returns to it.
pub proof fn lemma_four_pages_cycle(s: Seq<AppState>)
    requires
        s.len() == 5,
        main_page(s[0].current_page),
        forall|i: int| 0 <= i < 4 ==> next_page_rel(#[trigger] s[i], s[i + 1]),
    ensures
        s[4].current_page == s[0].current_page,
        forall|i: int, j: int| 0 <= i < j < 4 ==> (#[trigger] s[i]).current_page != (#[trigger] s[j]).current_page,
{
    assert(next_page_rel(s[0], s[1]));
    assert(next_page_rel(s[1], s[2]));
    assert(next_page_rel(s[2], s[3]));
    assert(next_page_rel(s[3], s[4]));
}

/// The state holds valid transactions and a well-formed map of figures.
pub open spec fn state_wf(s: AppState) -> bool {
    &&& forall|i: int| 0 <= i < s.transactions@.len() ==> (#[trigger] s.transactions@[i]).wf()
    &&& s.portfolio.ticker_info.wf()
    &&& figures_wf(s.portfolio.ticker_info@)
}

/// Every ticker's figures hold valid numbers.
pub open spec fn figures_wf(m: Map<Seq<char>, TickerData>) -> bool {
    forall|k: Seq<char>| m.contains_key(k) ==> (#[trigger] m[k]).wf()
}

/// Every message's figures hold valid numbers.
pub open spec fn messages_wf(msgs: Seq<UpdateMessage>) -> bool {
    forall|i: int| 0 <= i < msgs.len() ==> match #[trigger] msgs[i] {
        UpdateMessage::Ticker { data, .. } => data.wf(),
        _ => true,
    }
}

/// Ticker messages with valid figures keep every ticker's figures valid.
pub proof fn lemma_apply_tickers_wf(msgs: Seq<UpdateMessage>, m: Map<Seq<char>, TickerData>)
    requires
        figures_wf(m),
        messages_wf(msgs),
    ensures
        figures_wf(apply_tickers(msgs, m)),
    decreases msgs.len(),
{
    if msgs.len() > 0 {
        let rest = msgs.drop_last();
        assert forall|i: int| 0 <= i < rest.len() implies match #[trigger] rest[i] {
            UpdateMessage::Ticker { data, .. } => data.wf(),
            _ => true,
        } by {
            assert(rest[i] == msgs[i]);
        }
        lemma_apply_tickers_wf(rest, m);
        assert(msgs.last() == msgs[msgs.len() - 1]);
    }
}

impl AppState {
    /// The state on start: the dashboard, nothing focused, the empty form
    /// dated `today`, no market figures yet.
    pub fn new(transactions: Vec<Transaction>, settings: Settings, today: Date) -> (r: AppState)
        requires
            today.wf(),
        ensures
            r.transactions@ == transactions@,
            r.settings.default == settings.default,
            r.settings.app.theme == settings.app.theme,
            !r.should_quit,
            r.current_page == Page::Dashboard,
            r.page_state == PageState::Blank,
            r.current_action == Action::Idle,
            r.error@ == Seq::<char>::empty(),
            is_fresh_transaction_page(r.transaction_page),
            !r.current_page_focused,
            !r.input_mode,
            r.focused_field == CurrentFocus::Unfocused,
            r.create_transaction.is_empty_form(today),
            r.portfolio.value is None,
            r.portfolio.ticker_info.wf(),
            r.portfolio.ticker_info@ == Map::<Seq<char>, TickerData>::empty(),
            (forall|i: int| 0 <= i < transactions@.len() ==> (#[trigger] transactions@[i]).wf()) ==> state_wf(r),
    {
        AppState {
            transactions,
            settings,
            should_quit: false,
            current_page: Page::Dashboard,
            page_state: PageState::Blank,
            current_action: Action::Idle,
            error: String::new(),
            transaction_page: TransactionPage::default(),
            current_page_focused: false,
            input_mode: false,
            focused_field: CurrentFocus::Unfocused,
            create_transaction: CreateTransaction::default_on(today),
            portfolio: Portfolio { value: None, ticker_info: TickerInfoMap::new() },
        }
    }

    /// Sets `should_quit` to quit the application.
    pub fn quit(&mut self)
        ensures
            state_wf(*old(self)) ==> state_wf(*final(self)),
            *final(self) == (AppState { should_quit: true, ..*old(self) }),
    {
        self.should_quit = true;
    }

    /// Shows the next page.
    pub fn next_page(&mut self)
        ensures
            state_wf(*old(self)) ==> state_wf(*final(self)),
            next_page_rel(*old(self), *final(self)),
    {
        self.current_action = Action::default();
        self.current_page = match self.current_page {
            Page::Dashboard => {
                self.page_state = PageState::Overview(OverviewState::default());
                Page::Overview
            },
            Page::Overview => {
                self.page_state = PageState::Transaction(TransactionState::default());
                Page::Transactions
            },
            Page::Transactions => {
                self.transaction_page = TransactionPage::default();
                Page::Dividends
            },
            Page::Dividends => Page::Dashboard,
            _ => Page::Dashboard,
        }
    }

    /// Shows the previous page.
    pub fn previous_page(&mut self)
        ensures
            state_wf(*old(self)) ==> state_wf(*final(self)),
            previous_page_rel(*old(self), *final(self)),
    {
        self.current_action = Action::default();
        self.current_page = match self.current_page {
            Page::Dashboard => Page::Dividends,
            Page::Overview => Page::Dashboard,
            Page::Transactions => {
                self.transaction_page = TransactionPage::default();
                self.page_state = PageState::Overview(OverviewState::default());
                Page::Overview
            },
            Page::Dividends => {
                self.page_state = PageState::Transaction(TransactionState::default());
                Page::Transactions
            },
            _ => Page::Dashboard,
        }
    }

    /// Opens the settings over the current page.
    pub fn open_settings(&mut self)
        ensures
            state_wf(*old(self)) ==> state_wf(*final(self)),
            *final(self) == (AppState { current_page: Page::Settings(Box::new(old(self).current_page)), ..*old(self) }),
    {
        let current = self.current_page.copy();
        self.current_page = Page::Settings(Box::new(current));
    }

    /// Shows the hotkeys.
    pub fn toggle_hotkeys(&mut self)
        ensures
            state_wf(*old(self)) ==> state_wf(*final(self)),
            *final(self) == (AppState { current_action: Action::Hotkeys, ..*old(self) }),
    {
        self.current_action = Action::Hotkeys;
    }

    /// Opens the form for a new transaction, focused on its first field.
    pub fn add_transaction(&mut self)
        ensures
            state_wf(*old(self)) ==> state_wf(*final(self)),
            *final(self) == (AppState {
                current_page: Page::AddTransaction,
                focused_field: CurrentFocus::AddTransaction(add_transaction::InputFocus::Ticker),
                current_page_focused: true,
                ..*old(self)
            }),
    {
        self.current_page = Page::AddTransaction;
        self.focused_field = CurrentFocus::AddTransaction(add_transaction::InputFocus::default());
        self.current_page_focused = true;
    }

    /// Stores the transaction of the form, with the given trade date and
    /// numbers read from it, appends it to the list, and goes back to the
    /// transactions page with an empty form dated `today`. The result is
    /// that of storing the transaction.
    pub fn save_new_transaction(
        &mut self,
        conn: &rusqlite::Connection,
        trade_date: Date,
        quantity: Decimal,
        price: Decimal,
        fees: Decimal,
        today: Date,
    ) -> (r: Result<(), ListError>)
        requires
            trade_date.wf(),
            quantity.wf(),
            price.wf(),
            fees.wf(),
            today.wf(),
        ensures
            state_wf(*old(self)) ==> state_wf(*final(self)),
            *final(self) == (AppState {
                transactions: final(self).transactions,
                current_page: Page::Transactions,
                focused_field: CurrentFocus::Unfocused,
                create_transaction: final(self).create_transaction,
                ..*old(self)
            }),
            final(self).create_transaction.is_empty_form(today),
            r is Ok ==> final(self).transactions@.len() == old(self).transactions@.len() + 1
                && final(self).transactions@.drop_last() == old(self).transactions@
                && final(self).transactions@.last().wf()
                && exists|row: Seq<SqlValue>| spec_transaction_from_row(row) == Some(final(self).transactions@.last()),
            r is Err ==> final(self).transactions@ == old(self).transactions@,
    {
        let new_tx = self.create_transaction.new_transaction(trade_date, quantity, price, fees);
        let result = add_transaction_to_list(conn, &mut self.transactions, new_tx);
        self.current_page = Page::Transactions;
        self.focused_field = CurrentFocus::Unfocused;
        self.create_transaction = CreateTransaction::default_on(today);
        proof {
            if state_wf(*old(self)) && result is Ok {
                let v = self.transactions@;
                assert forall|i: int| 0 <= i < v.len() implies (#[trigger] v[i]).wf() by {
                    if i < v.len() - 1 {
                        assert(v[i] == v.drop_last()[i]);
                    }
                }
            }
        }
        result
    }

    /// Focuses the current page: its first field takes the focus.
    pub fn focus_page(&mut self)
        requires
            focusable(old(self).current_page),
        ensures
            state_wf(*old(self)) ==> state_wf(*final(self)),
            focus_page_rel(*old(self), *final(self)),
    {
        self.focused_field = match &self.current_page {
            Page::Transactions => CurrentFocus::TransactionPage(transactions::InputFocus::default()),
            _ => CurrentFocus::AddTransaction(add_transaction::InputFocus::default()),
        };
        self.current_page_focused = true;
    }

    /// Leaves the focused page.
    pub fn unfocus_page(&mut self)
        ensures
            state_wf(*old(self)) ==> state_wf(*final(self)),
            *final(self) == (AppState { current_page_focused: false, ..*old(self) }),
    {
        self.current_page_focused = false;
    }

    /// Gives the focus to field `number` (counted from 1) of the focused page.
    pub fn handle_layout_focus(&mut self, number: Option<usize>)
        requires
            !(old(self).current_page_focused && number == Some(0usize) && focusable(old(self).current_page)),
        ensures
            state_wf(*old(self)) ==> state_wf(*final(self)),
            layout_focus_rel(*old(self), *final(self), number),
    {
        if !self.current_page_focused {
            return;
        }
        let number = match number {
            Some(n) => n,
            None => return,
        };
        match self.current_page {
            Page::Transactions => {
                let field = match transactions::InputFocus::from_repr(number - 1) {
                    Some(f) => f,
                    None => return,
                };
                self.focused_field = CurrentFocus::TransactionPage(field);
            },
            Page::AddTransaction => {
                let field = match add_transaction::InputFocus::from_repr(number - 1) {
                    Some(f) => f,
                    None => return,
                };
                self.focused_field = CurrentFocus::AddTransaction(field);
            },
            _ => {},
        }
    }

    /// Types a character into the focused text field.
    pub fn input_char(&mut self, c: char)
        ensures
            state_wf(*old(self)) ==> state_wf(*final(self)),
            input_char_rel(*old(self), *final(self), c),
    {
        match self.focused_field {
            CurrentFocus::AddTransaction(field) => add_transaction::handle_input_char(self, field, c),
            CurrentFocus::TransactionPage(field) => transactions::handle_input_char(self, field, c),
            _ => {},
        }
    }

    /// Deletes the last character of the focused text field.
    pub fn input_backspace(&mut self)
        ensures
            state_wf(*old(self)) ==> state_wf(*final(self)),
            input_backspace_rel(*old(self), *final(self)),
    {
        match self.focused_field {
            CurrentFocus::AddTransaction(field) => add_transaction::handle_input_backspace(self, field),
            CurrentFocus::TransactionPage(field) => transactions::handle_input_backspace(self, field),
            _ => {},
        }
    }

    /// Tab: steps the focused selector (in input mode) or the focus.
    pub fn handle_tab(&mut self)
        ensures
            state_wf(*old(self)) ==> state_wf(*final(self)),
            tab_rel(*old(self), *final(self), true),
    {
        if self.input_mode {
            match self.focused_field {
                CurrentFocus::TransactionPage(input_focus) => match input_focus {
                    transactions::InputFocus::TransactionType => {
                        self.transaction_page.filters.transaction_type = self.transaction_page.filters.transaction_type.next();
                    },
                    transactions::InputFocus::Period => {
                        self.transaction_page.filters.period = self.transaction_page.filters.period.next();
                    },
                    _ => {},
                },
                CurrentFocus::AddTransaction(input_focus) => match input_focus {
                    add_transaction::InputFocus::TransactionType => {
                        self.create_transaction.transaction_type = self.create_transaction.transaction_type.next();
                    },
                    add_transaction::InputFocus::Currency => {
                        self.create_transaction.currency = self.create_transaction.currency.next();
                    },
                    _ => {},
                },
                _ => {},
            }
            return;
        }
        self.focused_field = self.focused_field.next();
    }

    /// Shift-tab: steps the focused selector (in input mode) or the focus back.
    pub fn handle_shift_tab(&mut self)
        ensures
            state_wf(*old(self)) ==> state_wf(*final(self)),
            tab_rel(*old(self), *final(self), false),
    {
        if self.input_mode {
            match self.focused_field {
                CurrentFocus::TransactionPage(input_focus) => match input_focus {
                    transactions::InputFocus::TransactionType => {
                        self.transaction_page.filters.transaction_type = self.transaction_page.filters.transaction_type.previous();
                    },
                    transactions::InputFocus::Period => {
                        self.transaction_page.filters.period = self.transaction_page.filters.period.previous();
                    },
                    _ => {},
                },
                CurrentFocus::AddTransaction(input_focus) => match input_focus {
                    add_transaction::InputFocus::TransactionType => {
                        self.create_transaction.transaction_type = self.create_transaction.transaction_type.previous();
                    },
                    add_transaction::InputFocus::Currency => {
                        self.create_transaction.currency = self.create_transaction.currency.previous();
                    },
                    _ => {},
                },
                _ => {},
            }
            return;
        }
        self.focused_field = self.focused_field.previous();
    }

    /// The requests for fresh market figures: the portfolio value, then the
    /// figures of each ticker (each once, in the order of its first
    /// transaction), all in the default currency.
    pub fn request_updates(&self) -> (r: Vec<UpdateRequest>)
        ensures
            r.len() >= 1,
            r[0] matches UpdateRequest::PortfolioValue(tx, c) && tx@ == self.transactions@ && c == self.settings.default.currency,
            forall|i: int| 1 <= i < r.len() ==> ((#[trigger] r[i]) matches UpdateRequest::TickerData(_, tx, c)
                && tx@ == self.transactions@ && c == self.settings.default.currency),
            ({
                let tickers = Seq::new((r.len() - 1) as nat, |i: int| match r[i + 1] {
                    UpdateRequest::TickerData(t, _, _) => t@,
                    _ => Seq::<char>::empty(),
                });
                tickers == crate::service::first_occurrences(crate::service::tickers_of(self.transactions@))
                    && tickers.no_duplicates() && tickers.to_set() == crate::service::tickers_of(self.transactions@).to_set()
            }),
    {
        let tickers = portfolio_tickers(self.transactions.as_slice());
        let currency = self.settings.default.currency;
        let mut requests: Vec<UpdateRequest> = Vec::new();
        requests.push(UpdateRequest::PortfolioValue(copy_transactions(&self.transactions), currency));
        let mut i: usize = 0;
        while i < tickers.len()
            invariant
                i <= tickers.len(),
                requests.len() == i + 1,
                requests[0] matches UpdateRequest::PortfolioValue(tx, c) && tx@ == self.transactions@ && c == currency,
                currency == self.settings.default.currency,
                forall|j: int| 1 <= j < requests.len() ==> ((#[trigger] requests[j]) matches UpdateRequest::TickerData(t, tx, c)
                    && tx@ == self.transactions@ && c == currency && t@ == tickers[j - 1]@),
            decreases tickers.len() - i,
        {
            requests.push(UpdateRequest::TickerData(tickers[i].clone(), copy_transactions(&self.transactions), currency));
            i = i + 1;
        }
        proof {
            let ts = Seq::new((requests.len() - 1) as nat, |i: int| match requests[i + 1] {
                UpdateRequest::TickerData(t, _, _) => t@,
                _ => Seq::<char>::empty(),
            });
            assert(ts =~= crate::service::texts_of(tickers@));
        }
        requests
    }

    /// Applies the messages of the background updates, in order: a
    /// portfolio value is kept, an error text is kept, and a ticker's figures
    /// replace its entry, or remove it where no shares are held.
    pub fn process_updates(&mut self, messages: Vec<UpdateMessage>)
        requires
            old(self).portfolio.ticker_info.wf(),
        ensures
            state_wf(*old(self)) && messages_wf(messages@) ==> state_wf(*final(self)),
            final(self).portfolio.ticker_info.wf(),
            *final(self) == (AppState { portfolio: final(self).portfolio, error: final(self).error, ..*old(self) }),
            final(self).portfolio.value == last_value(messages@, old(self).portfolio.value),
            final(self).error@ == last_error(messages@, old(self).error@),
            final(self).portfolio.ticker_info@ == apply_tickers(messages@, old(self).portfolio.ticker_info@),
    {
        let ghost msgs = messages@;
        let mut i: usize = 0;
        let n = messages.len();
        let mut rest = messages;
        let ghost start = *self;
        while i < n
            invariant
                n == msgs.len(),
                rest@ == msgs,
                i <= n,
                self.portfolio.ticker_info.wf(),
                *self == (AppState { portfolio: self.portfolio, error: self.error, ..start }),
                self.portfolio.value == last_value(msgs.take(i as int), start.portfolio.value),
                self.error@ == last_error(msgs.take(i as int), start.error@),
                self.portfolio.ticker_info@ == apply_tickers(msgs.take(i as int), start.portfolio.ticker_info@),
            decreases n - i,
        {
            proof {
                assert(msgs.take(i + 1).drop_last() =~= msgs.take(i as int));
            }
            match &rest[i] {
                UpdateMessage::PortfolioValue(value) => {
                    self.portfolio.value = Some(*value);
                },
                UpdateMessage::Error(error) => {
                    self.error = error.clone();
                },
                UpdateMessage::Ticker { ticker, data } => {
                    if data.total_shares.is_zero() {
                        self.portfolio.ticker_info.remove(ticker);
                    } else {
                        self.portfolio.ticker_info.insert(ticker.clone(), data.copy());
                    }
                },
            }
            i = i + 1;
        }
        proof {
            assert(msgs.take(n as int) =~= msgs);
            if state_wf(start) && messages_wf(msgs) {
                lemma_apply_tickers_wf(msgs, start.portfolio.ticker_info@);
            }
        }
    }

    /// Seconds between refreshes of the market data.
    pub fn refresh_interval_secs(&self) -> (r: u64)
        ensures
            r == match self.settings.default.refresh_rate {
                Some(s) => s,
                None => 30,
            },
    {
        match self.settings.default.refresh_rate {
            Some(s) => s,
            None => 30,
        }
    }

    /// Whether fresh market figures are due, `elapsed_nanos` after the last
    /// request for them (`None`: none was made yet).
    pub fn refresh_due(&self, elapsed_nanos: Option<u128>) -> (r: bool)
        ensures
            r == match elapsed_nanos {
                Some(e) => e >= (match self.settings.default.refresh_rate {
                    Some(s) => s as int,
                    None => 30,
                }) * 1_000_000_000,
                None => true,
            },
    {
        match elapsed_nanos {
            Some(e) => {
                let secs = self.refresh_interval_secs() as u128;
                e >= secs * 1_000_000_000
            },
            None => true,
        }
    }

    /// Reads the transactions from the database again; where that fails, the
    /// list stays as it is and the error is returned.
    pub fn reload_transactions(&mut self, conn: &rusqlite::Connection) -> (r: Result<(), DbError>)
        ensures
            state_wf(*old(self)) ==> state_wf(*final(self)),
            *final(self) == (AppState { transactions: final(self).transactions, ..*old(self) }),
            r is Err ==> final(self).transactions@ == old(self).transactions@,
            r is Ok ==> forall|i: int| 0 <= i < final(self).transactions@.len() ==> (#[trigger] final(self).transactions@[i]).wf(),
            r is Ok ==> exists|rows: Seq<Seq<SqlValue>>| spec_transactions_from_rows(rows) == Some(final(self).transactions@),
    {
        match load_all_transactions_from_db(conn) {
            Ok(tx) => {
                self.transactions = tx;
                Ok(())
            },
            Err(e) => Err(e),
        }
    }
}

/// The last portfolio value among the messages, or `v` where there is none.
pub open spec fn last_value(msgs: Seq<UpdateMessage>, v: Option<Decimal>) -> Option<Decimal>
    decreases msgs.len(),
{
    if msgs.len() == 0 {
        v
    } else {
        match msgs.last() {
            UpdateMessage::PortfolioValue(x) => Some(x),
            _ => last_value(msgs.drop_last(), v),
        }
    }
}

/// The text of the last error among the messages, or `e` where there is none.
pub open spec fn last_error(msgs: Seq<UpdateMessage>, e: Seq<char>) -> Seq<char>
    decreases msgs.len(),
{
    if msgs.len() == 0 {
        e
    } else {
        match msgs.last() {
            UpdateMessage::Error(x) => x@,
            _ => last_error(msgs.drop_last(), e),
        }
    }
}

/// The figures by ticker after the ticker messages, in order: figures with
/// zero shares held remove the ticker's entry, others replace it.
pub open spec fn apply_tickers(msgs: Seq<UpdateMessage>, m: Map<Seq<char>, TickerData>) -> Map<Seq<char>, TickerData>
    decreases msgs.len(),
{
    if msgs.len() == 0 {
        m
    } else {
        let before = apply_tickers(msgs.drop_last(), m);
        match msgs.last() {
            UpdateMessage::Ticker { ticker, data } => if data.total_shares.mantissa == 0 {
                before.remove(ticker@)
            } else {
                before.insert(ticker@, data)
            },
            _ => before,
        }
    }
}

/// Applying two batches of messages one after the other has the effect of
/// applying them together, in order.
pub proof fn lemma_update_batches(
    first: Seq<UpdateMessage>,
    second: Seq<UpdateMessage>,
    v: Option<Decimal>,
    e: Seq<char>,
    m: Map<Seq<char>, TickerData>,
)
    ensures
        last_value(first + second, v) == last_value(second, last_value(first, v)),
        last_error(first + second, e) == last_error(second, last_error(first, e)),
        apply_tickers(first + second, m) == apply_tickers(second, apply_tickers(first, m)),
    decreases second.len(),
{
    if second.len() == 0 {
        assert(first + second =~= first);
    } else {
        assert((first + second).drop_last() =~= first + second.drop_last());
        assert((first + second).last() == second.last());
        lemma_update_batches(first, second.drop_last(), v, e, m);
    }
}

/// A copy of the list of transactions.
pub fn copy_transactions(v: &Vec<Transaction>) -> (r: Vec<Transaction>)
    ensures
        r@ == v@,
{
    let mut r: Vec<Transaction> = Vec::new();
    let mut i: usize = 0;
    while i < v.len()
        invariant
            i <= v.len(),
            r@ == v@.take(i as int),
        decreases v.len() - i,
    {
        r.push(v[i].copy());
        proof {
            assert(r@ =~= v@.take(i + 1));
        }
        i = i + 1;
    }
    proof {
        assert(v@.take(v.len() as int) =~= v@);
    }
    r
}

} // verus!
