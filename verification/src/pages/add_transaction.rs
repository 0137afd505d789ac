//! The page on which a new transaction is entered.
use vstd::prelude::*;
use crate::app::AppState;
use crate::date::{naive_date_format, Date};
use crate::decimal::Decimal;
use crate::text;
use crate::types::{Currency, CycleEnum, Transaction, TransactionType};

verus! {

/// The fields of the page, in order.
#[derive(Debug, Clone, Copy, PartialEq, Eq, Structural)]
pub enum InputFocus {
    Ticker,
    TransactionType,
    TradeDate,
    Quantity,
    Price,
    Currency,
    Fees,
    Taxes,
}

impl CycleEnum for InputFocus {
    open spec fn position(self) -> nat {
        match self {
            InputFocus::Ticker => 0nat,
            InputFocus::TransactionType => 1nat,
            InputFocus::TradeDate => 2nat,
            InputFocus::Quantity => 3nat,
            InputFocus::Price => 4nat,
            InputFocus::Currency => 5nat,
            InputFocus::Fees => 6nat,
            InputFocus::Taxes => 7nat,
        }
    }

    open spec fn count() -> nat {
        8nat
    }

    open spec fn at(p: nat) -> Self {
        if p == 0 {
            InputFocus::Ticker
        } else         if p == 1 {
            InputFocus::TransactionType
        } else         if p == 2 {
            InputFocus::TradeDate
        } else         if p == 3 {
            InputFocus::Quantity
        } else         if p == 4 {
            InputFocus::Price
        } else         if p == 5 {
            InputFocus::Currency
        } else         if p == 6 {
            InputFocus::Fees
        } else {
            InputFocus::Taxes
        }
    }

    proof fn lemma_count_positive() {
    }

    proof fn lemma_position_in_range(self) {
    }

    proof fn lemma_at_position(self) {
    }

    proof fn lemma_position_at(p: nat) {
    }

    fn next(self) -> (r: Self) {
        match self {
            InputFocus::Ticker => InputFocus::TransactionType,
            InputFocus::TransactionType => InputFocus::TradeDate,
            InputFocus::TradeDate => InputFocus::Quantity,
            InputFocus::Quantity => InputFocus::Price,
            InputFocus::Price => InputFocus::Currency,
            InputFocus::Currency => InputFocus::Fees,
            InputFocus::Fees => InputFocus::Taxes,
            InputFocus::Taxes => InputFocus::Ticker,
        }
    }

    fn previous(self) -> (r: Self) {
        match self {
            InputFocus::Ticker => InputFocus::Taxes,
            InputFocus::TransactionType => InputFocus::Ticker,
            InputFocus::TradeDate => InputFocus::TransactionType,
            InputFocus::Quantity => InputFocus::TradeDate,
            InputFocus::Price => InputFocus::Quantity,
            InputFocus::Currency => InputFocus::Price,
            InputFocus::Fees => InputFocus::Currency,
            InputFocus::Taxes => InputFocus::Fees,
        }
    }
}

impl InputFocus {
    /// The variant at position `index` in declaration order, if there is one.
    pub fn from_repr(index: usize) -> (r: Option<Self>)
        ensures
            index < 8 ==> r == Some(<InputFocus as CycleEnum>::at(index as nat)),
            index >= 8 ==> r is None,
    {
        if index == 0 {
            Some(InputFocus::Ticker)
        } else         if index == 1 {
            Some(InputFocus::TransactionType)
        } else         if index == 2 {
            Some(InputFocus::TradeDate)
        } else         if index == 3 {
            Some(InputFocus::Quantity)
        } else         if index == 4 {
            Some(InputFocus::Price)
        } else         if index == 5 {
            Some(InputFocus::Currency)
        } else         if index == 6 {
            Some(InputFocus::Fees)
        } else         if index == 7 {
            Some(InputFocus::Taxes)
        } else {
            None
        }
    }
}

impl Default for InputFocus {
    fn default() -> (r: Self)
        ensures
            r == InputFocus::Ticker,
    {
        InputFocus::Ticker
    }
}

/// The fields of a transaction as they are being entered.
#[derive(Debug, Clone)]
pub struct CreateTransaction {
    pub ticker: String,
    pub transaction_type: TransactionType,
    /// The trade date, written `YYYY-MM-DD`.
    pub trade_date_input: String,
    pub quantity: String,
    pub price: String,
    pub fees: String,
    pub taxes: String,
    pub currency: Currency,
}

impl CreateTransaction {
    /// The empty form on the given day: a buy in EUR, dated that day, with
    /// fees and taxes `0`.
    pub open spec fn is_empty_form(self, today: Date) -> bool {
        &&& self.ticker@ == Seq::<char>::empty()
        &&& self.transaction_type == TransactionType::Buy
        &&& self.trade_date_input@ == naive_date_format(today.days_from_ce)
        &&& self.quantity@ == Seq::<char>::empty()
        &&& self.price@ == Seq::<char>::empty()
        &&& self.fees@ == "0"@
        &&& self.taxes@ == "0"@
        &&& self.currency == Currency::EUR
    }

    /// The empty form on the given day.
    pub fn default_on(today: Date) -> (r: CreateTransaction)
        requires
            today.wf(),
        ensures
            r.is_empty_form(today),
    {
        CreateTransaction {
            ticker: String::new(),
            transaction_type: TransactionType::Buy,
            trade_date_input: today.to_string(),
            quantity: String::new(),
            price: String::new(),
            fees: text::owned("0"),
            taxes: text::owned("0"),
            currency: Currency::EUR,
        }
    }

    /// `t` is the transaction that the form describes with the given trade
    /// date and numbers: the form's ticker, type and currency, and no id yet.
    pub open spec fn describes(self, t: Transaction, trade_date: Date, quantity: Decimal, price: Decimal, fees: Decimal) -> bool {
        &&& t.id is None
        &&& t.ticker@ == self.ticker@
        &&& t.transaction_type == self.transaction_type
        &&& t.trade_date == trade_date
        &&& t.quantity == quantity
        &&& t.price == price
        &&& t.currency == self.currency
        &&& t.fees == fees
    }

    /// The transaction that the form describes with the given trade date and
    /// numbers (read from its fields by the caller).
    pub fn new_transaction(&self, trade_date: Date, quantity: Decimal, price: Decimal, fees: Decimal) -> (r: Transaction)
        ensures
            self.describes(r, trade_date, quantity, price, fees),
    {
        Transaction {
            id: None,
            ticker: self.ticker.clone(),
            transaction_type: self.transaction_type,
            trade_date,
            quantity,
            price,
            currency: self.currency,
            fees,
        }
    }
}

/// Whether the focused field (if any) is `check`.
pub fn is_currently_focused(current: Option<&InputFocus>, check: InputFocus) -> (r: bool)
    ensures
        r == (current matches Some(f) && *f == check),
{
    if let Some(focus) = current {
        return *focus == check;
    }
    false
}

/// The text of a text field of the form; `None` for the two selectors.
pub open spec fn field_text(form: CreateTransaction, field: InputFocus) -> Option<Seq<char>> {
    match field {
        InputFocus::Ticker => Some(form.ticker@),
        InputFocus::TradeDate => Some(form.trade_date_input@),
        InputFocus::Quantity => Some(form.quantity@),
        InputFocus::Price => Some(form.price@),
        InputFocus::Fees => Some(form.fees@),
        InputFocus::Taxes => Some(form.taxes@),
        InputFocus::TransactionType | InputFocus::Currency => None,
    }
}

/// The two forms differ at most in the text of `field`.
pub open spec fn same_but(a: CreateTransaction, b: CreateTransaction, field: InputFocus) -> bool {
    &&& (field != InputFocus::Ticker ==> a.ticker == b.ticker)
    &&& (field != InputFocus::TradeDate ==> a.trade_date_input == b.trade_date_input)
    &&& (field != InputFocus::Quantity ==> a.quantity == b.quantity)
    &&& (field != InputFocus::Price ==> a.price == b.price)
    &&& (field != InputFocus::Fees ==> a.fees == b.fees)
    &&& (field != InputFocus::Taxes ==> a.taxes == b.taxes)
    &&& a.transaction_type == b.transaction_type
    &&& a.currency == b.currency
}

/// Appends the character to the focused text field of the form.
pub fn handle_input_char(app: &mut AppState, field: InputFocus, c: char)
    ensures
        *final(app) == (AppState { create_transaction: final(app).create_transaction, ..*old(app) }),
        same_but(final(app).create_transaction, old(app).create_transaction, field),
        match field_text(old(app).create_transaction, field) {
            Some(t) => field_text(final(app).create_transaction, field) == Some(t.push(c)),
            None => final(app).create_transaction == old(app).create_transaction,
        },
{
    match field {
        InputFocus::Ticker => text::push_char(&mut app.create_transaction.ticker, c),
        InputFocus::TradeDate => text::push_char(&mut app.create_transaction.trade_date_input, c),
        InputFocus::Quantity => text::push_char(&mut app.create_transaction.quantity, c),
        InputFocus::Price => text::push_char(&mut app.create_transaction.price, c),
        InputFocus::Fees => text::push_char(&mut app.create_transaction.fees, c),
        InputFocus::Taxes => text::push_char(&mut app.create_transaction.taxes, c),
        InputFocus::TransactionType | InputFocus::Currency => {},
    }
}

/// Removes the last character of the focused text field of the form.
pub fn handle_input_backspace(app: &mut AppState, field: InputFocus)
    ensures
        *final(app) == (AppState { create_transaction: final(app).create_transaction, ..*old(app) }),
        same_but(final(app).create_transaction, old(app).create_transaction, field),
        match field_text(old(app).create_transaction, field) {
            Some(t) => field_text(final(app).create_transaction, field) == Some(if t.len() == 0 { t } else { t.drop_last() }),
            None => final(app).create_transaction == old(app).create_transaction,
        },
{
    match field {
        InputFocus::Ticker => {
            let _ = text::pop_char(&mut app.create_transaction.ticker);
        },
        InputFocus::TradeDate => {
            let _ = text::pop_char(&mut app.create_transaction.trade_date_input);
        },
        InputFocus::Quantity => {
            let _ = text::pop_char(&mut app.create_transaction.quantity);
        },
        InputFocus::Price => {
            let _ = text::pop_char(&mut app.create_transaction.price);
        },
        InputFocus::Fees => {
            let _ = text::pop_char(&mut app.create_transaction.fees);
        },
        InputFocus::Taxes => {
            let _ = text::pop_char(&mut app.create_transaction.taxes);
        },
        InputFocus::TransactionType | InputFocus::Currency => {},
    }
}

/// Tab on a selector of the form: the next value is computed and dropped,
/// so the form stays as it is.
pub fn handle_selector_tab(app: &mut AppState, field: InputFocus)
    ensures
        *final(app) == *old(app),
{
    match field {
        InputFocus::TransactionType => {
            let _ = app.create_transaction.transaction_type.next();
        },
        InputFocus::Currency => {
            let _ = app.create_transaction.currency.next();
        },
        _ => {},
    }
}

} // verus!
