//! The portfolio's data: enumerations with their text forms, transactions,
//! dividends and per-ticker figures.
use vstd::prelude::*;
use crate::date::Date;
use crate::decimal::Decimal;
use crate::text;

verus! {

/// Position after `p` among `n` positions, wrapping round to the first.
pub open spec fn next_position(p: nat, n: nat) -> nat {
    if p + 1 < n {
        (p + 1) as nat
    } else {
        0
    }
}

/// Position before `p` among `n` positions, wrapping round to the last.
pub open spec fn previous_position(p: nat, n: nat) -> nat {
    if p == 0 {
        (n - 1) as nat
    } else {
        (p - 1) as nat
    }
}

/// An enumeration whose variants are stepped through in declaration order,
/// wrapping round at either end.
pub trait CycleEnum: Sized + Copy {
    /// Position of the variant in declaration order.
    spec fn position(self) -> nat;

    /// Number of variants.
    spec fn count() -> nat;

    /// The variant at position `p`.
    spec fn at(p: nat) -> Self;

    proof fn lemma_count_positive()
        ensures
            Self::count() > 0,
    ;

    proof fn lemma_position_in_range(self)
        ensures
            self.position() < Self::count(),
    ;

    proof fn lemma_at_position(self)
        ensures
            Self::at(self.position()) == self,
    ;

    proof fn lemma_position_at(p: nat)
        requires
            p < Self::count(),
        ensures
            Self::at(p).position() == p,
    ;

    /// The following variant; the last one is followed by the first.
    fn next(self) -> (r: Self)
        ensures
            r == Self::at(next_position(self.position(), Self::count())),
    ;

    /// The preceding variant; the first one is preceded by the last.
    fn previous(self) -> (r: Self)
        ensures
            r == Self::at(previous_position(self.position(), Self::count())),
    ;

    /// The following variant, wrapping round (the same step as `next`).
    fn cycle(self) -> (r: Self)
        ensures
            r == Self::at(next_position(self.position(), Self::count())),
    {
        self.next()
    }
}

/// Time span of a price chart or of a transaction filter.
#[derive(Debug, Clone, Copy, PartialEq, Eq, Structural)]
pub enum TimeFrame {
    OneMinute,
    OneHour,
    OneDay,
    OneWeek,
    OneMonth,
    ThreeMonth,
    SixMonth,
    YearToDate,
    OneYear,
    FiveYear,
    Max,
}

/// A currency in which prices and values are denominated.
#[derive(Debug, Clone, Copy, PartialEq, Eq, Structural)]
pub enum Currency {
    EUR,
    USD,
}

/// Whether a transaction bought or sold.
#[derive(Debug, Clone, Copy, PartialEq, Eq, Structural)]
pub enum TransactionType {
    Buy,
    Sell,
}

impl CycleEnum for TimeFrame {
    open spec fn position(self) -> nat {
        match self {
            TimeFrame::OneMinute => 0nat,
            TimeFrame::OneHour => 1nat,
            TimeFrame::OneDay => 2nat,
            TimeFrame::OneWeek => 3nat,
            TimeFrame::OneMonth => 4nat,
            TimeFrame::ThreeMonth => 5nat,
            TimeFrame::SixMonth => 6nat,
            TimeFrame::YearToDate => 7nat,
            TimeFrame::OneYear => 8nat,
            TimeFrame::FiveYear => 9nat,
            TimeFrame::Max => 10nat,
        }
    }

    open spec fn count() -> nat {
        11nat
    }

    open spec fn at(p: nat) -> Self {
        if p == 0 {
            TimeFrame::OneMinute
        } else         if p == 1 {
            TimeFrame::OneHour
        } else         if p == 2 {
            TimeFrame::OneDay
        } else         if p == 3 {
            TimeFrame::OneWeek
        } else         if p == 4 {
            TimeFrame::OneMonth
        } else         if p == 5 {
            TimeFrame::ThreeMonth
        } else         if p == 6 {
            TimeFrame::SixMonth
        } else         if p == 7 {
            TimeFrame::YearToDate
        } else         if p == 8 {
            TimeFrame::OneYear
        } else         if p == 9 {
            TimeFrame::FiveYear
        } else {
            TimeFrame::Max
        }
    }

    proof fn lemma_count_positive() {
    }

    proof fn lemma_position_in_range(self) {
    }

    proof fn lemma_at_position(self) {
    }

    proof fn lemma_position_at(p: nat) {
    }

    fn next(self) -> (r: Self) {
        match self {
            TimeFrame::OneMinute => TimeFrame::OneHour,
            TimeFrame::OneHour => TimeFrame::OneDay,
            TimeFrame::OneDay => TimeFrame::OneWeek,
            TimeFrame::OneWeek => TimeFrame::OneMonth,
            TimeFrame::OneMonth => TimeFrame::ThreeMonth,
            TimeFrame::ThreeMonth => TimeFrame::SixMonth,
            TimeFrame::SixMonth => TimeFrame::YearToDate,
            TimeFrame::YearToDate => TimeFrame::OneYear,
            TimeFrame::OneYear => TimeFrame::FiveYear,
            TimeFrame::FiveYear => TimeFrame::Max,
            TimeFrame::Max => TimeFrame::OneMinute,
        }
    }

    fn previous(self) -> (r: Self) {
        match self {
            TimeFrame::OneMinute => TimeFrame::Max,
            TimeFrame::OneHour => TimeFrame::OneMinute,
            TimeFrame::OneDay => TimeFrame::OneHour,
            TimeFrame::OneWeek => TimeFrame::OneDay,
            TimeFrame::OneMonth => TimeFrame::OneWeek,
            TimeFrame::ThreeMonth => TimeFrame::OneMonth,
            TimeFrame::SixMonth => TimeFrame::ThreeMonth,
            TimeFrame::YearToDate => TimeFrame::SixMonth,
            TimeFrame::OneYear => TimeFrame::YearToDate,
            TimeFrame::FiveYear => TimeFrame::OneYear,
            TimeFrame::Max => TimeFrame::FiveYear,
        }
    }
}

impl Default for TimeFrame {
    fn default() -> (r: Self)
        ensures
            r == TimeFrame::OneMonth,
    {
        TimeFrame::OneMonth
    }
}

impl CycleEnum for Currency {
    open spec fn position(self) -> nat {
        match self {
            Currency::EUR => 0nat,
            Currency::USD => 1nat,
        }
    }

    open spec fn count() -> nat {
        2nat
    }

    open spec fn at(p: nat) -> Self {
        if p == 0 {
            Currency::EUR
        } else {
            Currency::USD
        }
    }

    proof fn lemma_count_positive() {
    }

    proof fn lemma_position_in_range(self) {
    }

    proof fn lemma_at_position(self) {
    }

    proof fn lemma_position_at(p: nat) {
    }

    fn next(self) -> (r: Self) {
        match self {
            Currency::EUR => Currency::USD,
            Currency::USD => Currency::EUR,
        }
    }

    fn previous(self) -> (r: Self) {
        match self {
            Currency::EUR => Currency::USD,
            Currency::USD => Currency::EUR,
        }
    }
}

impl Default for Currency {
    fn default() -> (r: Self)
        ensures
            r == Currency::EUR,
    {
        Currency::EUR
    }
}

impl CycleEnum for TransactionType {
    open spec fn position(self) -> nat {
        match self {
            TransactionType::Buy => 0nat,
            TransactionType::Sell => 1nat,
        }
    }

    open spec fn count() -> nat {
        2nat
    }

    open spec fn at(p: nat) -> Self {
        if p == 0 {
            TransactionType::Buy
        } else {
            TransactionType::Sell
        }
    }

    proof fn lemma_count_positive() {
    }

    proof fn lemma_position_in_range(self) {
    }

    proof fn lemma_at_position(self) {
    }

    proof fn lemma_position_at(p: nat) {
    }

    fn next(self) -> (r: Self) {
        match self {
            TransactionType::Buy => TransactionType::Sell,
            TransactionType::Sell => TransactionType::Buy,
        }
    }

    fn previous(self) -> (r: Self) {
        match self {
            TransactionType::Buy => TransactionType::Sell,
            TransactionType::Sell => TransactionType::Buy,
        }
    }
}

impl Default for TransactionType {
    fn default() -> (r: Self)
        ensures
            r == TransactionType::Buy,
    {
        TransactionType::Buy
    }
}

/// The variant reached from `x` by `k` steps forward.
pub open spec fn steps_forward<T: CycleEnum>(x: T, k: nat) -> T
    decreases k,
{
    if k == 0 {
        x
    } else {
        let y = steps_forward(x, (k - 1) as nat);
        T::at(next_position(y.position(), T::count()))
    }
}

/// Stepping back after stepping forward returns to the variant one started from.
pub proof fn lemma_previous_after_next<T: CycleEnum>(x: T)
    ensures
        T::at(previous_position(T::at(next_position(x.position(), T::count())).position(), T::count())) == x,
{
    T::lemma_count_positive();
    x.lemma_position_in_range();
    T::lemma_position_at(next_position(x.position(), T::count()));
    x.lemma_at_position();
}

/// Stepping forward after stepping back returns to the variant one started from.
pub proof fn lemma_next_after_previous<T: CycleEnum>(x: T)
    ensures
        T::at(next_position(T::at(previous_position(x.position(), T::count())).position(), T::count())) == x,
{
    T::lemma_count_positive();
    x.lemma_position_in_range();
    T::lemma_position_at(previous_position(x.position(), T::count()));
    x.lemma_at_position();
}

proof fn lemma_steps_forward_position<T: CycleEnum>(x: T, k: nat)
    requires
        k <= T::count(),
    ensures
        steps_forward(x, k).position() == (if x.position() + k < T::count() {
            (x.position() + k) as int
        } else {
            x.position() + k - T::count()
        }),
    decreases k,
{
    T::lemma_count_positive();
    x.lemma_position_in_range();
    if k > 0 {
        lemma_steps_forward_position(x, (k - 1) as nat);
        let y = steps_forward(x, (k - 1) as nat);
        y.lemma_position_in_range();
        T::lemma_position_at(next_position(y.position(), T::count()));
    }
}

/// Stepping forward once per variant cycles through all of them and returns to
/// the variant one started from.
pub proof fn lemma_full_cycle<T: CycleEnum>(x: T)
    ensures
        steps_forward(x, T::count()) == x,
{
    T::lemma_count_positive();
    lemma_steps_forward_position(x, T::count());
    let y = steps_forward(x, T::count());
    y.lemma_at_position();
    x.lemma_at_position();
}

impl TimeFrame {
    /// The short label of the time frame, as chart APIs write it.
    pub open spec fn label(self) -> Seq<char> {
        match self {
            TimeFrame::OneMinute => "1m"@,
            TimeFrame::OneHour => "1h"@,
            TimeFrame::OneDay => "1d"@,
            TimeFrame::OneWeek => "1w"@,
            TimeFrame::OneMonth => "1mo"@,
            TimeFrame::ThreeMonth => "3mo"@,
            TimeFrame::SixMonth => "6mo"@,
            TimeFrame::YearToDate => "ytd"@,
            TimeFrame::OneYear => "1y"@,
            TimeFrame::FiveYear => "5y"@,
            TimeFrame::Max => "max"@,
        }
    }

    /// The short label: `1m`, `1h`, `1d`, `1w`, `1mo`, `3mo`, `6mo`, `ytd`, `1y`, `5y`, `max`.
    pub fn to_string(&self) -> (r: String)
        ensures
            r@ == self.label(),
    {
        match self {
            TimeFrame::OneMinute => text::owned("1m"),
            TimeFrame::OneHour => text::owned("1h"),
            TimeFrame::OneDay => text::owned("1d"),
            TimeFrame::OneWeek => text::owned("1w"),
            TimeFrame::OneMonth => text::owned("1mo"),
            TimeFrame::ThreeMonth => text::owned("3mo"),
            TimeFrame::SixMonth => text::owned("6mo"),
            TimeFrame::YearToDate => text::owned("ytd"),
            TimeFrame::OneYear => text::owned("1y"),
            TimeFrame::FiveYear => text::owned("5y"),
            TimeFrame::Max => text::owned("max"),
        }
    }
}

/// Error of reading a currency name.
#[derive(Debug, Clone, PartialEq, Eq)]
pub enum CurrencyError {
    /// The text names no known currency; it holds the text.
    Unknown(String),
}

/// Error of reading an enumeration from its database text.
#[derive(Debug, Clone, Copy, PartialEq, Eq, Structural)]
pub enum SqlTextError {
    UnknownCurrency,
    UnknownTransactionType,
}

impl Currency {
    /// The currency code, as it is displayed.
    pub open spec fn code(self) -> Seq<char> {
        match self {
            Currency::EUR => "EUR"@,
            Currency::USD => "USD"@,
        }
    }

    /// The text under which the currency is stored in the database.
    pub open spec fn sql_text(self) -> Seq<char> {
        match self {
            Currency::EUR => "eur"@,
            Currency::USD => "usd"@,
        }
    }

    /// The currency code: `EUR` or `USD`.
    pub fn to_string(&self) -> (r: String)
        ensures
            r@ == self.code(),
    {
        match self {
            Currency::EUR => text::owned("EUR"),
            Currency::USD => text::owned("USD"),
        }
    }

    /// The database text: `eur` or `usd`.
    pub fn to_sql(&self) -> (r: String)
        ensures
            r@ == self.sql_text(),
    {
        match self {
            Currency::EUR => text::owned("eur"),
            Currency::USD => text::owned("usd"),
        }
    }

    /// Reads a currency code in any letter case (`"eur"`, `"Usd"`, ...).
    pub fn try_from(value: String) -> (r: Result<Currency, CurrencyError>)
        ensures
            text::str_to_uppercase(value@) == "EUR"@ ==> r == Ok::<Currency, CurrencyError>(Currency::EUR),
            text::str_to_uppercase(value@) == "USD"@ ==> r == Ok::<Currency, CurrencyError>(Currency::USD),
            text::str_to_uppercase(value@) != "EUR"@ && text::str_to_uppercase(value@) != "USD"@
                ==> (r matches Err(CurrencyError::Unknown(v)) && v@ == value@),
            forall|c: Currency| value@ == c.code() ==> r == Ok::<Currency, CurrencyError>(c),
    {
        proof {
            reveal_strlit("EUR");
            reveal_strlit("USD");
            assert("EUR"@[0] != "USD"@[0]);
        }
        let upper = text::to_uppercase(value.as_str());
        proof {
            if value@ == "EUR"@ || value@ == "USD"@ {
                assert(text::ascii_text(value@));
                assert(value@.map_values(|c: char| text::ascii_upper(c)) =~= value@);
            }
        }
        let eur = text::owned("EUR");
        let usd = text::owned("USD");
        if upper == eur {
            Ok(Currency::EUR)
        } else if upper == usd {
            Ok(Currency::USD)
        } else {
            Err(CurrencyError::Unknown(value))
        }
    }

    /// Reads the database text of a currency, in any letter case.
    pub fn column_result(value: &str) -> (r: Result<Currency, SqlTextError>)
        ensures
            text::str_to_lowercase(value@) == "usd"@ ==> r == Ok::<Currency, SqlTextError>(Currency::USD),
            text::str_to_lowercase(value@) == "eur"@ ==> r == Ok::<Currency, SqlTextError>(Currency::EUR),
            text::str_to_lowercase(value@) != "usd"@ && text::str_to_lowercase(value@) != "eur"@
                ==> r == Err::<Currency, SqlTextError>(SqlTextError::UnknownCurrency),
            forall|c: Currency| value@ == c.sql_text() ==> r == Ok::<Currency, SqlTextError>(c),
    {
        proof {
            reveal_strlit("usd");
            reveal_strlit("eur");
            assert("usd"@[0] != "eur"@[0]);
        }
        let lower = text::to_lowercase(value);
        proof {
            if value@ == "usd"@ || value@ == "eur"@ {
                assert(text::ascii_text(value@));
                assert(value@.map_values(|c: char| text::ascii_lower(c)) =~= value@);
            }
        }
        let usd = text::owned("usd");
        let eur = text::owned("eur");
        if lower == usd {
            Ok(Currency::USD)
        } else if lower == eur {
            Ok(Currency::EUR)
        } else {
            Err(SqlTextError::UnknownCurrency)
        }
    }
}

impl TransactionType {
    /// The name of the transaction type, as it is displayed.
    pub open spec fn name(self) -> Seq<char> {
        match self {
            TransactionType::Buy => "Buy"@,
            TransactionType::Sell => "Sell"@,
        }
    }

    /// The text under which the transaction type is stored in the database.
    pub open spec fn sql_text(self) -> Seq<char> {
        match self {
            TransactionType::Buy => "buy"@,
            TransactionType::Sell => "sell"@,
        }
    }

    /// The displayed name: `Buy` or `Sell`.
    pub fn to_string(&self) -> (r: String)
        ensures
            r@ == self.name(),
    {
        match self {
            TransactionType::Buy => text::owned("Buy"),
            TransactionType::Sell => text::owned("Sell"),
        }
    }

    /// The database text: `buy` or `sell`.
    pub fn to_sql(&self) -> (r: String)
        ensures
            r@ == self.sql_text(),
    {
        match self {
            TransactionType::Buy => text::owned("buy"),
            TransactionType::Sell => text::owned("sell"),
        }
    }

    /// The transaction type stored as this database text: only `buy` and
    /// `sell` (in lower case) are known.
    pub open spec fn from_sql_text(s: Seq<char>) -> Result<TransactionType, SqlTextError> {
        if s == "buy"@ {
            Ok(TransactionType::Buy)
        } else if s == "sell"@ {
            Ok(TransactionType::Sell)
        } else {
            Err(SqlTextError::UnknownTransactionType)
        }
    }

    /// Reads the database text of a transaction type; only `buy` and `sell`
    /// (in lower case) are accepted.
    pub fn column_result(value: &str) -> (r: Result<TransactionType, SqlTextError>)
        ensures
            r == TransactionType::from_sql_text(value@),
    {
        proof {
            reveal_strlit("buy");
            reveal_strlit("sell");
            assert("buy"@[0] != "sell"@[0]);
        }
        let v = text::owned(value);
        let buy = text::owned("buy");
        let sell = text::owned("sell");
        if v == buy {
            Ok(TransactionType::Buy)
        } else if v == sell {
            Ok(TransactionType::Sell)
        } else {
            Err(SqlTextError::UnknownTransactionType)
        }
    }
}

/// Reading back the database text of a transaction type gives the type.
pub proof fn lemma_transaction_type_sql_round_trip(t: TransactionType)
    ensures
        TransactionType::from_sql_text(t.sql_text()) == Ok::<TransactionType, SqlTextError>(t),
{
    reveal_strlit("buy");
    reveal_strlit("sell");
    assert("buy"@[0] != "sell"@[0]);
}

/// A completed trade of an asset.
///
/// Price, fees and the transaction value `quantity * price` are denominated in
/// `currency`, which need not be the asset's quote currency (a broker may
/// settle a USD-quoted asset in EUR).
#[derive(Debug, Clone)]
pub struct Transaction {
    /// Database id; `None` for a transaction that is not stored yet.
    pub id: Option<i64>,
    /// Ticker symbol of the traded asset.
    pub ticker: String,
    pub transaction_type: TransactionType,
    pub trade_date: Date,
    /// Number of shares traded.
    pub quantity: Decimal,
    /// Price paid or received per share.
    pub price: Decimal,
    pub currency: Currency,
    /// Fees charged for the transaction.
    pub fees: Decimal,
}

impl Transaction {
    /// A copy of the transaction.
    pub fn copy(&self) -> (r: Transaction)
        ensures
            r == *self,
    {
        Transaction {
            id: self.id,
            ticker: self.ticker.clone(),
            transaction_type: self.transaction_type,
            trade_date: self.trade_date,
            quantity: self.quantity,
            price: self.price,
            currency: self.currency,
            fees: self.fees,
        }
    }

    /// Every number and date of the transaction lies in its type's range.
    pub open spec fn wf(self) -> bool {
        &&& self.trade_date.wf()
        &&& self.quantity.wf()
        &&& self.price.wf()
        &&& self.fees.wf()
    }
}

/// A dividend payment received for an asset; amount and taxes are
/// denominated in `currency`.
#[derive(Debug, Clone)]
pub struct Dividend {
    /// Database id; `None` for a dividend that is not stored yet.
    pub id: Option<i64>,
    /// Ticker symbol of the asset that paid the dividend.
    pub ticker: String,
    pub payment_date: Date,
    /// Gross amount paid.
    pub amount: Decimal,
    /// Taxes withheld.
    pub taxes: Decimal,
    pub currency: Currency,
}

impl Dividend {
    /// Every number and date of the dividend lies in its type's range.
    pub open spec fn wf(self) -> bool {
        &&& self.payment_date.wf()
        &&& self.amount.wf()
        &&& self.taxes.wf()
    }
}

/// Figures of one position of the portfolio.
#[derive(Debug, Clone)]
pub struct TickerData {
    pub name: String,
    pub ticker: String,
    pub current_price: Decimal,
    pub cost_basis: Decimal,
    pub market_value: Decimal,
    pub total_shares: Decimal,
    pub avg_cost: Decimal,
    pub unrealized_gain: Decimal,
    pub unrealized_gain_perc: Decimal,
    pub realized_gain: Decimal,
    /// Price change of the current day, in percent.
    pub todays_change: Decimal,
}

impl TickerData {
    /// A copy of the figures.
    pub fn copy(&self) -> (r: TickerData)
        ensures
            r == *self,
    {
        TickerData {
            name: self.name.clone(),
            ticker: self.ticker.clone(),
            current_price: self.current_price,
            cost_basis: self.cost_basis,
            market_value: self.market_value,
            total_shares: self.total_shares,
            avg_cost: self.avg_cost,
            unrealized_gain: self.unrealized_gain,
            unrealized_gain_perc: self.unrealized_gain_perc,
            realized_gain: self.realized_gain,
            todays_change: self.todays_change,
        }
    }

    /// Empty names and zero (scale 0) in every number.
    pub open spec fn is_default(self) -> bool {
        &&& self.name@ == Seq::<char>::empty()
        &&& self.ticker@ == Seq::<char>::empty()
        &&& self.current_price@ == (0int, 0int)
        &&& self.cost_basis@ == (0int, 0int)
        &&& self.market_value@ == (0int, 0int)
        &&& self.total_shares@ == (0int, 0int)
        &&& self.avg_cost@ == (0int, 0int)
        &&& self.unrealized_gain@ == (0int, 0int)
        &&& self.unrealized_gain_perc@ == (0int, 0int)
        &&& self.realized_gain@ == (0int, 0int)
        &&& self.todays_change@ == (0int, 0int)
    }

    /// Every number lies in the range of a decimal.
    pub open spec fn wf(self) -> bool {
        &&& self.current_price.wf()
        &&& self.cost_basis.wf()
        &&& self.market_value.wf()
        &&& self.total_shares.wf()
        &&& self.avg_cost.wf()
        &&& self.unrealized_gain.wf()
        &&& self.unrealized_gain_perc.wf()
        &&& self.realized_gain.wf()
        &&& self.todays_change.wf()
    }
}

impl Default for TickerData {
    fn default() -> (r: Self)
        ensures
            r.is_default(),
    {
        TickerData {
            name: String::new(),
            ticker: String::new(),
            current_price: Decimal::zero(0),
            cost_basis: Decimal::zero(0),
            market_value: Decimal::zero(0),
            total_shares: Decimal::zero(0),
            avg_cost: Decimal::zero(0),
            unrealized_gain: Decimal::zero(0),
            unrealized_gain_perc: Decimal::zero(0),
            realized_gain: Decimal::zero(0),
            todays_change: Decimal::zero(0),
        }
    }
}

} // verus!
