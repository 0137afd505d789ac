//! What the application asks of the library: opening the database, the
//! figures of one position, market and portfolio values in a chosen currency.
//!
//! Prices, names and exchange rates come from a market-data service; the
//! application fetches them and hands them over as [`TickerQuote`] or
//! [`AssetQuote`] values.
use vstd::prelude::*;
use vstd::string::StringExecFns;
use crate::calculate::{
    all_quotes_wf, all_wf, quotes_cover, calc_avg_cost, calc_cost_basis, calc_market_value, calc_portfolio_value,
    calc_realized_gains, calc_shares, calc_unrealized_gain, calc_unrealized_gain_prec, checked_avg_cost,
    checked_cost_basis, checked_market_value, checked_portfolio_value, checked_realized_gains,
    checked_shares, checked_unrealized_gain, checked_unrealized_gain_perc, one, zero0, spec_avg_cost,
    spec_cost_basis, spec_market_value, spec_portfolio_value, spec_realized_gains, spec_shares,
    spec_unrealized_gain, spec_unrealized_gain_perc, AssetQuote, CalcError,
};
use crate::database::{add_transaction, create_tables, open_connection, spec_transaction_from_row, DbError, SqlValue};
use crate::decimal::{spec_mul, spec_sub, Decimal};
use crate::text;
use crate::types::{Currency, TickerData, Transaction};

verus! {

/// Opens (or creates) the database file at `db_path` and creates the tables
/// that are missing. The directory of the file must exist.
pub fn open_database(db_path: &str) -> (r: Result<rusqlite::Connection, DbError>)
    ensures
        r matches Err(e) ==> e is Sqlite,
{
    let conn = open_connection(db_path)?;
    create_tables(&conn)?;
    Ok(conn)
}

/// Initializes the database at `db_path`: opens it, creates all necessary
/// tables and returns the connection.
pub fn init_db(db_path: &str) -> (r: Result<rusqlite::Connection, DbError>)
    ensures
        r matches Err(e) ==> e is Sqlite,
{
    let conn = open_database(db_path)?;
    create_tables(&conn)?;
    Ok(conn)
}

/// Stores a new transaction and returns it as stored.
pub fn db_add_transaction(conn: &rusqlite::Connection, tx: Transaction) -> (r: Result<Transaction, DbError>)
    requires
        tx.wf(),
    ensures
        r matches Ok(t) ==> t.wf() && exists|row: Seq<SqlValue>| spec_transaction_from_row(row) == Some(t),
{
    add_transaction(conn, tx)
}

/// The market-data symbol of the exchange rate from `current` to `target`,
/// such as `EURUSD=X`.
pub open spec fn spec_exchange_pair(current: Currency, target: Currency) -> Seq<char> {
    current.code() + target.code() + "=X"@
}

/// The market-data symbol of the exchange rate from `current` to `target`.
pub fn exchange_pair_symbol(current: Currency, target: Currency) -> (r: String)
    ensures
        r@ == spec_exchange_pair(current, target),
{
    let pair = current.to_string();
    let target_code = target.to_string();
    let pair = pair.concat(target_code.as_str());
    pair.concat("=X")
}

/// The tickers of the transactions, in order.
pub open spec fn tickers_of(txs: Seq<Transaction>) -> Seq<Seq<char>> {
    txs.map_values(|t: Transaction| t.ticker@)
}

/// The texts of the strings, in order.
pub open spec fn texts_of(v: Seq<String>) -> Seq<Seq<char>> {
    v.map_values(|s: String| s@)
}

/// The texts, each once, in the order of their first occurrence.
pub open spec fn first_occurrences(s: Seq<Seq<char>>) -> Seq<Seq<char>>
    decreases s.len(),
{
    if s.len() == 0 {
        s
    } else {
        let before = first_occurrences(s.drop_last());
        if before.contains(s.last()) {
            before
        } else {
            before.push(s.last())
        }
    }
}

/// The tickers of the transactions, each once, in the order of their first
/// transaction.
pub fn portfolio_tickers(transactions: &[Transaction]) -> (r: Vec<String>)
    ensures
        texts_of(r@) == first_occurrences(tickers_of(transactions@)),
        texts_of(r@).no_duplicates(),
        texts_of(r@).to_set() == tickers_of(transactions@).to_set(),
{
    let mut tickers: Vec<String> = Vec::new();
    let mut k: usize = 0;
    proof {
        assert(texts_of(tickers@) =~= Seq::<Seq<char>>::empty());
        assert(tickers_of(transactions@.take(0)) =~= Seq::<Seq<char>>::empty());
        assert(first_occurrences(Seq::<Seq<char>>::empty()) =~= Seq::<Seq<char>>::empty());
    }
    while k < transactions.len()
        invariant
            k <= transactions.len(),
            texts_of(tickers@) == first_occurrences(tickers_of(transactions@.take(k as int))),
            texts_of(tickers@).no_duplicates(),
            texts_of(tickers@).to_set() == tickers_of(transactions@.take(k as int)).to_set(),
        decreases transactions.len() - k,
    {
        let t = &transactions[k].ticker;
        let mut found = false;
        let mut i: usize = 0;
        while i < tickers.len()
            invariant
                i <= tickers.len(),
                found ==> texts_of(tickers@).contains(t@),
                !found ==> forall|j: int| 0 <= j < i ==> texts_of(tickers@)[j] != t@,
            decreases tickers.len() - i,
        {
            if tickers[i] == *t {
                found = true;
                assert(texts_of(tickers@)[i as int] == t@);
            }
            i = i + 1;
        }
        proof {
            assert(tickers_of(transactions@.take(k + 1)) =~= tickers_of(transactions@.take(k as int)).push(t@));
            assert(tickers_of(transactions@.take(k + 1)).drop_last() =~= tickers_of(transactions@.take(k as int)));
            tickers_of(transactions@.take(k as int)).lemma_push_to_set_commute(t@);
            if !found {
                assert(!texts_of(tickers@).contains(t@));
            }
        }
        if !found {
            let ghost old_texts = texts_of(tickers@);
            tickers.push(t.clone());
            proof {
                assert(texts_of(tickers@) =~= old_texts.push(t@));
                old_texts.lemma_push_to_set_commute(t@);
                assert(!old_texts.contains(t@));
            }
        } else {
            proof {
                assert(texts_of(tickers@).to_set().contains(t@));
                assert(texts_of(tickers@).to_set().insert(t@) =~= texts_of(tickers@).to_set());
            }
        }
        k = k + 1;
    }
    proof {
        assert(transactions@.take(transactions.len() as int) =~= transactions@);
    }
    tickers
}

/*
 *  Figures of one position
 */

/// What the market-data service reported for a ticker: the current price in
/// its quote currency, the asset's long name, today's price change in
/// percent, and (where a target currency was asked for) the exchange rate
/// from the quote currency to the target.
#[derive(Debug, Clone)]
pub struct TickerQuote {
    pub current_price: Decimal,
    pub name: String,
    pub todays_change: Decimal,
    pub exchange_rate: Option<Decimal>,
}

impl TickerQuote {
    pub open spec fn wf(self) -> bool {
        &&& self.current_price.wf()
        &&& self.todays_change.wf()
        &&& self.exchange_rate matches Some(r) ==> r.wf()
    }
}

/// The exchange rate of the quote, or `1` where none was asked for.
pub open spec fn rate_of(q: TickerQuote) -> Decimal {
    match q.exchange_rate {
        Some(r) => r,
        None => one(),
    }
}

/// A figure converted with the rate.
pub open spec fn converted(x: Option<Decimal>, rate: Decimal) -> Option<Decimal> {
    match x {
        Some(v) => spec_mul(v, rate),
        None => None,
    }
}

/// The numbers of an open position at the quoted price.
#[derive(Debug, Clone, Copy)]
pub struct TickerFigures {
    pub current_price: Decimal,
    pub cost_basis: Decimal,
    pub market_value: Decimal,
    pub avg_cost: Decimal,
    pub unrealized_gain: Decimal,
    pub unrealized_gain_perc: Decimal,
    pub realized_gain: Decimal,
}

/// The figures of an open position: market value, average cost, cost basis,
/// unrealized gain and realized gain converted with the quote's rate, the
/// unrealized gain in percent unconverted, and the converted current price.
pub open spec fn spec_ticker_figures(t: Seq<char>, txs: Seq<Transaction>, q: TickerQuote) -> Option<TickerFigures> {
    let rate = rate_of(q);
    match (
        converted(spec_market_value(txs, t, q.current_price), rate),
        converted(spec_avg_cost(txs, t), rate),
        converted(spec_cost_basis(txs, t), rate),
        converted(spec_unrealized_gain(txs, t, q.current_price), rate),
    ) {
        (Some(market_value), Some(avg_cost), Some(cost_basis), Some(unrealized_gain)) => match (
            spec_unrealized_gain_perc(txs, t, q.current_price),
            converted(spec_realized_gains(txs, t), rate),
            spec_mul(q.current_price, rate),
        ) {
            (Some(unrealized_gain_perc), Some(realized_gain), Some(current_price)) => Some(
                TickerFigures {
                    current_price,
                    cost_basis,
                    market_value,
                    avg_cost,
                    unrealized_gain,
                    unrealized_gain_perc,
                    realized_gain,
                },
            ),
            _ => None,
        },
        _ => None,
    }
}

/// Shares held: bought minus sold.
pub open spec fn spec_held(txs: Seq<Transaction>, t: Seq<char>) -> Option<Decimal> {
    match spec_shares(txs, t) {
        Some(sh) => spec_sub(sh.0, sh.1),
        None => None,
    }
}

/// No step of `get_ticker_info` overflows on these arguments.
pub open spec fn ticker_info_defined(t: Seq<char>, txs: Seq<Transaction>, quote: Option<TickerQuote>) -> bool {
    match spec_held(txs, t) {
        Some(held) => held.mantissa == 0 || match quote {
            Some(q) => spec_ticker_figures(t, txs, q) is Some,
            None => true,
        },
        None => false,
    }
}

/// The unrealized gain in percent of an open position is the percentage
/// that `calc_unrealized_gain_prec` gives at the quoted price: a ratio of two
/// figures in the same currency, it is not converted with the exchange rate,
/// so two quotes at the same price give it alike whatever their rates.
pub proof fn lemma_percent_ignores_rate(
    t: Seq<char>,
    txs: Seq<Transaction>,
    q1: TickerQuote,
    q2: TickerQuote,
    r1: TickerInfo,
    r2: TickerInfo,
)
    requires
        ticker_info_defined(t, txs, Some(q1)),
        ticker_info_defined(t, txs, Some(q2)),
        ticker_info_is(t, txs, Some(q1), r1),
        ticker_info_is(t, txs, Some(q2), r2),
        spec_held(txs, t).unwrap().mantissa != 0,
        q1.current_price == q2.current_price,
    ensures
        r1 matches TickerInfo::Ready(d1) && Some(d1.unrealized_gain_perc) == spec_unrealized_gain_perc(txs, t, q1.current_price),
        r1 matches TickerInfo::Ready(d1) && r2 matches TickerInfo::Ready(d2)
            && d1.unrealized_gain_perc == d2.unrealized_gain_perc,
{
}

/// The figures of an open position are those of the position's functions
/// at the quoted price: the shares held are bought minus sold; the market
/// value, average cost, cost basis, unrealized gain, realized gain and
/// current price are converted with the quote's rate (`1` where none was
/// asked for); the percent is not converted.
pub proof fn lemma_ticker_figures_convert(t: Seq<char>, txs: Seq<Transaction>, q: TickerQuote, r: TickerInfo)
    requires
        ticker_info_defined(t, txs, Some(q)),
        ticker_info_is(t, txs, Some(q), r),
        spec_held(txs, t).unwrap().mantissa != 0,
    ensures
        r matches TickerInfo::Ready(d) && {
            let rate = rate_of(q);
            &&& spec_shares(txs, t) matches Some((bought, sold)) && spec_sub(bought, sold) == Some(d.total_shares)
            &&& spec_market_value(txs, t, q.current_price) matches Some(v) && spec_mul(v, rate) == Some(d.market_value)
            &&& spec_avg_cost(txs, t) matches Some(v) && spec_mul(v, rate) == Some(d.avg_cost)
            &&& spec_cost_basis(txs, t) matches Some(v) && spec_mul(v, rate) == Some(d.cost_basis)
            &&& spec_unrealized_gain(txs, t, q.current_price) matches Some(v) && spec_mul(v, rate) == Some(d.unrealized_gain)
            &&& spec_realized_gains(txs, t) matches Some(v) && spec_mul(v, rate) == Some(d.realized_gain)
            &&& spec_mul(q.current_price, rate) == Some(d.current_price)
            &&& Some(d.unrealized_gain_perc) == spec_unrealized_gain_perc(txs, t, q.current_price)
        },
{
}

/// Result of a step of `get_ticker_info`.
#[derive(Debug, Clone)]
pub enum TickerInfo {
    /// The position is open: a quote for the ticker is needed.
    NeedsQuote,
    /// The figures of the position.
    Ready(TickerData),
}

/// The data holds the figures, the ticker, the quote's name and today's change.
pub open spec fn data_matches(d: TickerData, t: Seq<char>, held: Decimal, q: TickerQuote, f: TickerFigures) -> bool {
    &&& d.name@ == q.name@
    &&& d.ticker@ == t
    &&& d.total_shares == held
    &&& d.todays_change == q.todays_change
    &&& d.current_price == f.current_price
    &&& d.cost_basis == f.cost_basis
    &&& d.market_value == f.market_value
    &&& d.avg_cost == f.avg_cost
    &&& d.unrealized_gain == f.unrealized_gain
    &&& d.unrealized_gain_perc == f.unrealized_gain_perc
    &&& d.realized_gain == f.realized_gain
}

/// What `get_ticker_info` gives for these arguments (where no step
/// overflows): the data of a closed position, a request for a quote, or the
/// figures of the quote.
pub open spec fn ticker_info_is(t: Seq<char>, txs: Seq<Transaction>, quote: Option<TickerQuote>, r: TickerInfo) -> bool {
    let held = spec_held(txs, t).unwrap();
    if held.mantissa == 0 {
        r matches TickerInfo::Ready(d) && d.total_shares == held
            && (TickerData { total_shares: zero0(), ..d }).is_default()
    } else {
        match quote {
            None => r is NeedsQuote,
            Some(q) => r matches TickerInfo::Ready(d)
                && data_matches(d, t, held, q, spec_ticker_figures(t, txs, q).unwrap()),
        }
    }
}

/// Figures of the position in ticker `t`. Where no shares are held, the data
/// is all zero but for the shares held, and no quote is needed. Otherwise,
/// without a quote the result asks for one; with a quote, the figures are
/// converted into the target currency with the quote's exchange rate (or
/// left in the quote currency where it has none).
pub fn get_ticker_info(t: String, tx: &[Transaction], quote: Option<TickerQuote>) -> (r: TickerInfo)
    requires
        all_wf(tx@),
        quote matches Some(q) ==> q.wf(),
        ticker_info_defined(t@, tx@, quote),
    ensures
        ticker_info_is(t@, tx@, quote, r),
        r matches TickerInfo::Ready(d) ==> d.wf(),
{
    let ts = t.as_str();
    let (buy, sell) = calc_shares(tx, ts);
    let held = buy.checked_sub(sell).unwrap();
    if held.is_zero() {
        let mut data = TickerData::default();
        data.total_shares = held;
        return TickerInfo::Ready(data);
    }
    let q = match quote {
        Some(q) => q,
        None => return TickerInfo::NeedsQuote,
    };
    let current_price = q.current_price;
    let exchange_rate = match q.exchange_rate {
        Some(r) => r,
        None => Decimal::from_u32(1),
    };
    let market_value = calc_market_value(tx, ts, current_price).unwrap().checked_mul(exchange_rate).unwrap();
    let avg_cost = calc_avg_cost(tx, ts).checked_mul(exchange_rate).unwrap();
    let cost_basis = calc_cost_basis(tx, ts).unwrap().checked_mul(exchange_rate).unwrap();
    let unrealized_gain = calc_unrealized_gain(tx, ts, current_price).unwrap().checked_mul(exchange_rate).unwrap();
    let unrealized_gain_perc = calc_unrealized_gain_prec(tx, ts, current_price).unwrap();
    let realized_gain = calc_realized_gains(tx, ts).unwrap().checked_mul(exchange_rate).unwrap();
    let converted_price = current_price.checked_mul(exchange_rate).unwrap();
    TickerInfo::Ready(TickerData {
        name: q.name,
        ticker: t,
        current_price: converted_price,
        cost_basis,
        market_value,
        total_shares: held,
        avg_cost,
        unrealized_gain,
        unrealized_gain_perc,
        realized_gain,
        todays_change: q.todays_change,
    })
}

/// `get_ticker_info`, or `Overflow` where one of its steps overflows.
pub fn checked_ticker_info(t: String, tx: &[Transaction], quote: Option<TickerQuote>) -> (r: Result<TickerInfo, CalcError>)
    requires
        all_wf(tx@),
        quote matches Some(q) ==> q.wf(),
    ensures
        r is Err <==> !ticker_info_defined(t@, tx@, quote),
        r matches Ok(i) ==> ticker_info_is(t@, tx@, quote, i),
        r matches Ok(TickerInfo::Ready(d)) ==> d.wf(),
{
    let shares = checked_shares(tx, &t);
    let held = match shares {
        Some((buy, sell)) => buy.checked_sub(sell),
        None => None,
    };
    let held = match held {
        Some(h) => h,
        None => return Err(CalcError::Overflow),
    };
    if !held.is_zero() {
        if let Some(q) = &quote {
            let rate = match q.exchange_rate {
                Some(r) => r,
                None => Decimal::from_u32(1),
            };
            let defined = convert_opt(checked_market_value(tx, &t, q.current_price), rate).is_some()
                && convert_opt(checked_avg_cost(tx, &t), rate).is_some()
                && convert_opt(checked_cost_basis(tx, &t), rate).is_some()
                && convert_opt(checked_unrealized_gain(tx, &t, q.current_price), rate).is_some()
                && checked_unrealized_gain_perc(tx, &t, q.current_price).is_some()
                && convert_opt(checked_realized_gains(tx, &t), rate).is_some()
                && q.current_price.checked_mul(rate).is_some();
            if !defined {
                return Err(CalcError::Overflow);
            }
        }
    }
    Ok(get_ticker_info(t, tx, quote))
}

fn convert_opt(x: Option<Decimal>, rate: Decimal) -> (r: Option<Decimal>)
    requires
        x matches Some(v) ==> v.wf(),
        rate.wf(),
    ensures
        r == converted(x, rate),
{
    match x {
        Some(v) => v.checked_mul(rate),
        None => None,
    }
}

/*
 *  Market and portfolio values
 */

/// Market value of the ticker's held shares, converted with the exchange
/// rate where one is given.
pub open spec fn spec_market_value_in(txs: Seq<Transaction>, ticker: Seq<char>, price: Decimal, rate: Option<Decimal>) -> Option<Decimal> {
    match spec_market_value(txs, ticker, price) {
        Some(mv) => spec_mul(mv, match rate {
            Some(r) => r,
            None => one(),
        }),
        None => None,
    }
}

/// Market value of the ticker's held shares at the current price, times the
/// exchange rate into the target currency (times `1` where no target
/// currency was asked for).
pub fn get_market_value(
    transactions: &[Transaction],
    ticker: &str,
    current_price: Decimal,
    exchange_rate: Option<Decimal>,
) -> (r: Result<Decimal, CalcError>)
    requires
        all_wf(transactions@),
        current_price.wf(),
        exchange_rate matches Some(x) ==> x.wf(),
        spec_market_value_in(transactions@, ticker@, current_price, exchange_rate) is Some,
    ensures
        r == Ok::<Decimal, CalcError>(spec_market_value_in(transactions@, ticker@, current_price, exchange_rate).unwrap()),
{
    let market_value = calc_market_value(transactions, ticker, current_price).unwrap();
    let rate = match exchange_rate {
        Some(x) => x,
        None => Decimal::from_u32(1),
    };
    Ok(market_value.checked_mul(rate).unwrap())
}

/// `get_market_value`, or `Overflow` where one of its steps overflows.
pub fn checked_get_market_value(
    transactions: &[Transaction],
    ticker: &str,
    current_price: Decimal,
    exchange_rate: Option<Decimal>,
) -> (r: Result<Decimal, CalcError>)
    requires
        all_wf(transactions@),
        current_price.wf(),
        exchange_rate matches Some(x) ==> x.wf(),
    ensures
        r == (match spec_market_value_in(transactions@, ticker@, current_price, exchange_rate) {
            Some(v) => Ok::<Decimal, CalcError>(v),
            None => Err(CalcError::Overflow),
        }),
{
    let t = text::owned(ticker);
    let rate = match exchange_rate {
        Some(x) => x,
        None => Decimal::from_u32(1),
    };
    match convert_opt(checked_market_value(transactions, &t, current_price), rate) {
        Some(_) => get_market_value(transactions, ticker, current_price, exchange_rate),
        None => Err(CalcError::Overflow),
    }
}

/// Value of the portfolio in the target currency, from the quotes of its
/// assets (see `calc_portfolio_value`).
pub fn get_portfolio_value(
    transactions: &[Transaction],
    target_currency: Option<Currency>,
    quotes: &[AssetQuote],
) -> (r: Result<Decimal, CalcError>)
    requires
        all_wf(transactions@),
        all_quotes_wf(quotes@),
        quotes_cover(transactions@, quotes@),
        spec_portfolio_value(transactions@, target_currency, quotes@) is Some,
    ensures
        r == Ok::<Decimal, CalcError>(spec_portfolio_value(transactions@, target_currency, quotes@).unwrap()),
{
    let portfolio_value = calc_portfolio_value(transactions, target_currency, quotes)?;
    Ok(portfolio_value)
}

/// `get_portfolio_value`, or `Overflow` where one of its steps overflows.
pub fn checked_get_portfolio_value(
    transactions: &[Transaction],
    target_currency: Option<Currency>,
    quotes: &[AssetQuote],
) -> (r: Result<Decimal, CalcError>)
    requires
        all_wf(transactions@),
        all_quotes_wf(quotes@),
        quotes_cover(transactions@, quotes@),
    ensures
        r == (match spec_portfolio_value(transactions@, target_currency, quotes@) {
            Some(v) => Ok::<Decimal, CalcError>(v),
            None => Err(CalcError::Overflow),
        }),
{
    match checked_portfolio_value(transactions, target_currency, quotes) {
        Some(_) => get_portfolio_value(transactions, target_currency, quotes),
        None => Err(CalcError::Overflow),
    }
}

} // verus!
