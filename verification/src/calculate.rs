//! Figures of positions, sales, dividends and the whole portfolio.
//!
//! Every figure is what `rust_decimal` computes along the same steps as the
//! bookkeeping rules below; the spec functions name each step's result
//! through the decimal operations of `crate::decimal`. A step that overflows
//! makes a figure `None`; the functions that cannot fail require that no step
//! overflows, and the `checked_*` functions report the overflow instead.
use vstd::prelude::*;
use crate::decimal::{decimal_of, spec_add, spec_div, spec_mul, spec_sub, Decimal};
use crate::fold::{fold_opt, lemma_fold_opt_full, lemma_fold_opt_insert_neutral, lemma_fold_opt_none, lemma_fold_opt_step};
use crate::service::{first_occurrences, portfolio_tickers, texts_of, tickers_of};
use crate::text;
use crate::types::{Currency, Dividend, Transaction, TransactionType};

verus! {

/// Error of a calculation.
#[derive(Debug, Clone, Copy, PartialEq, Eq, Structural)]
pub enum CalcError {
    /// A decimal operation overflowed (or divided by zero).
    Overflow,
}

/// Every transaction holds valid numbers and dates.
pub open spec fn all_wf(txs: Seq<Transaction>) -> bool {
    forall|i: int| 0 <= i < txs.len() ==> (#[trigger] txs[i]).wf()
}

/// Every dividend holds valid numbers and dates.
pub open spec fn all_dividends_wf(divs: Seq<Dividend>) -> bool {
    forall|i: int| 0 <= i < divs.len() ==> (#[trigger] divs[i]).wf()
}

/// Zero with scale 0 (`0`).
pub open spec fn zero0() -> Decimal {
    decimal_of((0, 0))
}

/// Zero with scale 1 (`0.0`).
pub open spec fn zero1() -> Decimal {
    decimal_of((0, 1))
}

/// One hundred with scale 0 (`100`).
pub open spec fn hundred() -> Decimal {
    decimal_of((100, 0))
}

/// One with scale 0 (`1`).
pub open spec fn one() -> Decimal {
    decimal_of((1, 0))
}

/*
 *  POSITIONS
 */

/// One step of counting shares: a transaction of the ticker adds its quantity
/// to the bought (first) or sold (second) total.
pub open spec fn shares_step(acc: (Decimal, Decimal), t: Transaction, ticker: Seq<char>) -> Option<(Decimal, Decimal)> {
    if t.ticker@ == ticker {
        match t.transaction_type {
            TransactionType::Buy => match spec_add(acc.0, t.quantity) {
                Some(b) => Some((b, acc.1)),
                None => None,
            },
            TransactionType::Sell => match spec_add(acc.1, t.quantity) {
                Some(s) => Some((acc.0, s)),
                None => None,
            },
        }
    } else {
        Some(acc)
    }
}

pub open spec fn shares_step_fn(ticker: Seq<char>) -> spec_fn((Decimal, Decimal), Transaction) -> Option<(Decimal, Decimal)> {
    |acc: (Decimal, Decimal), t: Transaction| shares_step(acc, t, ticker)
}

/// (bought, sold): the quantities of the ticker's buys and sells, each summed
/// in order from `0`.
pub open spec fn spec_shares(txs: Seq<Transaction>, ticker: Seq<char>) -> Option<(Decimal, Decimal)> {
    fold_opt(txs, (zero0(), zero0()), shares_step_fn(ticker))
}

/// One step of the buy cost: a buy of the ticker adds `quantity * price + fees`.
pub open spec fn cost_step(acc: Decimal, t: Transaction, ticker: Seq<char>) -> Option<Decimal> {
    if t.ticker@ == ticker && t.transaction_type == TransactionType::Buy {
        match spec_mul(t.quantity, t.price) {
            Some(v) => match spec_add(v, t.fees) {
                Some(c) => spec_add(acc, c),
                None => None,
            },
            None => None,
        }
    } else {
        Some(acc)
    }
}

pub open spec fn cost_step_fn(ticker: Seq<char>) -> spec_fn(Decimal, Transaction) -> Option<Decimal> {
    |acc: Decimal, t: Transaction| cost_step(acc, t, ticker)
}

/// Total cost of the ticker's buys, fees included, summed in order from `0.0`.
pub open spec fn spec_total_cost(txs: Seq<Transaction>, ticker: Seq<char>) -> Option<Decimal> {
    fold_opt(txs, zero1(), cost_step_fn(ticker))
}

/// Average cost per bought share: total buy cost over bought quantity, or
/// `0.0` where nothing was bought.
pub open spec fn spec_avg_cost(txs: Seq<Transaction>, ticker: Seq<char>) -> Option<Decimal> {
    match (spec_shares(txs, ticker), spec_total_cost(txs, ticker)) {
        (Some(sh), Some(cost)) => if sh.0.mantissa == 0 {
            Some(zero1())
        } else {
            spec_div(cost, sh.0)
        },
        _ => None,
    }
}

/// Cost basis: average cost times the bought quantity.
pub open spec fn spec_cost_basis(txs: Seq<Transaction>, ticker: Seq<char>) -> Option<Decimal> {
    match (spec_avg_cost(txs, ticker), spec_shares(txs, ticker)) {
        (Some(avg), Some(sh)) => spec_mul(avg, sh.0),
        _ => None,
    }
}

/// Market value: the current price times the shares held (bought minus sold).
pub open spec fn spec_market_value(txs: Seq<Transaction>, ticker: Seq<char>, price: Decimal) -> Option<Decimal> {
    match spec_shares(txs, ticker) {
        Some(sh) => match spec_sub(sh.0, sh.1) {
            Some(held) => spec_mul(price, held),
            None => None,
        },
        None => None,
    }
}

/// Unrealized gain: market value minus average cost.
pub open spec fn spec_unrealized_gain(txs: Seq<Transaction>, ticker: Seq<char>, price: Decimal) -> Option<Decimal> {
    match (spec_market_value(txs, ticker, price), spec_avg_cost(txs, ticker)) {
        (Some(mv), Some(avg)) => spec_sub(mv, avg),
        _ => None,
    }
}

/// Unrealized gain in percent of the average cost.
pub open spec fn spec_unrealized_gain_perc(txs: Seq<Transaction>, ticker: Seq<char>, price: Decimal) -> Option<Decimal> {
    match (spec_unrealized_gain(txs, ticker, price), spec_avg_cost(txs, ticker)) {
        (Some(gain), Some(avg)) => match spec_div(gain, avg) {
            Some(q) => spec_mul(q, hundred()),
            None => None,
        },
        _ => None,
    }
}

/*
 *  SELLS
 */

/// One step of the sale value: a sell of the ticker adds `quantity * price - fees`,
/// a buy of the ticker adds `0`.
pub open spec fn sale_step(acc: Decimal, t: Transaction, ticker: Seq<char>) -> Option<Decimal> {
    if t.ticker@ == ticker {
        match t.transaction_type {
            TransactionType::Sell => match spec_mul(t.quantity, t.price) {
                Some(v) => match spec_sub(v, t.fees) {
                    Some(net) => spec_add(acc, net),
                    None => None,
                },
                None => None,
            },
            TransactionType::Buy => spec_add(acc, zero0()),
        }
    } else {
        Some(acc)
    }
}

pub open spec fn sale_step_fn(ticker: Seq<char>) -> spec_fn(Decimal, Transaction) -> Option<Decimal> {
    |acc: Decimal, t: Transaction| sale_step(acc, t, ticker)
}

/// Proceeds of the ticker's sells, net of fees, summed in order from `0`.
pub open spec fn spec_sale_value(txs: Seq<Transaction>, ticker: Seq<char>) -> Option<Decimal> {
    fold_opt(txs, zero0(), sale_step_fn(ticker))
}

/// Realized gains: sale proceeds minus average cost times the sold quantity.
pub open spec fn spec_realized_gains(txs: Seq<Transaction>, ticker: Seq<char>) -> Option<Decimal> {
    match (spec_shares(txs, ticker), spec_sale_value(txs, ticker), spec_avg_cost(txs, ticker)) {
        (Some(sh), Some(sale), Some(avg)) => match spec_mul(avg, sh.1) {
            Some(cost) => spec_sub(sale, cost),
            None => None,
        },
        _ => None,
    }
}

/*
 *  DIVIDENDS
 */

/// One step of the gross dividends: a dividend of the ticker adds its amount.
pub open spec fn gross_step(acc: Decimal, d: Dividend, ticker: Seq<char>) -> Option<Decimal> {
    if d.ticker@ == ticker {
        spec_add(acc, d.amount)
    } else {
        Some(acc)
    }
}

pub open spec fn gross_step_fn(ticker: Seq<char>) -> spec_fn(Decimal, Dividend) -> Option<Decimal> {
    |acc: Decimal, d: Dividend| gross_step(acc, d, ticker)
}

/// Gross dividends of the ticker, summed in order from `0`.
pub open spec fn spec_gross_dividends(divs: Seq<Dividend>, ticker: Seq<char>) -> Option<Decimal> {
    fold_opt(divs, zero0(), gross_step_fn(ticker))
}

/// One step of the net dividends: a dividend of the ticker adds `amount - taxes`.
pub open spec fn net_step(acc: Decimal, d: Dividend, ticker: Seq<char>) -> Option<Decimal> {
    if d.ticker@ == ticker {
        match spec_sub(d.amount, d.taxes) {
            Some(net) => spec_add(acc, net),
            None => None,
        }
    } else {
        Some(acc)
    }
}

pub open spec fn net_step_fn(ticker: Seq<char>) -> spec_fn(Decimal, Dividend) -> Option<Decimal> {
    |acc: Decimal, d: Dividend| net_step(acc, d, ticker)
}

/// Net dividends of the ticker (after taxes), summed in order from `0`.
pub open spec fn spec_net_dividends(divs: Seq<Dividend>, ticker: Seq<char>) -> Option<Decimal> {
    fold_opt(divs, zero0(), net_step_fn(ticker))
}

/// A position's figures do not change when a transaction of another ticker
/// is added anywhere to the list.
pub proof fn lemma_other_ticker_ignored(txs: Seq<Transaction>, i: int, x: Transaction, ticker: Seq<char>, price: Decimal)
    requires
        0 <= i <= txs.len(),
        x.ticker@ != ticker,
    ensures
        spec_shares(txs.insert(i, x), ticker) == spec_shares(txs, ticker),
        spec_avg_cost(txs.insert(i, x), ticker) == spec_avg_cost(txs, ticker),
        spec_cost_basis(txs.insert(i, x), ticker) == spec_cost_basis(txs, ticker),
        spec_market_value(txs.insert(i, x), ticker, price) == spec_market_value(txs, ticker, price),
        spec_unrealized_gain(txs.insert(i, x), ticker, price) == spec_unrealized_gain(txs, ticker, price),
        spec_unrealized_gain_perc(txs.insert(i, x), ticker, price) == spec_unrealized_gain_perc(txs, ticker, price),
        spec_sale_value(txs.insert(i, x), ticker) == spec_sale_value(txs, ticker),
        spec_realized_gains(txs.insert(i, x), ticker) == spec_realized_gains(txs, ticker),
{
    assert forall|a: (Decimal, Decimal)| #[trigger] shares_step_fn(ticker)(a, x) == Some(a) by {}
    assert forall|a: Decimal| #[trigger] cost_step_fn(ticker)(a, x) == Some(a) by {}
    assert forall|a: Decimal| #[trigger] sale_step_fn(ticker)(a, x) == Some(a) by {}
    lemma_fold_opt_insert_neutral(txs, (zero0(), zero0()), shares_step_fn(ticker), i, x);
    lemma_fold_opt_insert_neutral(txs, zero1(), cost_step_fn(ticker), i, x);
    lemma_fold_opt_insert_neutral(txs, zero0(), sale_step_fn(ticker), i, x);
}

/// A ticker without transactions has bought and sold nothing, an average
/// cost of `0.0` and no sale proceeds (`0`).
pub proof fn lemma_untraded_ticker(txs: Seq<Transaction>, ticker: Seq<char>)
    requires
        forall|i: int| 0 <= i < txs.len() ==> (#[trigger] txs[i]).ticker@ != ticker,
    ensures
        spec_shares(txs, ticker) == Some((zero0(), zero0())),
        spec_avg_cost(txs, ticker) == Some(zero1()),
        spec_sale_value(txs, ticker) == Some(zero0()),
    decreases txs.len(),
{
    if txs.len() > 0 {
        let rest = txs.drop_last();
        assert forall|i: int| 0 <= i < rest.len() implies (#[trigger] rest[i]).ticker@ != ticker by {
            assert(rest[i] == txs[i]);
        }
        lemma_untraded_ticker(rest, ticker);
        assert(txs.last().ticker@ != ticker);
        lemma_untraded_cost(txs, ticker);
    } else {
        lemma_untraded_cost(txs, ticker);
    }
}

proof fn lemma_untraded_cost(txs: Seq<Transaction>, ticker: Seq<char>)
    requires
        forall|i: int| 0 <= i < txs.len() ==> (#[trigger] txs[i]).ticker@ != ticker,
    ensures
        spec_total_cost(txs, ticker) == Some(zero1()),
    decreases txs.len(),
{
    if txs.len() > 0 {
        let rest = txs.drop_last();
        assert forall|i: int| 0 <= i < rest.len() implies (#[trigger] rest[i]).ticker@ != ticker by {
            assert(rest[i] == txs[i]);
        }
        lemma_untraded_cost(rest, ticker);
        assert(txs.last().ticker@ != ticker);
    }
}

/// Shares add up transaction by transaction: before any transaction nothing
/// is bought or sold; appending a buy of the ticker adds its quantity to the
/// bought total and keeps the sold total; appending a sell adds its quantity
/// to the sold total and keeps the bought total; a transaction of another
/// ticker changes neither. The totals exist exactly when these sums do.
pub proof fn lemma_shares_add_up(txs: Seq<Transaction>, t: Transaction, ticker: Seq<char>)
    ensures
        spec_shares(Seq::empty(), ticker) == Some((zero0(), zero0())),
        t.ticker@ != ticker ==> spec_shares(txs.push(t), ticker) == spec_shares(txs, ticker),
        t.ticker@ == ticker && t.transaction_type == TransactionType::Buy ==>
            spec_shares(txs.push(t), ticker) == (match spec_shares(txs, ticker) {
                Some((bought, sold)) => match spec_add(bought, t.quantity) {
                    Some(b) => Some((b, sold)),
                    None => None,
                },
                None => None,
            }),
        t.ticker@ == ticker && t.transaction_type == TransactionType::Sell ==>
            spec_shares(txs.push(t), ticker) == (match spec_shares(txs, ticker) {
                Some((bought, sold)) => match spec_add(sold, t.quantity) {
                    Some(s) => Some((bought, s)),
                    None => None,
                },
                None => None,
            }),
{
    assert(txs.push(t).drop_last() =~= txs);
}

/// Sale proceeds add up transaction by transaction: `0` before any
/// transaction; appending a sell of the ticker adds `quantity * price - fees`;
/// appending a buy of the ticker adds `0`; a transaction of another ticker
/// adds nothing.
pub proof fn lemma_sale_value_adds_up(txs: Seq<Transaction>, t: Transaction, ticker: Seq<char>)
    ensures
        spec_sale_value(Seq::empty(), ticker) == Some(zero0()),
        t.ticker@ != ticker ==> spec_sale_value(txs.push(t), ticker) == spec_sale_value(txs, ticker),
        t.ticker@ == ticker && t.transaction_type == TransactionType::Buy ==>
            spec_sale_value(txs.push(t), ticker) == (match spec_sale_value(txs, ticker) {
                Some(before) => spec_add(before, zero0()),
                None => None,
            }),
        t.ticker@ == ticker && t.transaction_type == TransactionType::Sell ==>
            spec_sale_value(txs.push(t), ticker) == (match (spec_sale_value(txs, ticker), spec_mul(t.quantity, t.price)) {
                (Some(before), Some(gross)) => match spec_sub(gross, t.fees) {
                    Some(net) => spec_add(before, net),
                    None => None,
                },
                _ => None,
            }),
{
    assert(txs.push(t).drop_last() =~= txs);
}

/// The total buy cost adds up: `0.0` before any transaction; appending a buy
/// of the ticker adds `quantity * price + fees`; a sell, or a transaction of
/// another ticker, adds nothing.
pub proof fn lemma_total_cost_adds_up(txs: Seq<Transaction>, t: Transaction, ticker: Seq<char>)
    ensures
        spec_total_cost(Seq::empty(), ticker) == Some(zero1()),
        !(t.ticker@ == ticker && t.transaction_type == TransactionType::Buy)
            ==> spec_total_cost(txs.push(t), ticker) == spec_total_cost(txs, ticker),
        t.ticker@ == ticker && t.transaction_type == TransactionType::Buy ==>
            spec_total_cost(txs.push(t), ticker) == (match (spec_total_cost(txs, ticker), spec_mul(t.quantity, t.price)) {
                (Some(before), Some(gross)) => match spec_add(gross, t.fees) {
                    Some(cost) => spec_add(before, cost),
                    None => None,
                },
                _ => None,
            }),
{
    assert(txs.push(t).drop_last() =~= txs);
}

/// The average cost is the total buy cost over the bought quantity, or `0.0`
/// where nothing was bought: the sold quantity does not enter.
pub proof fn lemma_avg_cost_of_buys(txs: Seq<Transaction>, ticker: Seq<char>)
    ensures
        spec_avg_cost(txs, ticker) is Some ==> spec_shares(txs, ticker) is Some && spec_total_cost(txs, ticker) is Some,
        spec_avg_cost(txs, ticker) == (match (spec_shares(txs, ticker), spec_total_cost(txs, ticker)) {
            (Some((bought, _)), Some(cost)) => if bought.mantissa == 0 { Some(zero1()) } else { spec_div(cost, bought) },
            _ => None,
        }),
{
}

/// Inserting a sell of the ticker anywhere keeps the bought total, where
/// both totals exist.
proof fn lemma_sell_keeps_bought(txs: Seq<Transaction>, i: int, x: Transaction, ticker: Seq<char>)
    requires
        0 <= i <= txs.len(),
        x.transaction_type == TransactionType::Sell,
        spec_shares(txs.insert(i, x), ticker) is Some,
        spec_shares(txs, ticker) is Some,
    ensures
        spec_shares(txs.insert(i, x), ticker).unwrap().0 == spec_shares(txs, ticker).unwrap().0,
    decreases txs.len(),
{
    let s = txs.insert(i, x);
    if i == txs.len() {
        assert(s.drop_last() =~= txs);
        assert(s.last() == x);
    } else {
        assert(s.drop_last() =~= txs.drop_last().insert(i, x));
        assert(s.last() == txs.last());
        lemma_sell_keeps_bought(txs.drop_last(), i, x, ticker);
    }
}

/// A sell never changes the average cost: inserting a sell of any ticker
/// anywhere in the list leaves the average cost of every ticker as it was,
/// where both exist.
pub proof fn lemma_sell_keeps_avg_cost(txs: Seq<Transaction>, i: int, x: Transaction, ticker: Seq<char>)
    requires
        0 <= i <= txs.len(),
        x.transaction_type == TransactionType::Sell,
        spec_avg_cost(txs.insert(i, x), ticker) is Some,
        spec_avg_cost(txs, ticker) is Some,
    ensures
        spec_avg_cost(txs.insert(i, x), ticker) == spec_avg_cost(txs, ticker),
{
    assert forall|a: Decimal| #[trigger] cost_step_fn(ticker)(a, x) == Some(a) by {}
    lemma_fold_opt_insert_neutral(txs, zero1(), cost_step_fn(ticker), i, x);
    lemma_sell_keeps_bought(txs, i, x, ticker);
}

/// How the figures of a position relate: the market value is the price
/// times the shares held (bought minus sold); the cost basis is the average
/// cost times the bought quantity; the unrealized gain is the market value
/// minus the average cost, and its percent that gain over the average cost
/// times 100; the realized gains are the sale proceeds minus the average cost
/// times the sold quantity.
pub proof fn lemma_position_figures(txs: Seq<Transaction>, ticker: Seq<char>, price: Decimal)
    ensures
        spec_market_value(txs, ticker, price) == (match spec_shares(txs, ticker) {
            Some((bought, sold)) => match spec_sub(bought, sold) {
                Some(held) => spec_mul(price, held),
                None => None,
            },
            None => None,
        }),
        spec_cost_basis(txs, ticker) == (match (spec_avg_cost(txs, ticker), spec_shares(txs, ticker)) {
            (Some(avg), Some((bought, _))) => spec_mul(avg, bought),
            _ => None,
        }),
        spec_unrealized_gain(txs, ticker, price) == (match (spec_market_value(txs, ticker, price), spec_avg_cost(txs, ticker)) {
            (Some(mv), Some(avg)) => spec_sub(mv, avg),
            _ => None,
        }),
        spec_unrealized_gain_perc(txs, ticker, price) == (match (spec_unrealized_gain(txs, ticker, price), spec_avg_cost(txs, ticker)) {
            (Some(gain), Some(avg)) => match spec_div(gain, avg) {
                Some(ratio) => spec_mul(ratio, hundred()),
                None => None,
            },
            _ => None,
        }),
        spec_realized_gains(txs, ticker) == (match (spec_sale_value(txs, ticker), spec_avg_cost(txs, ticker), spec_shares(txs, ticker)) {
            (Some(sale), Some(avg), Some((_, sold))) => match spec_mul(avg, sold) {
                Some(cost) => spec_sub(sale, cost),
                None => None,
            },
            _ => None,
        }),
{
}

/// Dividends add up dividend by dividend: `0` before any dividend;
/// appending a dividend of the ticker adds its amount to the gross total and
/// `amount - taxes` to the net total; a dividend of another ticker adds
/// nothing.
pub proof fn lemma_dividends_add_up(divs: Seq<Dividend>, d: Dividend, ticker: Seq<char>)
    ensures
        spec_gross_dividends(Seq::empty(), ticker) == Some(zero0()),
        spec_net_dividends(Seq::empty(), ticker) == Some(zero0()),
        d.ticker@ != ticker ==> spec_gross_dividends(divs.push(d), ticker) == spec_gross_dividends(divs, ticker)
            && spec_net_dividends(divs.push(d), ticker) == spec_net_dividends(divs, ticker),
        d.ticker@ == ticker ==> spec_gross_dividends(divs.push(d), ticker) == (match spec_gross_dividends(divs, ticker) {
            Some(before) => spec_add(before, d.amount),
            None => None,
        }),
        d.ticker@ == ticker ==> spec_net_dividends(divs.push(d), ticker) == (match (spec_net_dividends(divs, ticker), spec_sub(d.amount, d.taxes)) {
            (Some(before), Some(net)) => spec_add(before, net),
            _ => None,
        }),
{
    assert(divs.push(d).drop_last() =~= divs);
}

/// The dividends of a ticker do not change when a dividend of another ticker
/// is added anywhere to the list.
pub proof fn lemma_other_dividend_ignored(divs: Seq<Dividend>, i: int, x: Dividend, ticker: Seq<char>)
    requires
        0 <= i <= divs.len(),
        x.ticker@ != ticker,
    ensures
        spec_gross_dividends(divs.insert(i, x), ticker) == spec_gross_dividends(divs, ticker),
        spec_net_dividends(divs.insert(i, x), ticker) == spec_net_dividends(divs, ticker),
{
    assert forall|a: Decimal| #[trigger] gross_step_fn(ticker)(a, x) == Some(a) by {}
    assert forall|a: Decimal| #[trigger] net_step_fn(ticker)(a, x) == Some(a) by {}
    lemma_fold_opt_insert_neutral(divs, zero0(), gross_step_fn(ticker), i, x);
    lemma_fold_opt_insert_neutral(divs, zero0(), net_step_fn(ticker), i, x);
}

/*
 *  TOTAL
 */

/// Total return: unrealized gain plus realized gains plus net dividends.
pub open spec fn spec_total_return(
    txs: Seq<Transaction>,
    divs: Seq<Dividend>,
    ticker: Seq<char>,
    price: Decimal,
) -> Option<Decimal> {
    match (
        spec_unrealized_gain(txs, ticker, price),
        spec_realized_gains(txs, ticker),
        spec_net_dividends(divs, ticker),
    ) {
        (Some(u), Some(r), Some(n)) => match spec_add(u, r) {
            Some(s) => spec_add(s, n),
            None => None,
        },
        _ => None,
    }
}

/*
 *  PORTFOLIO
 */

/// Current price, quote currency and exchange rate (quote currency to the
/// target currency) of one asset of the portfolio.
#[derive(Debug, Clone)]
pub struct AssetQuote {
    pub ticker: String,
    pub price: Decimal,
    pub currency: Currency,
    /// Used only where the target currency differs from `currency`.
    pub exchange_rate: Decimal,
}

impl AssetQuote {
    pub open spec fn wf(self) -> bool {
        self.price.wf() && self.exchange_rate.wf()
    }
}

/// Every quote holds valid numbers.
pub open spec fn all_quotes_wf(quotes: Seq<AssetQuote>) -> bool {
    forall|i: int| 0 <= i < quotes.len() ==> (#[trigger] quotes[i]).wf()
}

/// Whether a value quoted in `quote_currency` is converted for `target`.
pub open spec fn needs_conversion(target: Option<Currency>, quote_currency: Currency) -> bool {
    target matches Some(c) && c != quote_currency
}

/// Whether an asset quoted in `quote_currency` needs an exchange rate for the
/// target currency: where a target is given and differs from it.
pub fn needs_exchange_rate(target: Option<Currency>, quote_currency: Currency) -> (r: bool)
    ensures
        r == needs_conversion(target, quote_currency),
{
    match target {
        Some(c) => c != quote_currency,
        None => false,
    }
}

/// Market value of one asset in the target currency: converted with the
/// quote's exchange rate where the target differs from the quote currency.
pub open spec fn asset_value(txs: Seq<Transaction>, target: Option<Currency>, q: AssetQuote) -> Option<Decimal> {
    match spec_market_value(txs, q.ticker@, q.price) {
        Some(mv) => if needs_conversion(target, q.currency) {
            spec_mul(mv, q.exchange_rate)
        } else {
            Some(mv)
        },
        None => None,
    }
}

pub open spec fn portfolio_step(acc: Decimal, q: AssetQuote, txs: Seq<Transaction>, target: Option<Currency>) -> Option<Decimal> {
    match asset_value(txs, target, q) {
        Some(v) => spec_add(acc, v),
        None => None,
    }
}

pub open spec fn portfolio_step_fn(txs: Seq<Transaction>, target: Option<Currency>) -> spec_fn(Decimal, AssetQuote) -> Option<Decimal> {
    |acc: Decimal, q: AssetQuote| portfolio_step(acc, q, txs, target)
}

/// Portfolio value: the assets' market values in the target currency, summed
/// in the order of the quotes from `0`.
pub open spec fn spec_portfolio_value(txs: Seq<Transaction>, target: Option<Currency>, quotes: Seq<AssetQuote>) -> Option<Decimal> {
    fold_opt(quotes, zero0(), portfolio_step_fn(txs, target))
}

/// Market value of the ticker's held shares in EUR: converted with the rate
/// from its quote currency to EUR where that currency is not EUR.
pub open spec fn spec_market_value_eur(
    txs: Seq<Transaction>,
    ticker: Seq<char>,
    price: Decimal,
    currency: Currency,
    rate: Decimal,
) -> Option<Decimal> {
    match spec_market_value(txs, ticker, price) {
        Some(mv) => if needs_conversion(Some(Currency::EUR), currency) {
            spec_mul(mv, rate)
        } else {
            Some(mv)
        },
        None => None,
    }
}

/// Portfolio weight of the ticker in percent: its market value in EUR over
/// the portfolio value in EUR, times 100.
pub open spec fn spec_portfolio_weight(
    txs: Seq<Transaction>,
    ticker: Seq<char>,
    price: Decimal,
    currency: Currency,
    rate: Decimal,
    quotes: Seq<AssetQuote>,
) -> Option<Decimal> {
    match (spec_market_value_eur(txs, ticker, price, currency, rate), spec_portfolio_value(txs, Some(Currency::EUR), quotes)) {
        (Some(mv), Some(pv)) => match spec_div(mv, pv) {
            Some(q) => spec_mul(q, hundred()),
            None => None,
        },
        _ => None,
    }
}

/// The tickers of the quotes, in order.
pub open spec fn quote_tickers(quotes: Seq<AssetQuote>) -> Seq<Seq<char>> {
    quotes.map_values(|q: AssetQuote| q.ticker@)
}

/// The quotes are one per ticker of the transactions, each ticker once, in
/// the order of its first transaction.
pub open spec fn quotes_cover(txs: Seq<Transaction>, quotes: Seq<AssetQuote>) -> bool {
    quote_tickers(quotes) == first_occurrences(tickers_of(txs))
}

/*
 *  Computations that report overflow
 */

fn shares_opt(txs: &[Transaction], ticker: &String) -> (r: Option<(Decimal, Decimal)>)
    requires
        all_wf(txs@),
    ensures
        r == spec_shares(txs@, ticker@),
        r matches Some(p) ==> p.0.wf() && p.1.wf(),
{
    let ghost f = shares_step_fn(ticker@);
    let ghost init = (zero0(), zero0());
    let mut buy = Decimal::zero(0);
    let mut sell = Decimal::zero(0);
    let mut i: usize = 0;
    while i < txs.len()
        invariant
            i <= txs.len(),
            all_wf(txs@),
            buy.wf(),
            sell.wf(),
            f == shares_step_fn(ticker@),
            init == (zero0(), zero0()),
            fold_opt(txs@.take(i as int), init, f) == Some((buy, sell)),
        decreases txs.len() - i,
    {
        proof {
            lemma_fold_opt_step(txs@, init, f, i as int);
        }
        let t = &txs[i];
        assert(t.wf());
        if t.ticker == *ticker {
            match t.transaction_type {
                TransactionType::Buy => match buy.checked_add(t.quantity) {
                    Some(b) => {
                        buy = b;
                    },
                    None => {
                        proof {
                            lemma_fold_opt_none(txs@, init, f, i as int + 1);
                        }
                        return None;
                    },
                },
                TransactionType::Sell => match sell.checked_add(t.quantity) {
                    Some(s) => {
                        sell = s;
                    },
                    None => {
                        proof {
                            lemma_fold_opt_none(txs@, init, f, i as int + 1);
                        }
                        return None;
                    },
                },
            }
        }
        i = i + 1;
    }
    proof {
        lemma_fold_opt_full(txs@, init, f);
    }
    Some((buy, sell))
}

fn total_cost_opt(txs: &[Transaction], ticker: &String) -> (r: Option<Decimal>)
    requires
        all_wf(txs@),
    ensures
        r == spec_total_cost(txs@, ticker@),
        r matches Some(c) ==> c.wf(),
{
    let ghost f = cost_step_fn(ticker@);
    let mut total = Decimal::zero(1);
    let mut i: usize = 0;
    while i < txs.len()
        invariant
            i <= txs.len(),
            all_wf(txs@),
            total.wf(),
            f == cost_step_fn(ticker@),
            fold_opt(txs@.take(i as int), zero1(), f) == Some(total),
        decreases txs.len() - i,
    {
        proof {
            lemma_fold_opt_step(txs@, zero1(), f, i as int);
        }
        let t = &txs[i];
        assert(t.wf());
        if t.ticker == *ticker && t.transaction_type == TransactionType::Buy {
            let step = match t.quantity.checked_mul(t.price) {
                Some(v) => match v.checked_add(t.fees) {
                    Some(c) => total.checked_add(c),
                    None => None,
                },
                None => None,
            };
            match step {
                Some(n) => {
                    total = n;
                },
                None => {
                    proof {
                        lemma_fold_opt_none(txs@, zero1(), f, i as int + 1);
                    }
                    return None;
                },
            }
        }
        i = i + 1;
    }
    proof {
        lemma_fold_opt_full(txs@, zero1(), f);
    }
    Some(total)
}

fn avg_cost_opt(txs: &[Transaction], ticker: &String) -> (r: Option<Decimal>)
    requires
        all_wf(txs@),
    ensures
        r == spec_avg_cost(txs@, ticker@),
        r matches Some(c) ==> c.wf(),
{
    let shares = shares_opt(txs, ticker);
    let cost = total_cost_opt(txs, ticker);
    match (shares, cost) {
        (Some((buy, _)), Some(total)) => {
            if buy.is_zero() {
                Some(Decimal::zero(1))
            } else {
                total.checked_div(buy)
            }
        },
        _ => None,
    }
}

fn market_value_opt(txs: &[Transaction], ticker: &String, price: Decimal) -> (r: Option<Decimal>)
    requires
        all_wf(txs@),
        price.wf(),
    ensures
        r == spec_market_value(txs@, ticker@, price),
        r matches Some(c) ==> c.wf(),
{
    match shares_opt(txs, ticker) {
        Some((buy, sell)) => match buy.checked_sub(sell) {
            Some(held) => price.checked_mul(held),
            None => None,
        },
        None => None,
    }
}

fn cost_basis_opt(txs: &[Transaction], ticker: &String) -> (r: Option<Decimal>)
    requires
        all_wf(txs@),
    ensures
        r == spec_cost_basis(txs@, ticker@),
        r matches Some(c) ==> c.wf(),
{
    match (avg_cost_opt(txs, ticker), shares_opt(txs, ticker)) {
        (Some(avg), Some((buy, _))) => avg.checked_mul(buy),
        _ => None,
    }
}

fn unrealized_gain_opt(txs: &[Transaction], ticker: &String, price: Decimal) -> (r: Option<Decimal>)
    requires
        all_wf(txs@),
        price.wf(),
    ensures
        r == spec_unrealized_gain(txs@, ticker@, price),
        r matches Some(c) ==> c.wf(),
{
    match (market_value_opt(txs, ticker, price), avg_cost_opt(txs, ticker)) {
        (Some(mv), Some(avg)) => mv.checked_sub(avg),
        _ => None,
    }
}

fn unrealized_gain_perc_opt(txs: &[Transaction], ticker: &String, price: Decimal) -> (r: Option<Decimal>)
    requires
        all_wf(txs@),
        price.wf(),
    ensures
        r == spec_unrealized_gain_perc(txs@, ticker@, price),
        r matches Some(c) ==> c.wf(),
{
    match (unrealized_gain_opt(txs, ticker, price), avg_cost_opt(txs, ticker)) {
        (Some(gain), Some(avg)) => match gain.checked_div(avg) {
            Some(q) => q.checked_mul(Decimal::from_u32(100)),
            None => None,
        },
        _ => None,
    }
}

fn sale_value_opt(txs: &[Transaction], ticker: &String) -> (r: Option<Decimal>)
    requires
        all_wf(txs@),
    ensures
        r == spec_sale_value(txs@, ticker@),
        r matches Some(c) ==> c.wf(),
{
    let ghost f = sale_step_fn(ticker@);
    let mut total = Decimal::zero(0);
    let mut i: usize = 0;
    while i < txs.len()
        invariant
            i <= txs.len(),
            all_wf(txs@),
            total.wf(),
            f == sale_step_fn(ticker@),
            fold_opt(txs@.take(i as int), zero0(), f) == Some(total),
        decreases txs.len() - i,
    {
        proof {
            lemma_fold_opt_step(txs@, zero0(), f, i as int);
        }
        let t = &txs[i];
        assert(t.wf());
        if t.ticker == *ticker {
            let step = match t.transaction_type {
                TransactionType::Sell => match t.quantity.checked_mul(t.price) {
                    Some(v) => match v.checked_sub(t.fees) {
                        Some(net) => total.checked_add(net),
                        None => None,
                    },
                    None => None,
                },
                TransactionType::Buy => total.checked_add(Decimal::zero(0)),
            };
            match step {
                Some(n) => {
                    total = n;
                },
                None => {
                    proof {
                        lemma_fold_opt_none(txs@, zero0(), f, i as int + 1);
                    }
                    return None;
                },
            }
        }
        i = i + 1;
    }
    proof {
        lemma_fold_opt_full(txs@, zero0(), f);
    }
    Some(total)
}

fn realized_gains_opt(txs: &[Transaction], ticker: &String) -> (r: Option<Decimal>)
    requires
        all_wf(txs@),
    ensures
        r == spec_realized_gains(txs@, ticker@),
        r matches Some(c) ==> c.wf(),
{
    match (shares_opt(txs, ticker), sale_value_opt(txs, ticker), avg_cost_opt(txs, ticker)) {
        (Some((_, sold)), Some(sale), Some(avg)) => match avg.checked_mul(sold) {
            Some(cost) => sale.checked_sub(cost),
            None => None,
        },
        _ => None,
    }
}

fn gross_dividends_opt(divs: &[Dividend], ticker: &String) -> (r: Option<Decimal>)
    requires
        all_dividends_wf(divs@),
    ensures
        r == spec_gross_dividends(divs@, ticker@),
        r matches Some(c) ==> c.wf(),
{
    let ghost f = gross_step_fn(ticker@);
    let mut total = Decimal::zero(0);
    let mut i: usize = 0;
    while i < divs.len()
        invariant
            i <= divs.len(),
            all_dividends_wf(divs@),
            total.wf(),
            f == gross_step_fn(ticker@),
            fold_opt(divs@.take(i as int), zero0(), f) == Some(total),
        decreases divs.len() - i,
    {
        proof {
            lemma_fold_opt_step(divs@, zero0(), f, i as int);
        }
        let d = &divs[i];
        assert(d.wf());
        if d.ticker == *ticker {
            match total.checked_add(d.amount) {
                Some(n) => {
                    total = n;
                },
                None => {
                    proof {
                        lemma_fold_opt_none(divs@, zero0(), f, i as int + 1);
                    }
                    return None;
                },
            }
        }
        i = i + 1;
    }
    proof {
        lemma_fold_opt_full(divs@, zero0(), f);
    }
    Some(total)
}

fn net_dividends_opt(divs: &[Dividend], ticker: &String) -> (r: Option<Decimal>)
    requires
        all_dividends_wf(divs@),
    ensures
        r == spec_net_dividends(divs@, ticker@),
        r matches Some(c) ==> c.wf(),
{
    let ghost f = net_step_fn(ticker@);
    let mut total = Decimal::zero(0);
    let mut i: usize = 0;
    while i < divs.len()
        invariant
            i <= divs.len(),
            all_dividends_wf(divs@),
            total.wf(),
            f == net_step_fn(ticker@),
            fold_opt(divs@.take(i as int), zero0(), f) == Some(total),
        decreases divs.len() - i,
    {
        proof {
            lemma_fold_opt_step(divs@, zero0(), f, i as int);
        }
        let d = &divs[i];
        assert(d.wf());
        if d.ticker == *ticker {
            let step = match d.amount.checked_sub(d.taxes) {
                Some(net) => total.checked_add(net),
                None => None,
            };
            match step {
                Some(n) => {
                    total = n;
                },
                None => {
                    proof {
                        lemma_fold_opt_none(divs@, zero0(), f, i as int + 1);
                    }
                    return None;
                },
            }
        }
        i = i + 1;
    }
    proof {
        lemma_fold_opt_full(divs@, zero0(), f);
    }
    Some(total)
}

fn total_return_opt(txs: &[Transaction], divs: &[Dividend], ticker: &String, price: Decimal) -> (r: Option<Decimal>)
    requires
        all_wf(txs@),
        all_dividends_wf(divs@),
        price.wf(),
    ensures
        r == spec_total_return(txs@, divs@, ticker@, price),
        r matches Some(c) ==> c.wf(),
{
    match (unrealized_gain_opt(txs, ticker, price), realized_gains_opt(txs, ticker), net_dividends_opt(divs, ticker)) {
        (Some(u), Some(r), Some(n)) => match u.checked_add(r) {
            Some(s) => s.checked_add(n),
            None => None,
        },
        _ => None,
    }
}

fn portfolio_value_opt(txs: &[Transaction], target: Option<Currency>, quotes: &[AssetQuote]) -> (r: Option<Decimal>)
    requires
        all_wf(txs@),
        all_quotes_wf(quotes@),
    ensures
        r == spec_portfolio_value(txs@, target, quotes@),
        r matches Some(c) ==> c.wf(),
{
    let ghost f = portfolio_step_fn(txs@, target);
    let mut total = Decimal::zero(0);
    let mut i: usize = 0;
    while i < quotes.len()
        invariant
            i <= quotes.len(),
            all_wf(txs@),
            all_quotes_wf(quotes@),
            total.wf(),
            f == portfolio_step_fn(txs@, target),
            fold_opt(quotes@.take(i as int), zero0(), f) == Some(total),
        decreases quotes.len() - i,
    {
        proof {
            lemma_fold_opt_step(quotes@, zero0(), f, i as int);
        }
        let q = &quotes[i];
        assert(q.wf());
        let value = match market_value_opt(txs, &q.ticker, q.price) {
            Some(mv) => {
                let convert = match target {
                    Some(c) => c != q.currency,
                    None => false,
                };
                if convert {
                    mv.checked_mul(q.exchange_rate)
                } else {
                    Some(mv)
                }
            },
            None => None,
        };
        let step = match value {
            Some(v) => total.checked_add(v),
            None => None,
        };
        match step {
            Some(n) => {
                total = n;
            },
            None => {
                proof {
                    lemma_fold_opt_none(quotes@, zero0(), f, i as int + 1);
                }
                return None;
            },
        }
        i = i + 1;
    }
    proof {
        lemma_fold_opt_full(quotes@, zero0(), f);
    }
    Some(total)
}

fn market_value_eur_opt(txs: &[Transaction], ticker: &String, price: Decimal, currency: Currency, rate: Decimal) -> (r: Option<Decimal>)
    requires
        all_wf(txs@),
        price.wf(),
        rate.wf(),
    ensures
        r == spec_market_value_eur(txs@, ticker@, price, currency, rate),
        r matches Some(c) ==> c.wf(),
{
    match market_value_opt(txs, ticker, price) {
        Some(mv) => if needs_exchange_rate(Some(Currency::EUR), currency) {
            mv.checked_mul(rate)
        } else {
            Some(mv)
        },
        None => None,
    }
}

fn portfolio_weight_opt(
    txs: &[Transaction],
    ticker: &String,
    price: Decimal,
    currency: Currency,
    rate: Decimal,
    quotes: &[AssetQuote],
) -> (r: Option<Decimal>)
    requires
        all_wf(txs@),
        all_quotes_wf(quotes@),
        price.wf(),
        rate.wf(),
    ensures
        r == spec_portfolio_weight(txs@, ticker@, price, currency, rate, quotes@),
        r matches Some(c) ==> c.wf(),
{
    match (market_value_eur_opt(txs, ticker, price, currency, rate), portfolio_value_opt(txs, Some(Currency::EUR), quotes)) {
        (Some(mv), Some(pv)) => match mv.checked_div(pv) {
            Some(q) => q.checked_mul(Decimal::from_u32(100)),
            None => None,
        },
        _ => None,
    }
}

/*
 *  The figures
 */

/// Calculates the quantities of bought and sold shares of the ticker and
/// returns them as (bought, sold).
pub fn calc_shares(transactions: &[Transaction], ticker: &str) -> (r: (Decimal, Decimal))
    requires
        all_wf(transactions@),
        spec_shares(transactions@, ticker@) is Some,
    ensures
        r == spec_shares(transactions@, ticker@).unwrap(),
        r.0.wf() && r.1.wf(),
{
    let ticker = text::owned(ticker);
    shares_opt(transactions, &ticker).unwrap()
}

/// Average cost of the ticker's bought shares: the buys' quantity times
/// price plus fees, over the bought quantity; `0.0` where nothing was bought.
pub fn calc_avg_cost(transactions: &[Transaction], ticker: &str) -> (r: Decimal)
    requires
        all_wf(transactions@),
        spec_avg_cost(transactions@, ticker@) is Some,
    ensures
        r == spec_avg_cost(transactions@, ticker@).unwrap(),
        r.wf(),
{
    let ticker = text::owned(ticker);
    avg_cost_opt(transactions, &ticker).unwrap()
}

/// Cost basis of the ticker: average cost times the bought quantity.
pub fn calc_cost_basis(transactions: &[Transaction], ticker: &str) -> (r: Result<Decimal, CalcError>)
    requires
        all_wf(transactions@),
        spec_cost_basis(transactions@, ticker@) is Some,
    ensures
        r == Ok::<Decimal, CalcError>(spec_cost_basis(transactions@, ticker@).unwrap()),
        r matches Ok(c) ==> c.wf(),
{
    let avg_cost = calc_avg_cost(transactions, ticker);
    let (num_shares, _) = calc_shares(transactions, ticker);
    Ok(avg_cost.checked_mul(num_shares).unwrap())
}

/// Unrealized gain of the ticker at the current price: market value minus
/// average cost.
pub fn calc_unrealized_gain(transactions: &[Transaction], ticker: &str, current_price: Decimal) -> (r: Result<Decimal, CalcError>)
    requires
        all_wf(transactions@),
        current_price.wf(),
        spec_unrealized_gain(transactions@, ticker@, current_price) is Some,
    ensures
        r == Ok::<Decimal, CalcError>(spec_unrealized_gain(transactions@, ticker@, current_price).unwrap()),
        r matches Ok(c) ==> c.wf(),
{
    let market_value = calc_market_value(transactions, ticker, current_price).unwrap();
    let cost_basis = calc_avg_cost(transactions, ticker);
    Ok(market_value.checked_sub(cost_basis).unwrap())
}

/// Unrealized gain of the ticker in percent of its average cost.
pub fn calc_unrealized_gain_prec(transactions: &[Transaction], ticker: &str, current_price: Decimal) -> (r: Result<Decimal, CalcError>)
    requires
        all_wf(transactions@),
        current_price.wf(),
        spec_unrealized_gain_perc(transactions@, ticker@, current_price) is Some,
    ensures
        r == Ok::<Decimal, CalcError>(spec_unrealized_gain_perc(transactions@, ticker@, current_price).unwrap()),
        r matches Ok(c) ==> c.wf(),
{
    let unrealized_gain = calc_unrealized_gain(transactions, ticker, current_price).unwrap();
    let cost_basis = calc_avg_cost(transactions, ticker);
    Ok(unrealized_gain.checked_div(cost_basis).unwrap().checked_mul(Decimal::from_u32(100)).unwrap())
}

/// Market value of the ticker's shares held (bought minus sold) at the current price.
pub fn calc_market_value(transactions: &[Transaction], ticker: &str, current_price: Decimal) -> (r: Result<Decimal, CalcError>)
    requires
        all_wf(transactions@),
        current_price.wf(),
        spec_market_value(transactions@, ticker@, current_price) is Some,
    ensures
        r == Ok::<Decimal, CalcError>(spec_market_value(transactions@, ticker@, current_price).unwrap()),
        r matches Ok(c) ==> c.wf(),
{
    let (buy, sell) = calc_shares(transactions, ticker);
    let held = buy.checked_sub(sell).unwrap();
    Ok(current_price.checked_mul(held).unwrap())
}

/// Proceeds of the ticker's sells: quantity times price minus fees, summed.
pub fn calc_sale_value(transactions: &[Transaction], ticker: &str) -> (r: Result<Decimal, CalcError>)
    requires
        all_wf(transactions@),
        spec_sale_value(transactions@, ticker@) is Some,
    ensures
        r == Ok::<Decimal, CalcError>(spec_sale_value(transactions@, ticker@).unwrap()),
        r matches Ok(c) ==> c.wf(),
{
    let ticker = text::owned(ticker);
    Ok(sale_value_opt(transactions, &ticker).unwrap())
}

/// Realized gains of the ticker: sale proceeds minus the average cost of the
/// sold shares.
pub fn calc_realized_gains(transactions: &[Transaction], ticker: &str) -> (r: Result<Decimal, CalcError>)
    requires
        all_wf(transactions@),
        spec_realized_gains(transactions@, ticker@) is Some,
    ensures
        r == Ok::<Decimal, CalcError>(spec_realized_gains(transactions@, ticker@).unwrap()),
        r matches Ok(c) ==> c.wf(),
{
    let (_, sold_quantity) = calc_shares(transactions, ticker);
    let sale_value = calc_sale_value(transactions, ticker).unwrap();
    let avg_cost = calc_avg_cost(transactions, ticker);
    Ok(sale_value.checked_sub(avg_cost.checked_mul(sold_quantity).unwrap()).unwrap())
}

/// Value of the portfolio in the target currency: for each ticker of the
/// transactions (each once, one quote each), its market value, converted where
/// the target differs from its quote currency, summed in the order of the
/// quotes.
pub fn calc_portfolio_value(
    transactions: &[Transaction],
    target_currency: Option<Currency>,
    quotes: &[AssetQuote],
) -> (r: Result<Decimal, CalcError>)
    requires
        all_wf(transactions@),
        all_quotes_wf(quotes@),
        quotes_cover(transactions@, quotes@),
        spec_portfolio_value(transactions@, target_currency, quotes@) is Some,
    ensures
        r == Ok::<Decimal, CalcError>(spec_portfolio_value(transactions@, target_currency, quotes@).unwrap()),
        r matches Ok(c) ==> c.wf(),
{
    Ok(portfolio_value_opt(transactions, target_currency, quotes).unwrap())
}

/// Portfolio weight of the ticker: how many percent of the portfolio value
/// in EUR is the ticker's market value in EUR. The asset is quoted in
/// `asset_currency`; `exchange_rate` converts that currency to EUR and is
/// used only where it is not EUR.
pub fn calc_portfolio_weight(
    transactions: &[Transaction],
    ticker: &str,
    current_asset_price: Decimal,
    asset_currency: Currency,
    exchange_rate: Decimal,
    quotes: &[AssetQuote],
) -> (r: Result<Decimal, CalcError>)
    requires
        all_wf(transactions@),
        all_quotes_wf(quotes@),
        quotes_cover(transactions@, quotes@),
        current_asset_price.wf(),
        exchange_rate.wf(),
        spec_portfolio_weight(transactions@, ticker@, current_asset_price, asset_currency, exchange_rate, quotes@) is Some,
    ensures
        r == Ok::<Decimal, CalcError>(
            spec_portfolio_weight(transactions@, ticker@, current_asset_price, asset_currency, exchange_rate, quotes@).unwrap(),
        ),
        r matches Ok(c) ==> c.wf(),
{
    let t = text::owned(ticker);
    let market_value = market_value_eur_opt(transactions, &t, current_asset_price, asset_currency, exchange_rate).unwrap();
    let portfolio_value = calc_portfolio_value(transactions, Some(Currency::EUR), quotes).unwrap();
    Ok(market_value.checked_div(portfolio_value).unwrap().checked_mul(Decimal::from_u32(100)).unwrap())
}

/// Gross dividends of the ticker: the amounts, summed.
pub fn calc_gross_dividends(dividends: &[Dividend], ticker: &str) -> (r: Decimal)
    requires
        all_dividends_wf(dividends@),
        spec_gross_dividends(dividends@, ticker@) is Some,
    ensures
        r == spec_gross_dividends(dividends@, ticker@).unwrap(),
        r.wf(),
{
    let ticker = text::owned(ticker);
    gross_dividends_opt(dividends, &ticker).unwrap()
}

/// Net dividends of the ticker: amount minus taxes, summed.
pub fn calc_net_dividends(dividends: &[Dividend], ticker: &str) -> (r: Decimal)
    requires
        all_dividends_wf(dividends@),
        spec_net_dividends(dividends@, ticker@) is Some,
    ensures
        r == spec_net_dividends(dividends@, ticker@).unwrap(),
        r.wf(),
{
    let ticker = text::owned(ticker);
    net_dividends_opt(dividends, &ticker).unwrap()
}

/// Total return of the ticker at the current price: unrealized gain plus
/// realized gains plus net dividends.
pub fn calc_total_return(
    transactions: &[Transaction],
    dividends: &[Dividend],
    ticker: &str,
    current_price: Decimal,
) -> (r: Result<Decimal, CalcError>)
    requires
        all_wf(transactions@),
        all_dividends_wf(dividends@),
        current_price.wf(),
        spec_total_return(transactions@, dividends@, ticker@, current_price) is Some,
    ensures
        r == Ok::<Decimal, CalcError>(spec_total_return(transactions@, dividends@, ticker@, current_price).unwrap()),
        r matches Ok(c) ==> c.wf(),
{
    let unrealized_gains = calc_unrealized_gain(transactions, ticker, current_price).unwrap();
    let realized_gains = calc_realized_gains(transactions, ticker).unwrap();
    let net_dividends = calc_net_dividends(dividends, ticker);
    Ok(unrealized_gains.checked_add(realized_gains).unwrap().checked_add(net_dividends).unwrap())
}

/*
 *  The same figures where an overflow is possible
 */

/// The total return, or `Overflow` where a step of its calculation overflows.
pub fn checked_total_return(
    transactions: &[Transaction],
    dividends: &[Dividend],
    ticker: &str,
    current_price: Decimal,
) -> (r: Result<Decimal, CalcError>)
    requires
        all_wf(transactions@),
        all_dividends_wf(dividends@),
        current_price.wf(),
    ensures
        r == (match spec_total_return(transactions@, dividends@, ticker@, current_price) {
            Some(v) => Ok::<Decimal, CalcError>(v),
            None => Err(CalcError::Overflow),
        }),
{
    let t = text::owned(ticker);
    match total_return_opt(transactions, dividends, &t, current_price) {
        Some(_) => calc_total_return(transactions, dividends, ticker, current_price),
        None => Err(CalcError::Overflow),
    }
}

/// The gross dividends, or `Overflow` where their sum overflows.
pub fn checked_gross_dividends(dividends: &[Dividend], ticker: &str) -> (r: Result<Decimal, CalcError>)
    requires
        all_dividends_wf(dividends@),
    ensures
        r == (match spec_gross_dividends(dividends@, ticker@) {
            Some(v) => Ok::<Decimal, CalcError>(v),
            None => Err(CalcError::Overflow),
        }),
{
    let t = text::owned(ticker);
    match gross_dividends_opt(dividends, &t) {
        Some(_) => Ok(calc_gross_dividends(dividends, ticker)),
        None => Err(CalcError::Overflow),
    }
}

/// The portfolio weight, or `Overflow` where a step of its calculation
/// overflows or the portfolio value is zero.
pub fn checked_portfolio_weight(
    transactions: &[Transaction],
    ticker: &str,
    current_asset_price: Decimal,
    asset_currency: Currency,
    exchange_rate: Decimal,
    quotes: &[AssetQuote],
) -> (r: Result<Decimal, CalcError>)
    requires
        all_wf(transactions@),
        all_quotes_wf(quotes@),
        quotes_cover(transactions@, quotes@),
        current_asset_price.wf(),
        exchange_rate.wf(),
    ensures
        r == (match spec_portfolio_weight(transactions@, ticker@, current_asset_price, asset_currency, exchange_rate, quotes@) {
            Some(v) => Ok::<Decimal, CalcError>(v),
            None => Err(CalcError::Overflow),
        }),
{
    let t = text::owned(ticker);
    match portfolio_weight_opt(transactions, &t, current_asset_price, asset_currency, exchange_rate, quotes) {
        Some(_) => calc_portfolio_weight(transactions, ticker, current_asset_price, asset_currency, exchange_rate, quotes),
        None => Err(CalcError::Overflow),
    }
}

/// Whether the quotes are one per ticker of the transactions, each once, in
/// the order of its first transaction.
pub fn quotes_match_portfolio(transactions: &[Transaction], quotes: &[AssetQuote]) -> (r: bool)
    ensures
        r == quotes_cover(transactions@, quotes@),
{
    let tickers = portfolio_tickers(transactions);
    if tickers.len() != quotes.len() {
        proof {
            assert(texts_of(tickers@).len() == tickers@.len());
            assert(quote_tickers(quotes@).len() == quotes@.len());
        }
        return false;
    }
    let mut i: usize = 0;
    while i < quotes.len()
        invariant
            i <= quotes.len(),
            tickers.len() == quotes.len(),
            texts_of(tickers@) == first_occurrences(tickers_of(transactions@)),
            forall|j: int| 0 <= j < i ==> quote_tickers(quotes@)[j] == texts_of(tickers@)[j],
        decreases quotes.len() - i,
    {
        if quotes[i].ticker != tickers[i] {
            proof {
                assert(quote_tickers(quotes@)[i as int] != texts_of(tickers@)[i as int]);
            }
            return false;
        }
        i = i + 1;
    }
    proof {
        assert(quote_tickers(quotes@) =~= texts_of(tickers@));
    }
    true
}

pub(crate) fn checked_market_value(txs: &[Transaction], ticker: &String, price: Decimal) -> (r: Option<Decimal>)
    requires
        all_wf(txs@),
        price.wf(),
    ensures
        r == spec_market_value(txs@, ticker@, price),
        r matches Some(c) ==> c.wf(),
{
    market_value_opt(txs, ticker, price)
}

pub(crate) fn checked_portfolio_value(txs: &[Transaction], target: Option<Currency>, quotes: &[AssetQuote]) -> (r: Option<Decimal>)
    requires
        all_wf(txs@),
        all_quotes_wf(quotes@),
    ensures
        r == spec_portfolio_value(txs@, target, quotes@),
        r matches Some(c) ==> c.wf(),
{
    portfolio_value_opt(txs, target, quotes)
}

pub(crate) fn checked_shares(txs: &[Transaction], ticker: &String) -> (r: Option<(Decimal, Decimal)>)
    requires
        all_wf(txs@),
    ensures
        r == spec_shares(txs@, ticker@),
        r matches Some(p) ==> p.0.wf() && p.1.wf(),
{
    shares_opt(txs, ticker)
}

pub(crate) fn checked_avg_cost(txs: &[Transaction], ticker: &String) -> (r: Option<Decimal>)
    requires
        all_wf(txs@),
    ensures
        r == spec_avg_cost(txs@, ticker@),
        r matches Some(c) ==> c.wf(),
{
    avg_cost_opt(txs, ticker)
}

pub(crate) fn checked_cost_basis(txs: &[Transaction], ticker: &String) -> (r: Option<Decimal>)
    requires
        all_wf(txs@),
    ensures
        r == spec_cost_basis(txs@, ticker@),
        r matches Some(c) ==> c.wf(),
{
    cost_basis_opt(txs, ticker)
}

pub(crate) fn checked_unrealized_gain(txs: &[Transaction], ticker: &String, price: Decimal) -> (r: Option<Decimal>)
    requires
        all_wf(txs@),
        price.wf(),
    ensures
        r == spec_unrealized_gain(txs@, ticker@, price),
        r matches Some(c) ==> c.wf(),
{
    unrealized_gain_opt(txs, ticker, price)
}

pub(crate) fn checked_unrealized_gain_perc(txs: &[Transaction], ticker: &String, price: Decimal) -> (r: Option<Decimal>)
    requires
        all_wf(txs@),
        price.wf(),
    ensures
        r == spec_unrealized_gain_perc(txs@, ticker@, price),
        r matches Some(c) ==> c.wf(),
{
    unrealized_gain_perc_opt(txs, ticker, price)
}

pub(crate) fn checked_realized_gains(txs: &[Transaction], ticker: &String) -> (r: Option<Decimal>)
    requires
        all_wf(txs@),
    ensures
        r == spec_realized_gains(txs@, ticker@),
        r matches Some(c) ==> c.wf(),
{
    realized_gains_opt(txs, ticker)
}

} // verus!
