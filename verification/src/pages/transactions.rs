//! The transactions page: counts by type, filters and the transaction table.
use vstd::prelude::*;
use crate::app::AppState;
use crate::date::{naive_date_year, Date, MIN_DAYS};
use crate::text;
use crate::types::{CycleEnum, TimeFrame, Transaction, TransactionType};

verus! {

/// Which transaction types the table shows.
#[derive(Debug, Clone, Copy, PartialEq, Eq, Structural)]
pub enum TransactionTypeFilter {
    All,
    Buy,
    Sell,
}

impl CycleEnum for TransactionTypeFilter {
    open spec fn position(self) -> nat {
        match self {
            TransactionTypeFilter::All => 0nat,
            TransactionTypeFilter::Buy => 1nat,
            TransactionTypeFilter::Sell => 2nat,
        }
    }

    open spec fn count() -> nat {
        3nat
    }

    open spec fn at(p: nat) -> Self {
        if p == 0 {
            TransactionTypeFilter::All
        } else         if p == 1 {
            TransactionTypeFilter::Buy
        } else {
            TransactionTypeFilter::Sell
        }
    }

    proof fn lemma_count_positive() {
    }

    proof fn lemma_position_in_range(self) {
    }

    proof fn lemma_at_position(self) {
    }

    proof fn lemma_position_at(p: nat) {
    }

    fn next(self) -> (r: Self) {
        match self {
            TransactionTypeFilter::All => TransactionTypeFilter::Buy,
            TransactionTypeFilter::Buy => TransactionTypeFilter::Sell,
            TransactionTypeFilter::Sell => TransactionTypeFilter::All,
        }
    }

    fn previous(self) -> (r: Self) {
        match self {
            TransactionTypeFilter::All => TransactionTypeFilter::Sell,
            TransactionTypeFilter::Buy => TransactionTypeFilter::All,
            TransactionTypeFilter::Sell => TransactionTypeFilter::Buy,
        }
    }
}

impl Default for TransactionTypeFilter {
    fn default() -> (r: Self)
        ensures
            r == TransactionTypeFilter::All,
    {
        TransactionTypeFilter::All
    }
}

impl TransactionTypeFilter {
    /// The name of the filter.
    pub open spec fn name(self) -> Seq<char> {
        match self {
            TransactionTypeFilter::All => "All"@,
            TransactionTypeFilter::Buy => "Buy"@,
            TransactionTypeFilter::Sell => "Sell"@,
        }
    }

    /// The name of the filter: `All`, `Buy` or `Sell`.
    pub fn to_string(&self) -> (r: String)
        ensures
            r@ == self.name(),
    {
        match self {
            TransactionTypeFilter::All => text::owned("All"),
            TransactionTypeFilter::Buy => text::owned("Buy"),
            TransactionTypeFilter::Sell => text::owned("Sell"),
        }
    }
}

/// The time frame by which transactions are filtered.
pub type Period = TimeFrame;

/// Filters of the transaction table.
#[derive(Debug, Clone)]
pub struct TransactionFilters {
    pub period: Period,
    pub transaction_type: TransactionTypeFilter,
    /// Part of the ticker, in any letter case; empty shows all tickers.
    pub ticker: String,
}

impl Default for TransactionFilters {
    fn default() -> (r: Self)
        ensures
            r.period == TimeFrame::OneMonth,
            r.transaction_type == TransactionTypeFilter::All,
            r.ticker@ == Seq::<char>::empty(),
    {
        TransactionFilters {
            period: TimeFrame::default(),
            transaction_type: TransactionTypeFilter::default(),
            ticker: String::new(),
        }
    }
}

/// State of the transactions page.
#[derive(Debug, Clone)]
pub struct TransactionPage {
    pub filters: TransactionFilters,
}

impl Default for TransactionPage {
    fn default() -> (r: Self)
        ensures
            r.filters.period == TimeFrame::OneMonth,
            r.filters.transaction_type == TransactionTypeFilter::All,
            r.filters.ticker@ == Seq::<char>::empty(),
    {
        TransactionPage { filters: TransactionFilters::default() }
    }
}

/// The fields of the transactions page that take the focus, in order.
#[derive(Debug, Clone, Copy, PartialEq, Eq, Structural)]
pub enum InputFocus {
    Period,
    TransactionType,
    Ticker,
    Table,
}

impl CycleEnum for InputFocus {
    open spec fn position(self) -> nat {
        match self {
            InputFocus::Period => 0nat,
            InputFocus::TransactionType => 1nat,
            InputFocus::Ticker => 2nat,
            InputFocus::Table => 3nat,
        }
    }

    open spec fn count() -> nat {
        4nat
    }

    open spec fn at(p: nat) -> Self {
        if p == 0 {
            InputFocus::Period
        } else         if p == 1 {
            InputFocus::TransactionType
        } else         if p == 2 {
            InputFocus::Ticker
        } else {
            InputFocus::Table
        }
    }

    proof fn lemma_count_positive() {
    }

    proof fn lemma_position_in_range(self) {
    }

    proof fn lemma_at_position(self) {
    }

    proof fn lemma_position_at(p: nat) {
    }

    fn next(self) -> (r: Self) {
        match self {
            InputFocus::Period => InputFocus::TransactionType,
            InputFocus::TransactionType => InputFocus::Ticker,
            InputFocus::Ticker => InputFocus::Table,
            InputFocus::Table => InputFocus::Period,
        }
    }

    fn previous(self) -> (r: Self) {
        match self {
            InputFocus::Period => InputFocus::Table,
            InputFocus::TransactionType => InputFocus::Period,
            InputFocus::Ticker => InputFocus::TransactionType,
            InputFocus::Table => InputFocus::Ticker,
        }
    }
}

impl InputFocus {
    /// The variant at position `index` in declaration order, if there is one.
    pub fn from_repr(index: usize) -> (r: Option<Self>)
        ensures
            index < 4 ==> r == Some(<InputFocus as CycleEnum>::at(index as nat)),
            index >= 4 ==> r is None,
    {
        if index == 0 {
            Some(InputFocus::Period)
        } else         if index == 1 {
            Some(InputFocus::TransactionType)
        } else         if index == 2 {
            Some(InputFocus::Ticker)
        } else         if index == 3 {
            Some(InputFocus::Table)
        } else {
            None
        }
    }
}

impl Default for InputFocus {
    fn default() -> (r: Self)
        ensures
            r == InputFocus::Period,
    {
        InputFocus::Period
    }
}

/// Whether the focused field (if any) is `check`.
pub fn is_currently_focused(current: Option<&InputFocus>, check: InputFocus) -> (r: bool)
    ensures
        r == (current matches Some(f) && *f == check),
{
    if let Some(focus) = current {
        return *focus == check;
    }
    false
}

/// Number of buys among the transactions.
pub open spec fn count_buys(tx: Seq<Transaction>) -> nat
    decreases tx.len(),
{
    if tx.len() == 0 {
        0
    } else {
        count_buys(tx.drop_last()) + if tx.last().transaction_type == TransactionType::Buy { 1nat } else { 0nat }
    }
}

/// Number of sells among the transactions.
pub open spec fn count_sells(tx: Seq<Transaction>) -> nat
    decreases tx.len(),
{
    if tx.len() == 0 {
        0
    } else {
        count_sells(tx.drop_last()) + if tx.last().transaction_type == TransactionType::Sell { 1nat } else { 0nat }
    }
}

proof fn lemma_counts_bounded(tx: Seq<Transaction>)
    ensures
        count_buys(tx) + count_sells(tx) == tx.len(),
    decreases tx.len(),
{
    if tx.len() > 0 {
        lemma_counts_bounded(tx.drop_last());
    }
}

/// Numbers of buys and of sells among the transactions, as (buys, sells).
pub fn get_transaction_type_count(tx: &[Transaction]) -> (r: (u64, u64))
    ensures
        r.0 == count_buys(tx@),
        r.1 == count_sells(tx@),
        r.0 + r.1 == tx@.len(),
{
    let mut buy_transactions: u64 = 0;
    let mut sell_transactions: u64 = 0;
    let mut i: usize = 0;
    while i < tx.len()
        invariant
            i <= tx.len(),
            buy_transactions == count_buys(tx@.take(i as int)),
            sell_transactions == count_sells(tx@.take(i as int)),
        decreases tx.len() - i,
    {
        proof {
            assert(tx@.take(i + 1).drop_last() =~= tx@.take(i as int));
            lemma_counts_bounded(tx@.take(i as int));
        }
        match tx[i].transaction_type {
            TransactionType::Buy => buy_transactions = buy_transactions + 1,
            TransactionType::Sell => sell_transactions = sell_transactions + 1,
        }
        i = i + 1;
    }
    proof {
        assert(tx@.take(tx.len() as int) =~= tx@);
        lemma_counts_bounded(tx@);
    }
    (buy_transactions, sell_transactions)
}

/// How many days back a period reaches; `None` for the periods that are not
/// a fixed number of days (year to date, and those that show everything).
pub open spec fn period_days(p: TimeFrame) -> Option<i32> {
    match p {
        TimeFrame::OneDay => Some(1i32),
        TimeFrame::OneWeek => Some(7i32),
        TimeFrame::OneMonth => Some(30i32),
        TimeFrame::ThreeMonth => Some(90i32),
        TimeFrame::SixMonth => Some(180i32),
        TimeFrame::OneYear => Some(365i32),
        TimeFrame::FiveYear => Some(1825i32),
        _ => None,
    }
}

/// The transaction falls into the period that ends today.
pub open spec fn in_period(tx: Transaction, p: TimeFrame, today: Date) -> bool {
    match period_days(p) {
        Some(n) => tx.trade_date.days_from_ce >= today.days_from_ce - n,
        None => p == TimeFrame::YearToDate ==> naive_date_year(tx.trade_date.days_from_ce) == naive_date_year(today.days_from_ce),
    }
}

/// The transaction has the type that the filter shows.
pub open spec fn of_type(tx: Transaction, f: TransactionTypeFilter) -> bool {
    match f {
        TransactionTypeFilter::All => true,
        TransactionTypeFilter::Buy => tx.transaction_type == TransactionType::Buy,
        TransactionTypeFilter::Sell => tx.transaction_type == TransactionType::Sell,
    }
}

/// The transaction's ticker contains the filter's ticker, both in lower case.
pub open spec fn of_ticker(tx: Transaction, ticker: Seq<char>) -> bool {
    let t = text::str_to_lowercase(ticker);
    t.len() == 0 || text::seq_contains_run(text::str_to_lowercase(tx.ticker@), t)
}

/// The transaction passes all three filters.
pub open spec fn passes(tx: Transaction, filters: TransactionFilters, today: Date) -> bool {
    in_period(tx, filters.period, today) && of_type(tx, filters.transaction_type) && of_ticker(tx, filters.ticker@)
}

/// The transactions that pass the filters, in order.
pub open spec fn filtered(txs: Seq<Transaction>, filters: TransactionFilters, today: Date) -> Seq<Transaction>
    decreases txs.len(),
{
    if txs.len() == 0 {
        txs
    } else {
        let rest = filtered(txs.drop_last(), filters, today);
        if passes(txs.last(), filters, today) {
            rest.push(txs.last())
        } else {
            rest
        }
    }
}

/// Keeps the transactions that fall into the period ending `today`, have the
/// type and contain the ticker text (ignoring letter case) that the page's
/// filters select.
pub fn filter_transactions(app: &AppState, transactions: &mut Vec<Transaction>, today: Date)
    requires
        today.wf(),
        forall|i: int| 0 <= i < old(transactions)@.len() ==> (#[trigger] old(transactions)@[i]).wf(),
        old(transactions)@.len() > 0 ==> match period_days(app.transaction_page.filters.period) {
            Some(n) => today.days_from_ce - n >= MIN_DAYS,
            None => true,
        },
    ensures
        final(transactions)@ == filtered(old(transactions)@, app.transaction_page.filters, today),
{
    let filters = &app.transaction_page.filters;
    let ticker = text::to_lowercase(filters.ticker.as_str());
    let mut kept: Vec<Transaction> = Vec::new();
    let ghost all = transactions@;
    let n = transactions.len();
    let mut rest: Vec<Transaction> = Vec::new();
    std::mem::swap(&mut rest, transactions);
    let mut i: usize = 0;
    while i < n
        invariant
            n == all.len(),
            rest@ == all,
            i <= n,
            today.wf(),
            forall|j: int| 0 <= j < all.len() ==> (#[trigger] all[j]).wf(),
            all.len() > 0 ==> match period_days(filters.period) {
                Some(d) => today.days_from_ce - d >= MIN_DAYS,
                None => true,
            },
            ticker@ == text::str_to_lowercase(filters.ticker@),
            kept@ == filtered(all.take(i as int), *filters, today),
        decreases n - i,
    {
        proof {
            assert(all.take(i + 1).drop_last() =~= all.take(i as int));
        }
        let tx = &rest[i];
        assert(tx.wf());
        let matches_period = match filters.period {
            TimeFrame::OneDay => tx.trade_date.days_from_ce >= today.minus_days(1).days_from_ce,
            TimeFrame::OneWeek => tx.trade_date.days_from_ce >= today.minus_days(7).days_from_ce,
            TimeFrame::OneMonth => tx.trade_date.days_from_ce >= today.minus_days(30).days_from_ce,
            TimeFrame::ThreeMonth => tx.trade_date.days_from_ce >= today.minus_days(90).days_from_ce,
            TimeFrame::SixMonth => tx.trade_date.days_from_ce >= today.minus_days(180).days_from_ce,
            TimeFrame::YearToDate => tx.trade_date.year() == today.year(),
            TimeFrame::OneYear => tx.trade_date.days_from_ce >= today.minus_days(365).days_from_ce,
            TimeFrame::FiveYear => tx.trade_date.days_from_ce >= today.minus_days(1825).days_from_ce,
            TimeFrame::Max => true,
            TimeFrame::OneMinute | TimeFrame::OneHour => true,
        };
        let matches_type = match filters.transaction_type {
            TransactionTypeFilter::All => true,
            TransactionTypeFilter::Sell => tx.transaction_type == TransactionType::Sell,
            TransactionTypeFilter::Buy => tx.transaction_type == TransactionType::Buy,
        };
        let matches_ticker = ticker.as_str().is_empty() || text::contains(text::to_lowercase(tx.ticker.as_str()).as_str(), ticker.as_str());
        if matches_period && matches_type && matches_ticker {
            kept.push(tx.copy());
        }
        i = i + 1;
    }
    proof {
        assert(all.take(n as int) =~= all);
    }
    *transactions = kept;
}

/// The place of a transaction dated `day` in a list ordered by date: after
/// the leading run of transactions dated no later.
pub open spec fn date_slot(s: Seq<Transaction>, day: int) -> nat
    decreases s.len(),
{
    if s.len() == 0 || s[0].trade_date.days_from_ce > day {
        0
    } else {
        1 + date_slot(s.drop_first(), day)
    }
}

/// The transactions ordered by trade date, oldest first; those with the same
/// date keep their order.
pub open spec fn sort_by_date(s: Seq<Transaction>) -> Seq<Transaction>
    decreases s.len(),
{
    if s.len() == 0 {
        s
    } else {
        let sorted = sort_by_date(s.drop_last());
        sorted.insert(date_slot(sorted, s.last().trade_date.days_from_ce as int) as int, s.last())
    }
}

/// The rows of the transaction table: the transactions newest first (the
/// date order reversed), filtered.
pub open spec fn table_rows(txs: Seq<Transaction>, filters: TransactionFilters, today: Date) -> Seq<Transaction> {
    filtered(sort_by_date(txs).reverse(), filters, today)
}

proof fn lemma_date_slot_skip(s: Seq<Transaction>, day: int, j: int)
    requires
        0 <= j <= s.len(),
        forall|k: int| 0 <= k < j ==> (#[trigger] s[k]).trade_date.days_from_ce <= day,
    ensures
        date_slot(s, day) == j + date_slot(s.skip(j), day),
    decreases j,
{
    if j == 0 {
        assert(s.skip(0) =~= s);
    } else {
        assert(s[0].trade_date.days_from_ce <= day);
        assert forall|k: int| 0 <= k < j - 1 implies (#[trigger] s.drop_first()[k]).trade_date.days_from_ce <= day by {
            assert(s.drop_first()[k] == s[k + 1]);
        }
        lemma_date_slot_skip(s.drop_first(), day, j - 1);
        assert(s.drop_first().skip(j - 1) =~= s.skip(j));
    }
}

/// The rows of the transaction table on `today`: all transactions, newest
/// first, that pass the page's filters.
pub fn table_transactions(app: &AppState, today: Date) -> (r: Vec<Transaction>)
    requires
        today.wf(),
        forall|i: int| 0 <= i < app.transactions@.len() ==> (#[trigger] app.transactions@[i]).wf(),
        app.transactions@.len() > 0 ==> match period_days(app.transaction_page.filters.period) {
            Some(n) => today.days_from_ce - n >= MIN_DAYS,
            None => true,
        },
    ensures
        r@ == table_rows(app.transactions@, app.transaction_page.filters, today),
{
    let txs = &app.transactions;
    let n = txs.len();
    let mut sorted: Vec<Transaction> = Vec::new();
    let mut i: usize = 0;
    while i < n
        invariant
            n == txs@.len(),
            i <= n,
            sorted@ == sort_by_date(txs@.take(i as int)),
            sorted@.len() == i,
            forall|k: int| 0 <= k < sorted@.len() ==> (#[trigger] sorted@[k]).wf(),
            forall|k: int| 0 <= k < n ==> (#[trigger] txs@[k]).wf(),
        decreases n - i,
    {
        let x = txs[i].copy();
        let day = x.trade_date.days_from_ce;
        let mut j: usize = 0;
        while j < sorted.len() && sorted[j].trade_date.days_from_ce <= day
            invariant
                j <= sorted@.len(),
                forall|k: int| 0 <= k < j ==> (#[trigger] sorted@[k]).trade_date.days_from_ce <= day,
            decreases sorted@.len() - j,
        {
            j = j + 1;
        }
        proof {
            lemma_date_slot_skip(sorted@, day as int, j as int);
            if j < sorted@.len() {
                assert(sorted@.skip(j as int)[0] == sorted@[j as int]);
            }
            assert(date_slot(sorted@.skip(j as int), day as int) == 0);
            assert(txs@.take(i + 1).drop_last() =~= txs@.take(i as int));
            assert(txs@.take(i + 1).last() == txs@[i as int]);
        }
        sorted.insert(j, x);
        i = i + 1;
    }
    proof {
        assert(txs@.take(n as int) =~= txs@);
    }
    let mut rows: Vec<Transaction> = Vec::new();
    let mut k: usize = 0;
    while k < n
        invariant
            n == sorted@.len(),
            k <= n,
            rows@ =~= Seq::new(k as nat, |j: int| sorted@[n - 1 - j]),
        decreases n - k,
    {
        rows.push(sorted[n - 1 - k].copy());
        k = k + 1;
    }
    proof {
        assert(rows@ =~= sorted@.reverse());
    }
    filter_transactions(app, &mut rows, today);
    rows
}

/// The transactions are ordered by trade date, oldest first.
pub open spec fn oldest_first(s: Seq<Transaction>) -> bool {
    forall|i: int, j: int| 0 <= i < j < s.len() ==> (#[trigger] s[i]).trade_date.days_from_ce <= (#[trigger] s[j]).trade_date.days_from_ce
}

/// The transactions are ordered by trade date, newest first.
pub open spec fn newest_first(s: Seq<Transaction>) -> bool {
    forall|i: int, j: int| 0 <= i < j < s.len() ==> (#[trigger] s[i]).trade_date.days_from_ce >= (#[trigger] s[j]).trade_date.days_from_ce
}

proof fn lemma_date_slot_sorted(s: Seq<Transaction>, day: int)
    requires
        oldest_first(s),
    ensures
        date_slot(s, day) <= s.len(),
        forall|k: int| 0 <= k < date_slot(s, day) ==> (#[trigger] s[k]).trade_date.days_from_ce <= day,
        forall|k: int| date_slot(s, day) <= k < s.len() ==> (#[trigger] s[k]).trade_date.days_from_ce > day,
    decreases s.len(),
{
    if s.len() == 0 {
    } else if s[0].trade_date.days_from_ce > day {
        assert forall|k: int| 0 <= k < s.len() implies (#[trigger] s[k]).trade_date.days_from_ce > day by {
            if k > 0 {
                assert(s[0].trade_date.days_from_ce <= s[k].trade_date.days_from_ce);
            }
        }
    } else {
        let t = s.drop_first();
        assert forall|i: int, j: int| 0 <= i < j < t.len() implies (#[trigger] t[i]).trade_date.days_from_ce <= (#[trigger] t[j]).trade_date.days_from_ce by {
            assert(t[i] == s[i + 1] && t[j] == s[j + 1]);
        }
        lemma_date_slot_sorted(t, day);
        let p = date_slot(s, day);
        assert forall|k: int| 0 <= k < p implies (#[trigger] s[k]).trade_date.days_from_ce <= day by {
            if k > 0 {
                assert(s[k] == t[k - 1]);
            }
        }
        assert forall|k: int| p <= k < s.len() implies (#[trigger] s[k]).trade_date.days_from_ce > day by {
            assert(s[k] == t[k - 1]);
        }
    }
}

/// Ordering by date keeps every transaction (as often as it occurs) and
/// orders them oldest first.
pub proof fn lemma_sort_by_date(s: Seq<Transaction>)
    ensures
        sort_by_date(s).len() == s.len(),
        sort_by_date(s).to_multiset() == s.to_multiset(),
        oldest_first(sort_by_date(s)),
    decreases s.len(),
{
    broadcast use vstd::seq_lib::to_multiset_insert, vstd::seq_lib::to_multiset_build;

    if s.len() > 0 {
        let rest = s.drop_last();
        let x = s.last();
        lemma_sort_by_date(rest);
        let sorted = sort_by_date(rest);
        let day = x.trade_date.days_from_ce as int;
        lemma_date_slot_sorted(sorted, day);
        let p = date_slot(sorted, day) as int;
        let r = sorted.insert(p, x);
        assert(r == sort_by_date(s));
        assert(s =~= rest.push(x));
        assert forall|i: int, j: int| 0 <= i < j < r.len() implies (#[trigger] r[i]).trade_date.days_from_ce <= (#[trigger] r[j]).trade_date.days_from_ce by {
            if j < p {
                assert(r[i] == sorted[i] && r[j] == sorted[j]);
            } else if j == p {
                assert(r[i] == sorted[i]);
            } else if i < p {
                assert(r[i] == sorted[i] && r[j] == sorted[j - 1]);
            } else if i == p {
                assert(r[j] == sorted[j - 1]);
            } else {
                assert(r[i] == sorted[i - 1] && r[j] == sorted[j - 1]);
            }
        }
    }
}

/// The filtered transactions are those of the list that pass the filters,
/// in the list's order; a list ordered newest first stays so.
pub proof fn lemma_filtered(s: Seq<Transaction>, filters: TransactionFilters, today: Date)
    ensures
        forall|t: Transaction| #[trigger] filtered(s, filters, today).contains(t) <==> (s.contains(t) && passes(t, filters, today)),
        filtered(s, filters, today).len() <= s.len(),
        newest_first(s) ==> newest_first(filtered(s, filters, today)),
    decreases s.len(),
{
    if s.len() > 0 {
        let rest = s.drop_last();
        let x = s.last();
        lemma_filtered(rest, filters, today);
        let fr = filtered(rest, filters, today);
        assert(s =~= rest.push(x));
        assert forall|t: Transaction| s.contains(t) <==> (rest.contains(t) || t == x) by {
            if s.contains(t) {
                let i = choose|i: int| 0 <= i < s.len() && s[i] == t;
                if i < rest.len() {
                    assert(rest[i] == t);
                }
            }
            if rest.contains(t) {
                let i = choose|i: int| 0 <= i < rest.len() && rest[i] == t;
                assert(s[i] == t);
            }
            if t == x {
                assert(s[s.len() - 1] == t);
            }
        }
        if passes(x, filters, today) {
            let f = fr.push(x);
            assert(f == filtered(s, filters, today));
            assert forall|t: Transaction| f.contains(t) <==> (fr.contains(t) || t == x) by {
                if f.contains(t) {
                    let i = choose|i: int| 0 <= i < f.len() && f[i] == t;
                    if i < fr.len() {
                        assert(fr[i] == t);
                    }
                }
                if fr.contains(t) {
                    let i = choose|i: int| 0 <= i < fr.len() && fr[i] == t;
                    assert(f[i] == t);
                }
                if t == x {
                    assert(f[f.len() - 1] == t);
                }
            }
            if newest_first(s) {
                assert forall|i: int, j: int| 0 <= i < j < f.len() implies (#[trigger] f[i]).trade_date.days_from_ce >= (#[trigger] f[j]).trade_date.days_from_ce by {
                    if j < fr.len() {
                        assert(f[i] == fr[i] && f[j] == fr[j]);
                        assert forall|a: int, b: int| 0 <= a < b < rest.len() implies (#[trigger] rest[a]).trade_date.days_from_ce >= (#[trigger] rest[b]).trade_date.days_from_ce by {
                            assert(rest[a] == s[a] && rest[b] == s[b]);
                        }
                    } else {
                        assert(f[i] == fr[i] && f[j] == x);
                        assert(fr.contains(fr[i]));
                        assert(rest.contains(fr[i]));
                        let k = choose|k: int| 0 <= k < rest.len() && rest[k] == fr[i];
                        assert(s[k] == fr[i]);
                        assert(s[s.len() - 1] == x);
                    }
                }
            }
        } else {
            assert(fr == filtered(s, filters, today));
            if newest_first(s) {
                assert forall|a: int, b: int| 0 <= a < b < rest.len() implies (#[trigger] rest[a]).trade_date.days_from_ce >= (#[trigger] rest[b]).trade_date.days_from_ce by {
                    assert(rest[a] == s[a] && rest[b] == s[b]);
                }
            }
        }
    }
}

/// The transaction table shows exactly the transactions that pass the
/// filters, newest first.
pub proof fn lemma_table_rows(txs: Seq<Transaction>, filters: TransactionFilters, today: Date)
    ensures
        forall|t: Transaction| #[trigger] table_rows(txs, filters, today).contains(t) <==> (txs.contains(t) && passes(t, filters, today)),
        newest_first(table_rows(txs, filters, today)),
        table_rows(txs, filters, today).len() <= txs.len(),
{
    broadcast use vstd::seq_lib::to_multiset_contains;

    let sorted = sort_by_date(txs);
    lemma_sort_by_date(txs);
    let rev = sorted.reverse();
    assert(rev.len() == sorted.len());
    assert forall|i: int| 0 <= i < rev.len() implies #[trigger] rev[i] == sorted[sorted.len() - 1 - i] by {}
    assert forall|i: int, j: int| 0 <= i < j < rev.len() implies (#[trigger] rev[i]).trade_date.days_from_ce >= (#[trigger] rev[j]).trade_date.days_from_ce by {
        assert(rev[i] == sorted[sorted.len() - 1 - i] && rev[j] == sorted[sorted.len() - 1 - j]);
    }
    assert forall|t: Transaction| rev.contains(t) <==> txs.contains(t) by {
        if rev.contains(t) {
            let i = choose|i: int| 0 <= i < rev.len() && rev[i] == t;
            assert(sorted[sorted.len() - 1 - i] == t);
            assert(sorted.contains(t));
        }
        if txs.contains(t) {
            assert(sorted.to_multiset().count(t) > 0);
            assert(sorted.contains(t));
            let k = choose|k: int| 0 <= k < sorted.len() && sorted[k] == t;
            assert(rev[sorted.len() - 1 - k] == t);
        }
    }
    lemma_filtered(rev, filters, today);
}

/// Appends the character to the ticker filter, where that has the focus.
pub fn handle_input_char(app: &mut AppState, field: InputFocus, c: char)
    ensures
        field == InputFocus::Ticker ==> final(app).transaction_page.filters.ticker@ == old(app).transaction_page.filters.ticker@.push(c)
            && *final(app) == (AppState { transaction_page: TransactionPage { filters: TransactionFilters { ticker: final(app).transaction_page.filters.ticker, ..old(app).transaction_page.filters } }, ..*old(app) }),
        field != InputFocus::Ticker ==> *final(app) == *old(app),
{
    match field {
        InputFocus::Ticker => {
            text::push_char(&mut app.transaction_page.filters.ticker, c);
        },
        InputFocus::TransactionType | InputFocus::Period | InputFocus::Table => {},
    }
}

/// Removes the last character of the ticker filter, where that has the focus.
pub fn handle_input_backspace(app: &mut AppState, field: InputFocus)
    ensures
        field == InputFocus::Ticker ==> final(app).transaction_page.filters.ticker@ == (if old(app).transaction_page.filters.ticker@.len() == 0 {
            old(app).transaction_page.filters.ticker@
        } else {
            old(app).transaction_page.filters.ticker@.drop_last()
        }) && *final(app) == (AppState { transaction_page: TransactionPage { filters: TransactionFilters { ticker: final(app).transaction_page.filters.ticker, ..old(app).transaction_page.filters } }, ..*old(app) }),
        field != InputFocus::Ticker ==> *final(app) == *old(app),
{
    match field {
        InputFocus::Ticker => {
            let _ = text::pop_char(&mut app.transaction_page.filters.ticker);
        },
        InputFocus::TransactionType | InputFocus::Period | InputFocus::Table => {},
    }
}

/// Steps the focused selector (type or period filter) to its next value.
pub fn handle_selector_tab(app: &mut AppState, field: InputFocus)
    ensures
        field == InputFocus::TransactionType ==> *final(app) == (AppState { transaction_page: TransactionPage { filters: TransactionFilters {
            transaction_type: TransactionTypeFilter::at(crate::types::next_position(old(app).transaction_page.filters.transaction_type.position(), 3)),
            ..old(app).transaction_page.filters } }, ..*old(app) }),
        field == InputFocus::Period ==> *final(app) == (AppState { transaction_page: TransactionPage { filters: TransactionFilters {
            period: TimeFrame::at(crate::types::next_position(old(app).transaction_page.filters.period.position(), 11)),
            ..old(app).transaction_page.filters } }, ..*old(app) }),
        field != InputFocus::TransactionType && field != InputFocus::Period ==> *final(app) == *old(app),
{
    match field {
        InputFocus::TransactionType => {
            app.transaction_page.filters.transaction_type = app.transaction_page.filters.transaction_type.cycle();
        },
        InputFocus::Period => {
            app.transaction_page.filters.period = app.transaction_page.filters.period.cycle();
        },
        _ => {},
    }
}

} // verus!
