# stonks_rs

A terminal investment dashboard: it keeps stock transactions and dividends in
a local SQLite database, computes the figures of each position and of the
whole portfolio, and refreshes them with market data from Yahoo Finance.

The library in `src/` is written in Verus and verified:

- `decimal`, `date`, `text`: plain-value models of `rust_decimal` numbers,
  `chrono` dates and the string operations of std that the library uses;
- `types`, `calculate`: transactions, dividends and the bookkeeping rules
  (shares held, average cost, cost basis, market value, gains, dividends,
  portfolio value and weight);
- `database`, `helpers`, `service`, `listing`: storage through `rusqlite`,
  the in-memory lists kept in step with it, and the figures of one position
  from a market quote;
- `app`, `focus`, `pages`, `update`, `ticker_map`, `theme`: the state of the
  terminal application and every change that a key press or a background
  message makes to it, the transaction table, the overview and dashboard
  lists, and colour themes.

`app/` is the program around it: configuration and theme files, the terminal
and its event loop, drawing with `ratatui`, and the background task that
fetches quotes.
