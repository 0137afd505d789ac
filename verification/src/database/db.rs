//! The database schema.
use vstd::prelude::*;
use crate::database::statements::{sql, SqlStatement};
use crate::database::{execute_batch, DbError};

verus! {

/// The statements that create the tables `watchlist`, `transactions` and
/// `dividends` where they do not exist yet.
pub const CREATE_TABLES_SQL: &'static str = r"PRAGMA foreign_keys = ON;

------------------------------------------------------------
-- Watchlist
------------------------------------------------------------

CREATE TABLE IF NOT EXISTS watchlist (
    ticker      TEXT PRIMARY KEY,
    isin        TEXT,
    name        TEXT,
    asset_type  TEXT NOT NULL CHECK(asset_type IN (
        'stock',
        'etf',
        'fund',
        'bond',
        'crypto',
        'cash'
    )),
    created_at  TEXT NOT NULL DEFAULT CURRENT_TIMESTAMP
);

------------------------------------------------------------
-- Transactions
------------------------------------------------------------

CREATE TABLE IF NOT EXISTS transactions (
    id                  INTEGER PRIMARY KEY AUTOINCREMENT,

    ticker              TEXT NOT NULL,
    isin                TEXT,

    transaction_type    TEXT NOT NULL CHECK(transaction_type IN (
        'buy',
        'sell'
    )),

    trade_date          TEXT NOT NULL,

    quantity            TEXT NOT NULL,
    price               TEXT NOT NULL,

    fees                TEXT NOT NULL DEFAULT 0,
    taxes               TEXT NOT NULL DEFAULT 0,

    currency            TEXT NOT NULL


);

------------------------------------------------------------
-- Dividends
------------------------------------------------------------

CREATE TABLE IF NOT EXISTS dividends (
    id                  INTEGER PRIMARY KEY AUTOINCREMENT,

    ticker              TEXT NOT NULL,
    isin                TEXT,

    payment_date        TEXT NOT NULL,

    amount              TEXT NOT NULL,

    taxes               TEXT NOT NULL DEFAULT 0,

    currency            TEXT NOT NULL


);

    ";

/// Creates the tables `watchlist`, `transactions` and `dividends` where they do not exist.
pub fn create_tables(conn: &rusqlite::Connection) -> (r: Result<(), DbError>)
    ensures
        r matches Err(e) ==> e is Sqlite,
{
    execute_batch(conn, sql(SqlStatement::CreateTables))
}

} // verus!
