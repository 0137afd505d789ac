//! The database of the transaction listing tool: the file
//! `stonks-rs.db` in the application directory, with decimal columns.
use vstd::prelude::*;
use vstd::string::StringExecFns;
use crate::database::statements::{sql, SqlStatement};
use crate::database::{execute_batch, open_connection, DbError};
use crate::text;
use crate::types::Currency;

verus! {

/// The statements that create the tables of the listing tool, where they
/// do not exist yet.
pub const LISTING_TABLES_SQL: &'static str = r"PRAGMA foreign_keys = ON;

------------------------------------------------------------
-- Watchlist
------------------------------------------------------------

CREATE TABLE IF NOT EXISTS watchlist (
    ticker      TEXT PRIMARY KEY,
    isin        TEXT,
    name        TEXT,
    asset_type  TEXT NOT NULL CHECK(asset_type IN (
        'stock',
        'etf',
        'fund',
        'bond',
        'crypto',
        'cash'
    )),
    created_at  TEXT NOT NULL DEFAULT CURRENT_TIMESTAMP
);

------------------------------------------------------------
-- Transactions
------------------------------------------------------------

CREATE TABLE IF NOT EXISTS transactions (
    id                  INTEGER PRIMARY KEY AUTOINCREMENT,

    ticker              TEXT NOT NULL,
    isin                TEXT,

    transaction_type    TEXT NOT NULL CHECK(transaction_type IN (
        'buy',
        'sell'
    )),

    trade_date          TEXT NOT NULL,

    quantity            DECIMAL(20,8) NOT NULL,
    price               DECIMAL(20,8) NOT NULL,

    fees                DECIMAL(20,8) NOT NULL DEFAULT 0,
    taxes               DECIMAL(20,8) NOT NULL DEFAULT 0,

    currency            TEXT NOT NULL


);

------------------------------------------------------------
-- Dividends
------------------------------------------------------------

CREATE TABLE IF NOT EXISTS dividends (
    id                  INTEGER PRIMARY KEY AUTOINCREMENT,

    ticker              TEXT NOT NULL,
    isin                TEXT,

    payment_date        TEXT NOT NULL,

    amount              DECIMAL(20,8) NOT NULL,

    taxes               DECIMAL(20,8) NOT NULL DEFAULT 0,

    currency            TEXT NOT NULL


);

    ";

/// The database file in the application directory `home_path` (which ends
/// with a path separator).
pub fn listing_db_path(home_path: &str) -> (r: String)
    ensures
        r@ == home_path@ + "stonks-rs.db"@,
{
    text::owned(home_path).concat("stonks-rs.db")
}

/// The currency stored as this text by the listing tool: only `usd` and
/// `eur`, in lower case, are known.
pub open spec fn listing_currency(s: Seq<char>) -> Option<Currency> {
    if s == "usd"@ {
        Some(Currency::USD)
    } else if s == "eur"@ {
        Some(Currency::EUR)
    } else {
        None
    }
}

/// Reads a currency as the listing tool stores it.
pub fn currency_from_sql(value: &str) -> (r: Option<Currency>)
    ensures
        r == listing_currency(value@),
        forall|c: Currency| value@ == c.sql_text() ==> r == Some(c),
{
    proof {
        reveal_strlit("usd");
        reveal_strlit("eur");
        assert("usd"@[0] != "eur"@[0]);
    }
    let v = text::owned(value);
    let usd = text::owned("usd");
    let eur = text::owned("eur");
    if v == usd {
        Some(Currency::USD)
    } else if v == eur {
        Some(Currency::EUR)
    } else {
        None
    }
}

/// Opens (or creates) the database `stonks-rs.db` in the application
/// directory `home_path` and creates its tables where they are missing.
pub fn init_db(home_path: &str) -> (r: Result<rusqlite::Connection, DbError>)
    ensures
        r matches Err(e) ==> e is Sqlite,
{
    let db_path = listing_db_path(home_path);
    let conn = open_connection(db_path.as_str())?;
    execute_batch(&conn, sql(SqlStatement::CreateListingTables))?;
    Ok(conn)
}

} // verus!
