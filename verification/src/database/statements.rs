//! The SQL statements that the library hands to SQLite, each with its exact
//! text.
use vstd::prelude::*;
use crate::database::db::CREATE_TABLES_SQL;
use crate::listing::LISTING_TABLES_SQL;

verus! {

/// Deletes the transaction whose id is `?1`.
pub const DELETE_TRANSACTION_SQL: &'static str = "DELETE FROM transactions
        WHERE id = ?1
        ";

/// Overwrites the fields of the transaction whose id is `?8` with `?1` to `?7`
/// (the parameters of `spec_transaction_params`) and returns its row.
pub const UPDATE_TRANSACTION_SQL: &'static str = "UPDATE transactions
        SET 
            ticker = ?1,
            transaction_type = ?2,
            trade_date = ?3,
            quantity = ?4,
            price = ?5,
            currency = ?6,
            fees = ?7
        WHERE id = ?8
        RETURNING id, ticker, transaction_type, trade_date, quantity, price, currency, fees";

/// Reads every transaction, the latest trade date first.
pub const SELECT_TRANSACTIONS_SQL: &'static str = "
    SELECT 
        id,
        ticker,
        transaction_type,
        trade_date,
        quantity,
        price,
        currency,
        fees
    FROM transactions
    ORDER BY trade_date DESC
    ";

/// Inserts a transaction with the parameters `?1` to `?7` (those of
/// `spec_transaction_params`) and returns its row with the id it was given.
pub const INSERT_TRANSACTION_SQL: &'static str = "
        INSERT INTO transactions (
            ticker,
            transaction_type,
            trade_date,
            quantity,
            price,
            currency,
            fees
        )
        VALUES (?1, ?2, ?3, ?4, ?5, ?6, ?7)
        RETURNING id, ticker, transaction_type, trade_date, quantity, price, currency, fees
        ";

/// Deletes the dividend whose id is `?1`.
pub const DELETE_DIVIDEND_SQL: &'static str = "DELETE FROM dividends
        WHERE id = ?1
        ";

/// Overwrites the fields of the dividend whose id is `?6` with `?1` to `?5`
/// (the parameters of `spec_dividend_params`) and returns its row.
pub const UPDATE_DIVIDEND_SQL: &'static str = "UPDATE dividends
        SET 
            ticker = ?1,
            payment_date = ?2,
            amount = ?3,
            currency = ?4,
            taxes = ?5
        WHERE id = ?6
        RETURNING id, ticker, payment_date, amount,  currency, taxes";

/// Reads every dividend, the latest payment date first.
pub const SELECT_DIVIDENDS_SQL: &'static str = "
    SELECT 
        id,
        ticker,
        payment_date,
        amount,
        currency,
        taxes
    FROM dividends
    ORDER BY payment_date DESC
    ";

/// Inserts a dividend with the parameters `?1` to `?5` (those of
/// `spec_dividend_params`) and returns its row with the id it was given.
pub const INSERT_DIVIDEND_SQL: &'static str = "
        INSERT INTO dividends (
            ticker,
            payment_date,
            amount,
            currency,
            taxes
        )
        VALUES (?1, ?2, ?3, ?4, ?5)
        RETURNING id, ticker, payment_date, amount, currency, taxes
        ";

/// A statement that the library runs.
#[derive(Debug, Clone, Copy, PartialEq, Eq, Structural)]
pub enum SqlStatement {
    CreateTables,
    CreateListingTables,
    DeleteTransaction,
    UpdateTransaction,
    SelectTransactions,
    InsertTransaction,
    DeleteDividend,
    UpdateDividend,
    SelectDividends,
    InsertDividend,
}

/// The exact text of the statement.
pub open spec fn statement_text(s: SqlStatement) -> Seq<char> {
    match s {
        SqlStatement::CreateTables => CREATE_TABLES_SQL@,
        SqlStatement::CreateListingTables => LISTING_TABLES_SQL@,
        SqlStatement::DeleteTransaction => DELETE_TRANSACTION_SQL@,
        SqlStatement::UpdateTransaction => UPDATE_TRANSACTION_SQL@,
        SqlStatement::SelectTransactions => SELECT_TRANSACTIONS_SQL@,
        SqlStatement::InsertTransaction => INSERT_TRANSACTION_SQL@,
        SqlStatement::DeleteDividend => DELETE_DIVIDEND_SQL@,
        SqlStatement::UpdateDividend => UPDATE_DIVIDEND_SQL@,
        SqlStatement::SelectDividends => SELECT_DIVIDENDS_SQL@,
        SqlStatement::InsertDividend => INSERT_DIVIDEND_SQL@,
    }
}

/// The text of the statement.
pub fn sql(s: SqlStatement) -> (r: &'static str)
    ensures
        r@ == statement_text(s),
{
    match s {
        SqlStatement::CreateTables => CREATE_TABLES_SQL,
        SqlStatement::CreateListingTables => LISTING_TABLES_SQL,
        SqlStatement::DeleteTransaction => DELETE_TRANSACTION_SQL,
        SqlStatement::UpdateTransaction => UPDATE_TRANSACTION_SQL,
        SqlStatement::SelectTransactions => SELECT_TRANSACTIONS_SQL,
        SqlStatement::InsertTransaction => INSERT_TRANSACTION_SQL,
        SqlStatement::DeleteDividend => DELETE_DIVIDEND_SQL,
        SqlStatement::UpdateDividend => UPDATE_DIVIDEND_SQL,
        SqlStatement::SelectDividends => SELECT_DIVIDENDS_SQL,
        SqlStatement::InsertDividend => INSERT_DIVIDEND_SQL,
    }
}

} // verus!
