//! Storage of transactions and dividends in SQLite, through `rusqlite`.
//!
//! Statements go to SQLite with their parameters as plain values
//! ([`SqlValue`]); the rows that come back are read column by column into
//! plain values and converted by verified code. What SQLite returns depends on
//! the database, so the functions that run a statement state what holds of
//! every outcome, and the conversions state exactly what they make of a row.
use vstd::prelude::*;
use crate::date::{naive_date_format, naive_date_parse, Date};
use crate::decimal::{decimal_display, decimal_from_str, decimal_of, decimal_opt, Decimal};
use crate::text;
use crate::types::{Currency, Transaction, TransactionType};
use statements::{sql, SqlStatement};

pub mod db;
pub mod dividends;
pub mod statements;

verus! {

#[verifier::external_type_specification]
#[verifier::external_body]
pub struct ExConnection(rusqlite::Connection);

#[verifier::external_type_specification]
#[verifier::external_body]
pub struct ExSqliteError(rusqlite::Error);

#[verifier::external_type_specification]
#[verifier::external_body]
pub struct ExRow<'stmt>(rusqlite::Row<'stmt>);

#[verifier::external_type_specification]
#[verifier::external_body]
pub struct ExStatement<'conn>(rusqlite::Statement<'conn>);

/// A value of an SQL parameter or of a column that was read.
#[derive(Debug, Clone, PartialEq)]
pub enum SqlValue {
    Null,
    Integer(i64),
    Text(String),
    /// A floating-point number or a blob, which the library never stores.
    Other,
}

/// Error of a database operation.
#[derive(Debug)]
pub enum DbError {
    /// SQLite or `rusqlite` reported an error.
    Sqlite(rusqlite::Error),
    /// A row that was read does not hold a value of the expected kind.
    InvalidRow,
}

/// Calls `rusqlite::Row::get` for a column of any type. Claimed: nothing. The
/// value is what the database holds, and whether the call succeeds depends on
/// the number of columns of the statement, which SQLite derives from its text.
#[verifier::external_body]
fn row_get_value(row: &rusqlite::Row<'_>, index: usize) -> (r: Result<SqlValue, rusqlite::Error>) {
    match row.get::<usize, rusqlite::types::Value>(index)? {
        rusqlite::types::Value::Null => Ok(SqlValue::Null),
        rusqlite::types::Value::Integer(i) => Ok(SqlValue::Integer(i)),
        rusqlite::types::Value::Text(s) => Ok(SqlValue::Text(s)),
        rusqlite::types::Value::Real(_) => Ok(SqlValue::Other),
        rusqlite::types::Value::Blob(_) => Ok(SqlValue::Other),
    }
}

/// Parameters that SQLite can take: `NULL`, integers and texts.
pub open spec fn params_are_values(params: Seq<SqlValue>) -> bool {
    forall|i: int| 0 <= i < params.len() ==> !(#[trigger] params[i] is Other)
}

/// Calls `rusqlite::Connection::open`. Claimed: nothing; whether the database
/// opens depends on the file system.
#[verifier::external_body]
fn db_open(path: &str) -> (r: Result<rusqlite::Connection, rusqlite::Error>) {
    rusqlite::Connection::open(path)
}

/// Calls `rusqlite::Connection::execute_batch`. Claimed: nothing; whether the
/// statements run depends on the database and its file.
#[verifier::external_body]
fn db_execute_batch(conn: &rusqlite::Connection, sql: &str) -> (r: Result<(), rusqlite::Error>) {
    conn.execute_batch(sql)
}

/// Calls `rusqlite::Connection::execute` with the parameters as SQL values
/// (a parameter is never `Other`, which has no value to hand over).
/// Claimed: nothing; the number of changed rows and whether the statement runs
/// depend on what the database holds.
#[verifier::external_body]
fn db_execute(conn: &rusqlite::Connection, sql: &str, params: &[SqlValue]) -> (r: Result<usize, rusqlite::Error>)
    requires
        params_are_values(params@),
{
    let mut values: Vec<rusqlite::types::Value> = Vec::new();
    for p in params {
        values.push(match p {
            SqlValue::Null | SqlValue::Other => rusqlite::types::Value::Null,
            SqlValue::Integer(i) => rusqlite::types::Value::Integer(*i),
            SqlValue::Text(s) => rusqlite::types::Value::Text(s.clone()),
        });
    }
    conn.execute(sql, rusqlite::params_from_iter(values))
}

/// Calls `rusqlite::Connection::query_row` with the parameters as SQL values
/// (never `Other`) and reads the first `columns` columns of the row with [`read_row`].
/// Claimed: a row read has that many values, as `query_row` returns what the
/// row function returned. Whether a row comes back, and what it holds, depends
/// on the database and is not claimed.
#[verifier::external_body]
fn db_query_row(conn: &rusqlite::Connection, sql: &str, params: &[SqlValue], columns: usize) -> (r: Result<Vec<SqlValue>, rusqlite::Error>)
    requires
        params_are_values(params@),
    ensures
        r matches Ok(v) ==> v.len() == columns,
{
    let mut values: Vec<rusqlite::types::Value> = Vec::new();
    for p in params {
        values.push(match p {
            SqlValue::Null | SqlValue::Other => rusqlite::types::Value::Null,
            SqlValue::Integer(i) => rusqlite::types::Value::Integer(*i),
            SqlValue::Text(s) => rusqlite::types::Value::Text(s.clone()),
        });
    }
    conn.query_row(sql, rusqlite::params_from_iter(values), |row| read_row(row, columns))
}

/// Calls `rusqlite::Connection::prepare`. Claimed: nothing; whether SQLite
/// accepts the statement depends on the database's schema.
#[verifier::external_body]
fn db_prepare<'conn>(conn: &'conn rusqlite::Connection, sql: &str) -> (r: Result<rusqlite::Statement<'conn>, rusqlite::Error>) {
    conn.prepare(sql)
}

/// Calls `rusqlite::Statement::query_map` without parameters, reading the
/// first `columns` columns of each row with [`read_row`], and collects the
/// rows. Claimed: each row read has that many values. Which rows come back
/// depends on what the database holds and is not claimed.
#[verifier::external_body]
fn db_query_map(stmt: &mut rusqlite::Statement<'_>, columns: usize) -> (r: Result<Vec<Vec<SqlValue>>, rusqlite::Error>)
    ensures
        r matches Ok(rows) ==> forall|i: int| 0 <= i < rows.len() ==> (#[trigger] rows[i]).len() == columns,
{
    stmt.query_map([], |row| read_row(row, columns))?.collect()
}

/// Reads the first `columns` columns of a row.
pub fn read_row(row: &rusqlite::Row<'_>, columns: usize) -> (r: Result<Vec<SqlValue>, rusqlite::Error>)
    ensures
        r matches Ok(v) ==> v.len() == columns,
{
    let mut values: Vec<SqlValue> = Vec::new();
    let mut i: usize = 0;
    while i < columns
        invariant
            i <= columns,
            values.len() == i,
        decreases columns - i,
    {
        let v = row_get_value(row, i)?;
        values.push(v);
        i = i + 1;
    }
    Ok(values)
}

/// Opens (or creates) the SQLite database file at `path`.
pub fn open_connection(path: &str) -> (r: Result<rusqlite::Connection, DbError>)
    ensures
        r matches Err(e) ==> e is Sqlite,
{
    match db_open(path) {
        Ok(c) => Ok(c),
        Err(e) => Err(DbError::Sqlite(e)),
    }
}

/// Runs several statements, separated by semicolons.
pub fn execute_batch(conn: &rusqlite::Connection, sql: &str) -> (r: Result<(), DbError>)
    ensures
        r matches Err(e) ==> e is Sqlite,
{
    match db_execute_batch(conn, sql) {
        Ok(()) => Ok(()),
        Err(e) => Err(DbError::Sqlite(e)),
    }
}

/*
 *  Reading column values
 */

/// The text of a text column.
pub open spec fn text_of(v: SqlValue) -> Option<String> {
    match v {
        SqlValue::Text(s) => Some(s),
        _ => None,
    }
}

/// The value of a nullable integer column.
pub open spec fn id_of(v: SqlValue) -> Option<Option<i64>> {
    match v {
        SqlValue::Null => Some(None),
        SqlValue::Integer(i) => Some(Some(i)),
        _ => None,
    }
}

/// A date column, written `YYYY-MM-DD`.
pub open spec fn date_of(v: SqlValue) -> Option<Date> {
    match v {
        SqlValue::Text(s) => match naive_date_parse(s@) {
            Some(d) => Some(Date { days_from_ce: d }),
            None => None,
        },
        _ => None,
    }
}

/// A decimal column, stored as its text.
pub open spec fn decimal_col(v: SqlValue) -> Option<Decimal> {
    match v {
        SqlValue::Text(s) => decimal_opt(decimal_from_str(s@)),
        _ => None,
    }
}

/// A currency column (`usd` or `eur` in any letter case; the stored texts
/// themselves are read without a case mapping).
pub open spec fn currency_col(v: SqlValue) -> Option<Currency> {
    match v {
        SqlValue::Text(s) => if s@ == "usd"@ {
            Some(Currency::USD)
        } else if s@ == "eur"@ {
            Some(Currency::EUR)
        } else if text::str_to_lowercase(s@) == "usd"@ {
            Some(Currency::USD)
        } else if text::str_to_lowercase(s@) == "eur"@ {
            Some(Currency::EUR)
        } else {
            None
        },
        _ => None,
    }
}

/// A transaction type column (`buy` or `sell`).
pub open spec fn transaction_type_col(v: SqlValue) -> Option<TransactionType> {
    match v {
        SqlValue::Text(s) => match TransactionType::from_sql_text(s@) {
            Ok(t) => Some(t),
            Err(_) => None,
        },
        _ => None,
    }
}

pub(crate) fn read_id(v: &SqlValue) -> (r: Result<Option<i64>, DbError>)
    ensures
        r matches Ok(x) ==> id_of(*v) == Some(x),
        r is Err ==> id_of(*v) is None,
{
    match v {
        SqlValue::Null => Ok(None),
        SqlValue::Integer(i) => Ok(Some(*i)),
        _ => Err(DbError::InvalidRow),
    }
}

pub(crate) fn read_text(v: &SqlValue) -> (r: Result<String, DbError>)
    ensures
        r matches Ok(x) ==> text_of(*v) == Some(x),
        r is Err ==> text_of(*v) is None,
{
    match v {
        SqlValue::Text(s) => Ok(s.clone()),
        _ => Err(DbError::InvalidRow),
    }
}

pub(crate) fn read_date(v: &SqlValue) -> (r: Result<Date, DbError>)
    ensures
        r matches Ok(x) ==> date_of(*v) == Some(x) && x.wf(),
        r is Err ==> date_of(*v) is None,
{
    match v {
        SqlValue::Text(s) => match Date::parse(s.as_str()) {
            Some(d) => Ok(d),
            None => Err(DbError::InvalidRow),
        },
        _ => Err(DbError::InvalidRow),
    }
}

pub(crate) fn read_decimal(v: &SqlValue) -> (r: Result<Decimal, DbError>)
    ensures
        r matches Ok(x) ==> decimal_col(*v) == Some(x) && x.wf(),
        r is Err ==> decimal_col(*v) is None,
{
    match v {
        SqlValue::Text(s) => match Decimal::parse(s.as_str()) {
            Some(d) => Ok(d),
            None => Err(DbError::InvalidRow),
        },
        _ => Err(DbError::InvalidRow),
    }
}

pub(crate) fn read_currency(v: &SqlValue) -> (r: Result<Currency, DbError>)
    ensures
        r matches Ok(x) ==> currency_col(*v) == Some(x),
        r is Err ==> currency_col(*v) is None,
{
    proof {
        reveal_strlit("usd");
        reveal_strlit("eur");
        assert("usd"@[0] != "eur"@[0]);
    }
    match v {
        SqlValue::Text(s) => {
            let r = Currency::column_result(s.as_str());
            proof {
                assert(Currency::USD.sql_text() == "usd"@);
                assert(Currency::EUR.sql_text() == "eur"@);
            }
            match r {
                Ok(c) => Ok(c),
                Err(_) => Err(DbError::InvalidRow),
            }
        },
        _ => Err(DbError::InvalidRow),
    }
}

pub(crate) fn read_transaction_type(v: &SqlValue) -> (r: Result<TransactionType, DbError>)
    ensures
        r matches Ok(x) ==> transaction_type_col(*v) == Some(x),
        r is Err ==> transaction_type_col(*v) is None,
{
    match v {
        SqlValue::Text(s) => match TransactionType::column_result(s.as_str()) {
            Ok(t) => Ok(t),
            Err(_) => Err(DbError::InvalidRow),
        },
        _ => Err(DbError::InvalidRow),
    }
}

/*
 *  Transactions
 */

/// The columns `id, ticker, transaction_type, trade_date, quantity, price,
/// currency, fees` of a row, read back as a transaction.
pub open spec fn spec_transaction_from_row(row: Seq<SqlValue>) -> Option<Transaction> {
    if row.len() != 8 {
        None
    } else {
        match (id_of(row[0]), text_of(row[1]), transaction_type_col(row[2]), date_of(row[3])) {
            (Some(id), Some(ticker), Some(transaction_type), Some(trade_date)) => match (
                decimal_col(row[4]),
                decimal_col(row[5]),
                currency_col(row[6]),
                decimal_col(row[7]),
            ) {
                (Some(quantity), Some(price), Some(currency), Some(fees)) => Some(
                    Transaction { id, ticker, transaction_type, trade_date, quantity, price, currency, fees },
                ),
                _ => None,
            },
            _ => None,
        }
    }
}

/// Reads a transaction from the columns `id, ticker, transaction_type,
/// trade_date, quantity, price, currency, fees`.
pub fn transaction_from_row(row: &Vec<SqlValue>) -> (r: Result<Transaction, DbError>)
    ensures
        r matches Ok(t) ==> spec_transaction_from_row(row@) == Some(t) && t.wf(),
        r is Err ==> spec_transaction_from_row(row@) is None,
{
    if row.len() != 8 {
        return Err(DbError::InvalidRow);
    }
    let id = read_id(&row[0])?;
    let ticker = read_text(&row[1])?;
    let transaction_type = read_transaction_type(&row[2])?;
    let trade_date = read_date(&row[3])?;
    let quantity = read_decimal(&row[4])?;
    let price = read_decimal(&row[5])?;
    let currency = read_currency(&row[6])?;
    let fees = read_decimal(&row[7])?;
    Ok(Transaction { id, ticker, transaction_type, trade_date, quantity, price, currency, fees })
}

/// The parameters under which a transaction is stored: ticker, transaction
/// type, trade date, quantity, price, currency and fees, each as text.
pub open spec fn spec_transaction_params(t: Transaction) -> Seq<Seq<char>> {
    seq![
        t.ticker@,
        t.transaction_type.sql_text(),
        naive_date_format(t.trade_date.days_from_ce),
        decimal_display(t.quantity@),
        decimal_display(t.price@),
        t.currency.sql_text(),
        decimal_display(t.fees@),
    ]
}

/// The values are texts with the given characters.
pub open spec fn texts_are(values: Seq<SqlValue>, texts: Seq<Seq<char>>) -> bool {
    &&& values.len() == texts.len()
    &&& forall|i: int| 0 <= i < values.len() ==> (#[trigger] values[i] matches SqlValue::Text(s) && s@ == texts[i])
}

/// The parameters under which a transaction is stored.
pub fn transaction_params(t: &Transaction) -> (r: Vec<SqlValue>)
    requires
        t.wf(),
    ensures
        texts_are(r@, spec_transaction_params(*t)),
{
    let mut v: Vec<SqlValue> = Vec::new();
    v.push(SqlValue::Text(t.ticker.clone()));
    v.push(SqlValue::Text(t.transaction_type.to_sql()));
    v.push(SqlValue::Text(t.trade_date.to_string()));
    v.push(SqlValue::Text(t.quantity.to_string()));
    v.push(SqlValue::Text(t.price.to_string()));
    v.push(SqlValue::Text(t.currency.to_sql()));
    v.push(SqlValue::Text(t.fees.to_string()));
    v
}

/// The SQL value of an optional id: the integer, or `NULL`.
pub open spec fn id_value(id: Option<i64>) -> SqlValue {
    match id {
        Some(i) => SqlValue::Integer(i),
        None => SqlValue::Null,
    }
}

/// The parameters of a statement on one stored row: its id.
pub fn id_params(id: i64) -> (r: Vec<SqlValue>)
    ensures
        r@ == seq![SqlValue::Integer(id)],
{
    let mut v: Vec<SqlValue> = Vec::new();
    v.push(SqlValue::Integer(id));
    proof {
        assert(v@ =~= seq![SqlValue::Integer(id)]);
    }
    v
}

/// The parameters with which a transaction is overwritten: those under which
/// it is stored, then its id.
pub fn transaction_edit_params(t: &Transaction) -> (r: Vec<SqlValue>)
    requires
        t.wf(),
    ensures
        r@.len() == 8,
        texts_are(r@.take(7), spec_transaction_params(*t)),
        r@[7] == id_value(t.id),
        params_are_values(r@),
{
    let mut v = transaction_params(t);
    let ghost texts = v@;
    v.push(match t.id {
        Some(id) => SqlValue::Integer(id),
        None => SqlValue::Null,
    });
    proof {
        assert(v@.take(7) =~= texts);
        assert forall|i: int| 0 <= i < v@.len() implies !(#[trigger] v@[i] is Other) by {
            if i < 7 {
                assert(v@[i] == v@.take(7)[i]);
            }
        }
    }
    v
}

/// The row holds what the database returns for a transaction stored under
/// `id`: the id, the ticker, and then the texts of the other stored
/// parameters (see `spec_transaction_params`).
pub open spec fn is_stored_row(row: Seq<SqlValue>, id: i64, t: Transaction) -> bool {
    let params = spec_transaction_params(t);
    &&& row.len() == 8
    &&& row[0] == SqlValue::Integer(id)
    &&& row[1] == SqlValue::Text(t.ticker)
    &&& forall|i: int| 2 <= i < 8 ==> (#[trigger] row[i] matches SqlValue::Text(s) && s@ == params[i - 1])
}

/// The decimal reads back from the text that it is written as.
pub open spec fn decimal_text_round_trips(x: Decimal) -> bool {
    decimal_from_str(decimal_display(x@)) == Some(x@)
}

/// Reading back the row stored for a transaction gives the transaction with
/// the id that the database gave it, where its date and decimals read back
/// from their texts.
pub proof fn lemma_transaction_row_round_trip(row: Seq<SqlValue>, id: i64, t: Transaction)
    requires
        t.wf(),
        is_stored_row(row, id, t),
        naive_date_parse(naive_date_format(t.trade_date.days_from_ce)) == Some(t.trade_date.days_from_ce),
        decimal_text_round_trips(t.quantity),
        decimal_text_round_trips(t.price),
        decimal_text_round_trips(t.fees),
    ensures
        spec_transaction_from_row(row) == Some(Transaction { id: Some(id), ..t }),
{
    reveal_strlit("usd");
    reveal_strlit("eur");
    assert("usd"@[0] != "eur"@[0]);
    crate::types::lemma_transaction_type_sql_round_trip(t.transaction_type);
    let params = spec_transaction_params(t);
    assert(row[2] matches SqlValue::Text(s) && s@ == params[1]);
    assert(row[3] matches SqlValue::Text(s) && s@ == params[2]);
    assert(row[4] matches SqlValue::Text(s) && s@ == params[3]);
    assert(row[5] matches SqlValue::Text(s) && s@ == params[4]);
    assert(row[6] matches SqlValue::Text(s) && s@ == params[5]);
    assert(row[7] matches SqlValue::Text(s) && s@ == params[6]);
    assert(decimal_of(t.quantity@) == t.quantity);
    assert(decimal_of(t.price@) == t.price);
    assert(decimal_of(t.fees@) == t.fees);
    assert(currency_col(row[6]) == Some(t.currency));
}

/// The columns that a statement on transactions returns.
pub const TRANSACTION_COLUMNS: usize = 8usize;

/// Creates the tables `watchlist`, `transactions` and `dividends` where they do not exist.
pub fn create_tables(conn: &rusqlite::Connection) -> (r: Result<(), DbError>)
    ensures
        r matches Err(e) ==> e is Sqlite,
{
    db::create_tables(conn)
}

/// Deletes the transaction with the given id.
pub fn delete_transaction(db_conn: &rusqlite::Connection, id: i64) -> (r: Result<(), DbError>)
    ensures
        r matches Err(e) ==> e is Sqlite,
{
    let params = id_params(id);
    match db_execute(db_conn, sql(SqlStatement::DeleteTransaction), params.as_slice()) {
        Ok(_) => Ok(()),
        Err(e) => Err(DbError::Sqlite(e)),
    }
}

/// Overwrites the stored transaction that has the transaction's id with its
/// fields, and returns the row as stored.
pub fn edit_transaction(db_conn: &rusqlite::Connection, transaction: Transaction) -> (r: Result<Transaction, DbError>)
    requires
        transaction.wf(),
    ensures
        r matches Ok(t) ==> t.wf() && exists|row: Seq<SqlValue>| spec_transaction_from_row(row) == Some(t),
{
    let params = transaction_edit_params(&transaction);
    let row = match db_query_row(
        db_conn,
        sql(SqlStatement::UpdateTransaction),
        params.as_slice(),
        TRANSACTION_COLUMNS,
    ) {
        Ok(row) => row,
        Err(e) => return Err(DbError::Sqlite(e)),
    };
    let r = transaction_from_row(&row);
    proof {
        assert(r matches Ok(t) ==> spec_transaction_from_row(row@) == Some(t));
    }
    r
}

/// The transactions of the rows, in order; `None` where a row cannot be read.
pub open spec fn spec_transactions_from_rows(rows: Seq<Seq<SqlValue>>) -> Option<Seq<Transaction>>
    decreases rows.len(),
{
    if rows.len() == 0 {
        Some(Seq::empty())
    } else {
        match (spec_transactions_from_rows(rows.drop_last()), spec_transaction_from_row(rows.last())) {
            (Some(v), Some(t)) => Some(v.push(t)),
            _ => None,
        }
    }
}

/// The rows as plain sequences of values.
pub open spec fn rows_view(rows: Seq<Vec<SqlValue>>) -> Seq<Seq<SqlValue>> {
    rows.map_values(|r: Vec<SqlValue>| r@)
}

/// Reads the transactions of the rows, in order; an error where a row
/// cannot be read.
pub fn transactions_from_rows(rows: &Vec<Vec<SqlValue>>) -> (r: Result<Vec<Transaction>, DbError>)
    ensures
        match spec_transactions_from_rows(rows_view(rows@)) {
            Some(v) => r matches Ok(x) && x@ == v,
            None => r matches Err(e) && e is InvalidRow,
        },
        r matches Ok(v) ==> forall|i: int| 0 <= i < v.len() ==> (#[trigger] v[i]).wf(),
{
    let mut transactions: Vec<Transaction> = Vec::new();
    let mut i: usize = 0;
    while i < rows.len()
        invariant
            i <= rows.len(),
            spec_transactions_from_rows(rows_view(rows@).take(i as int)) == Some(transactions@),
            forall|j: int| 0 <= j < transactions.len() ==> (#[trigger] transactions[j]).wf(),
        decreases rows.len() - i,
    {
        proof {
            assert(rows_view(rows@).take(i + 1).drop_last() =~= rows_view(rows@).take(i as int));
            assert(rows_view(rows@).take(i + 1).last() == rows@[i as int]@);
        }
        match transaction_from_row(&rows[i]) {
            Ok(t) => transactions.push(t),
            Err(_) => {
                proof {
                    lemma_rows_fail(rows_view(rows@), i as int);
                }
                return Err(DbError::InvalidRow);
            },
        }
        i = i + 1;
    }
    proof {
        assert(rows_view(rows@).take(rows.len() as int) =~= rows_view(rows@));
    }
    Ok(transactions)
}

proof fn lemma_rows_fail(rows: Seq<Seq<SqlValue>>, i: int)
    requires
        0 <= i < rows.len(),
        spec_transactions_from_rows(rows.take(i + 1)) is None,
    ensures
        spec_transactions_from_rows(rows) is None,
    decreases rows.len() - i,
{
    if i + 1 < rows.len() {
        assert(rows.take(i + 2).drop_last() =~= rows.take(i + 1));
        lemma_rows_fail(rows, i + 1);
    } else {
        assert(rows.take(i + 1) =~= rows);
    }
}

/// Reads all stored transactions, the latest trade date first.
pub fn load_all_transactions_from_db(db_conn: &rusqlite::Connection) -> (r: Result<Vec<Transaction>, DbError>)
    ensures
        r matches Ok(v) ==> forall|i: int| 0 <= i < v.len() ==> (#[trigger] v[i]).wf(),
        r matches Ok(v) ==> exists|rows: Seq<Seq<SqlValue>>| spec_transactions_from_rows(rows) == Some(v@),
{
    let mut stmt = match db_prepare(
        db_conn,
        sql(SqlStatement::SelectTransactions),
    ) {
        Ok(s) => s,
        Err(e) => return Err(DbError::Sqlite(e)),
    };
    let rows = match db_query_map(&mut stmt, TRANSACTION_COLUMNS) {
        Ok(rows) => rows,
        Err(e) => return Err(DbError::Sqlite(e)),
    };
    let r = transactions_from_rows(&rows);
    proof {
        assert(r matches Ok(v) ==> spec_transactions_from_rows(rows_view(rows@)) == Some(v@));
    }
    r
}

/// Stores a new transaction (its id is not used) and returns it as stored,
/// with the id that the database gave it.
pub fn add_transaction(db_conn: &rusqlite::Connection, transaction: Transaction) -> (r: Result<Transaction, DbError>)
    requires
        transaction.wf(),
    ensures
        r matches Ok(t) ==> t.wf() && exists|row: Seq<SqlValue>| spec_transaction_from_row(row) == Some(t),
{
    let params = transaction_params(&transaction);
    let row = match db_query_row(
        db_conn,
        sql(SqlStatement::InsertTransaction),
        params.as_slice(),
        TRANSACTION_COLUMNS,
    ) {
        Ok(row) => row,
        Err(e) => return Err(DbError::Sqlite(e)),
    };
    let r = transaction_from_row(&row);
    proof {
        assert(r matches Ok(t) ==> spec_transaction_from_row(row@) == Some(t));
    }
    r
}

} // verus!
