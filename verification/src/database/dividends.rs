//! Storage of dividends.
use vstd::prelude::*;
use crate::database::{
    currency_col, date_of, db_execute, id_params, id_value, params_are_values, db_prepare, db_query_map, db_query_row, decimal_col, id_of,
    decimal_text_round_trips, read_currency, read_date, read_decimal, read_id, read_text, rows_view, text_of, texts_are, DbError,
    SqlValue,
};
use crate::date::{naive_date_format, naive_date_parse};
use crate::decimal::{decimal_display, decimal_of};
use crate::database::statements::{sql, SqlStatement};
use crate::types::Dividend;

verus! {

/// The columns that a statement on dividends returns.
pub const DIVIDEND_COLUMNS: usize = 6usize;

/// The columns `id, ticker, payment_date, amount, currency, taxes` of a row,
/// read back as a dividend.
pub open spec fn spec_dividend_from_row(row: Seq<SqlValue>) -> Option<Dividend> {
    if row.len() != 6 {
        None
    } else {
        match (id_of(row[0]), text_of(row[1]), date_of(row[2])) {
            (Some(id), Some(ticker), Some(payment_date)) => match (
                decimal_col(row[3]),
                currency_col(row[4]),
                decimal_col(row[5]),
            ) {
                (Some(amount), Some(currency), Some(taxes)) => Some(
                    Dividend { id, ticker, payment_date, amount, taxes, currency },
                ),
                _ => None,
            },
            _ => None,
        }
    }
}

/// Reads a dividend from the columns `id, ticker, payment_date, amount,
/// currency, taxes`.
pub fn dividend_from_row(row: &Vec<SqlValue>) -> (r: Result<Dividend, DbError>)
    ensures
        r matches Ok(d) ==> spec_dividend_from_row(row@) == Some(d) && d.wf(),
        r is Err ==> spec_dividend_from_row(row@) is None,
{
    if row.len() != 6 {
        return Err(DbError::InvalidRow);
    }
    let id = read_id(&row[0])?;
    let ticker = read_text(&row[1])?;
    let payment_date = read_date(&row[2])?;
    let amount = read_decimal(&row[3])?;
    let currency = read_currency(&row[4])?;
    let taxes = read_decimal(&row[5])?;
    Ok(Dividend { id, ticker, payment_date, amount, taxes, currency })
}

/// The parameters under which a dividend is stored: ticker, payment date,
/// amount, currency and taxes, each as text.
pub open spec fn spec_dividend_params(d: Dividend) -> Seq<Seq<char>> {
    seq![
        d.ticker@,
        naive_date_format(d.payment_date.days_from_ce),
        decimal_display(d.amount@),
        d.currency.sql_text(),
        decimal_display(d.taxes@),
    ]
}

/// The row holds what the database returns for a dividend stored under
/// `id`: the id, the ticker, and then the texts of the other stored
/// parameters (see `spec_dividend_params`).
pub open spec fn is_stored_dividend_row(row: Seq<SqlValue>, id: i64, d: Dividend) -> bool {
    let params = spec_dividend_params(d);
    &&& row.len() == 6
    &&& row[0] == SqlValue::Integer(id)
    &&& row[1] == SqlValue::Text(d.ticker)
    &&& forall|i: int| 2 <= i < 6 ==> (#[trigger] row[i] matches SqlValue::Text(s) && s@ == params[i - 1])
}

/// Reading back the row stored for a dividend gives the dividend with the id
/// that the database gave it, where its date and decimals read back from
/// their texts.
pub proof fn lemma_dividend_row_round_trip(row: Seq<SqlValue>, id: i64, d: Dividend)
    requires
        d.wf(),
        is_stored_dividend_row(row, id, d),
        naive_date_parse(naive_date_format(d.payment_date.days_from_ce)) == Some(d.payment_date.days_from_ce),
        decimal_text_round_trips(d.amount),
        decimal_text_round_trips(d.taxes),
    ensures
        spec_dividend_from_row(row) == Some(Dividend { id: Some(id), ..d }),
{
    reveal_strlit("usd");
    reveal_strlit("eur");
    assert("usd"@[0] != "eur"@[0]);
    let params = spec_dividend_params(d);
    assert(row[2] matches SqlValue::Text(s) && s@ == params[1]);
    assert(row[3] matches SqlValue::Text(s) && s@ == params[2]);
    assert(row[4] matches SqlValue::Text(s) && s@ == params[3]);
    assert(row[5] matches SqlValue::Text(s) && s@ == params[4]);
    assert(decimal_of(d.amount@) == d.amount);
    assert(decimal_of(d.taxes@) == d.taxes);
    assert(currency_col(row[4]) == Some(d.currency));
}

/// The parameters under which a dividend is stored.
pub fn dividend_params(d: &Dividend) -> (r: Vec<SqlValue>)
    requires
        d.wf(),
    ensures
        texts_are(r@, spec_dividend_params(*d)),
{
    let mut v: Vec<SqlValue> = Vec::new();
    v.push(SqlValue::Text(d.ticker.clone()));
    v.push(SqlValue::Text(d.payment_date.to_string()));
    v.push(SqlValue::Text(d.amount.to_string()));
    v.push(SqlValue::Text(d.currency.to_sql()));
    v.push(SqlValue::Text(d.taxes.to_string()));
    v
}

/// The parameters with which a dividend is overwritten: those under which it
/// is stored, then its id.
pub fn dividend_edit_params(d: &Dividend) -> (r: Vec<SqlValue>)
    requires
        d.wf(),
    ensures
        r@.len() == 6,
        texts_are(r@.take(5), spec_dividend_params(*d)),
        r@[5] == id_value(d.id),
        params_are_values(r@),
{
    let mut v = dividend_params(d);
    let ghost texts = v@;
    v.push(match d.id {
        Some(id) => SqlValue::Integer(id),
        None => SqlValue::Null,
    });
    proof {
        assert(v@.take(5) =~= texts);
        assert forall|i: int| 0 <= i < v@.len() implies !(#[trigger] v@[i] is Other) by {
            if i < 5 {
                assert(v@[i] == v@.take(5)[i]);
            }
        }
    }
    v
}

/// Deletes the dividend with the given id.
pub fn delete_dividend(db_conn: &rusqlite::Connection, id: i64) -> (r: Result<(), DbError>)
    ensures
        r matches Err(e) ==> e is Sqlite,
{
    let params = id_params(id);
    match db_execute(db_conn, sql(SqlStatement::DeleteDividend), params.as_slice()) {
        Ok(_) => Ok(()),
        Err(e) => Err(DbError::Sqlite(e)),
    }
}

/// Overwrites the stored dividend that has the dividend's id with its
/// fields, and returns the row as stored.
pub fn edit_dividend(db_conn: &rusqlite::Connection, dividend: Dividend) -> (r: Result<Dividend, DbError>)
    requires
        dividend.wf(),
    ensures
        r matches Ok(d) ==> d.wf() && exists|row: Seq<SqlValue>| spec_dividend_from_row(row) == Some(d),
{
    let params = dividend_edit_params(&dividend);
    let row = match db_query_row(
        db_conn,
        sql(SqlStatement::UpdateDividend),
        params.as_slice(),
        DIVIDEND_COLUMNS,
    ) {
        Ok(row) => row,
        Err(e) => return Err(DbError::Sqlite(e)),
    };
    let r = dividend_from_row(&row);
    proof {
        assert(r matches Ok(d) ==> spec_dividend_from_row(row@) == Some(d));
    }
    r
}

/// The dividends of the rows, in order; `None` where a row cannot be read.
pub open spec fn spec_dividends_from_rows(rows: Seq<Seq<SqlValue>>) -> Option<Seq<Dividend>>
    decreases rows.len(),
{
    if rows.len() == 0 {
        Some(Seq::empty())
    } else {
        match (spec_dividends_from_rows(rows.drop_last()), spec_dividend_from_row(rows.last())) {
            (Some(v), Some(d)) => Some(v.push(d)),
            _ => None,
        }
    }
}

proof fn lemma_dividend_rows_fail(rows: Seq<Seq<SqlValue>>, i: int)
    requires
        0 <= i < rows.len(),
        spec_dividends_from_rows(rows.take(i + 1)) is None,
    ensures
        spec_dividends_from_rows(rows) is None,
    decreases rows.len() - i,
{
    if i + 1 < rows.len() {
        assert(rows.take(i + 2).drop_last() =~= rows.take(i + 1));
        lemma_dividend_rows_fail(rows, i + 1);
    } else {
        assert(rows.take(i + 1) =~= rows);
    }
}

/// Reads the dividends of the rows, in order; an error where a row cannot
/// be read.
pub fn dividends_from_rows(rows: &Vec<Vec<SqlValue>>) -> (r: Result<Vec<Dividend>, DbError>)
    ensures
        match spec_dividends_from_rows(rows_view(rows@)) {
            Some(v) => r matches Ok(x) && x@ == v,
            None => r matches Err(e) && e is InvalidRow,
        },
        r matches Ok(v) ==> forall|i: int| 0 <= i < v.len() ==> (#[trigger] v[i]).wf(),
{
    let mut dividends: Vec<Dividend> = Vec::new();
    let mut i: usize = 0;
    while i < rows.len()
        invariant
            i <= rows.len(),
            spec_dividends_from_rows(rows_view(rows@).take(i as int)) == Some(dividends@),
            forall|j: int| 0 <= j < dividends.len() ==> (#[trigger] dividends[j]).wf(),
        decreases rows.len() - i,
    {
        proof {
            assert(rows_view(rows@).take(i + 1).drop_last() =~= rows_view(rows@).take(i as int));
            assert(rows_view(rows@).take(i + 1).last() == rows@[i as int]@);
        }
        match dividend_from_row(&rows[i]) {
            Ok(d) => dividends.push(d),
            Err(_) => {
                proof {
                    lemma_dividend_rows_fail(rows_view(rows@), i as int);
                }
                return Err(DbError::InvalidRow);
            },
        }
        i = i + 1;
    }
    proof {
        assert(rows_view(rows@).take(rows.len() as int) =~= rows_view(rows@));
    }
    Ok(dividends)
}

/// Reads all stored dividends, the latest payment date first.
pub fn load_all_dividends_from_db(db_conn: &rusqlite::Connection) -> (r: Result<Vec<Dividend>, DbError>)
    ensures
        r matches Ok(v) ==> forall|i: int| 0 <= i < v.len() ==> (#[trigger] v[i]).wf(),
        r matches Ok(v) ==> exists|rows: Seq<Seq<SqlValue>>| spec_dividends_from_rows(rows) == Some(v@),
{
    let mut stmt = match db_prepare(
        db_conn,
        sql(SqlStatement::SelectDividends),
    ) {
        Ok(s) => s,
        Err(e) => return Err(DbError::Sqlite(e)),
    };
    let rows = match db_query_map(&mut stmt, DIVIDEND_COLUMNS) {
        Ok(rows) => rows,
        Err(e) => return Err(DbError::Sqlite(e)),
    };
    let r = dividends_from_rows(&rows);
    proof {
        assert(r matches Ok(v) ==> spec_dividends_from_rows(rows_view(rows@)) == Some(v@));
    }
    r
}

/// Stores a new dividend (its id is not used) and returns it as stored, with
/// the id that the database gave it.
pub fn add_dividend(db_conn: &rusqlite::Connection, dividend: Dividend) -> (r: Result<Dividend, DbError>)
    requires
        dividend.wf(),
    ensures
        r matches Ok(d) ==> d.wf() && exists|row: Seq<SqlValue>| spec_dividend_from_row(row) == Some(d),
{
    let params = dividend_params(&dividend);
    let row = match db_query_row(
        db_conn,
        sql(SqlStatement::InsertDividend),
        params.as_slice(),
        DIVIDEND_COLUMNS,
    ) {
        Ok(row) => row,
        Err(e) => return Err(DbError::Sqlite(e)),
    };
    let r = dividend_from_row(&row);
    proof {
        assert(r matches Ok(d) ==> spec_dividend_from_row(row@) == Some(d));
    }
    r
}

} // verus!
