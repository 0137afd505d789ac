//! Keeping the in-memory list of transactions (or dividends) in step with
//! the database.
use vstd::prelude::*;
use crate::database::dividends::{add_dividend, spec_dividend_from_row};
use crate::database::{add_transaction, delete_transaction, edit_transaction, spec_transaction_from_row, DbError, SqlValue};
use crate::types::{Dividend, Transaction};

verus! {

/// Error of updating a list together with the database.
#[derive(Debug)]
pub enum ListError {
    /// No transaction of the list has this id.
    NotFound(i64),
    /// The database reported an error.
    Db(DbError),
}

/// Position of the first transaction whose id is `id`.
#[verifier::opaque]
pub open spec fn first_with_id(list: Seq<Transaction>, id: Option<i64>) -> Option<int> {
    if exists|i: int| 0 <= i < list.len() && #[trigger] list[i].id == id {
        Some(choose|i: int| 0 <= i < list.len() && #[trigger] list[i].id == id
            && forall|j: int| 0 <= j < i ==> #[trigger] list[j].id != id)
    } else {
        None
    }
}

/// Every transaction up to the first with id `Some(id)` (all of them, where
/// none has it) has an id.
#[verifier::opaque]
pub open spec fn ids_set_up_to(list: Seq<Transaction>, id: i64) -> bool {
    forall|i: int|
        0 <= i < list.len() && (forall|j: int| 0 <= j < i ==> #[trigger] list[j].id != Some(id))
            ==> (#[trigger] list[i].id) is Some
}

proof fn lemma_first_with_id_found(list: Seq<Transaction>, id: Option<i64>, p: int)
    requires
        0 <= p < list.len(),
        list[p].id == id,
        forall|j: int| 0 <= j < p ==> #[trigger] list[j].id != id,
    ensures
        first_with_id(list, id) == Some(p),
{
    reveal(first_with_id);
    let q = choose|i: int| 0 <= i < list.len() && #[trigger] list[i].id == id
        && forall|j: int| 0 <= j < i ==> #[trigger] list[j].id != id;
    assert(0 <= q < list.len() && list[q].id == id && forall|j: int| 0 <= j < q ==> #[trigger] list[j].id != id);
    if q < p {
        assert(list[q].id != id);
    }
    if p < q {
        assert(list[p].id != id);
    }
}

fn find_id(list: &Vec<Transaction>, id: Option<i64>) -> (r: Option<usize>)
    ensures
        r matches Some(p) ==> p < list.len() && first_with_id(list@, id) == Some(p as int),
        r is None ==> first_with_id(list@, id) is None,
{
    let mut i: usize = 0;
    while i < list.len()
        invariant
            i <= list.len(),
            forall|j: int| 0 <= j < i ==> #[trigger] list@[j].id != id,
        decreases list.len() - i,
    {
        let same = match (list[i].id, id) {
            (Some(a), Some(b)) => a == b,
            (None, None) => true,
            _ => false,
        };
        if same {
            proof {
                lemma_first_with_id_found(list@, id, i as int);
            }
            return Some(i);
        }
        i = i + 1;
    }
    proof {
        reveal(first_with_id);
    }
    None
}

/// Stores the transaction and appends it, as stored, to the list.
pub fn add_transaction_to_list(
    conn: &rusqlite::Connection,
    trans_list: &mut Vec<Transaction>,
    trans: Transaction,
) -> (r: Result<(), ListError>)
    requires
        trans.wf(),
    ensures
        r is Ok ==> final(trans_list)@.len() == old(trans_list)@.len() + 1
            && final(trans_list)@.drop_last() == old(trans_list)@
            && final(trans_list)@.last().wf()
            && exists|row: Seq<SqlValue>| spec_transaction_from_row(row) == Some(final(trans_list)@.last()),
        r matches Err(e) ==> e is Db && final(trans_list)@ == old(trans_list)@,
{
    let new_transaction = match add_transaction(conn, trans) {
        Ok(t) => t,
        Err(e) => return Err(ListError::Db(e)),
    };
    trans_list.push(new_transaction);
    proof {
        assert(trans_list@.drop_last() =~= old(trans_list)@);
    }
    Ok(())
}

/// Deletes the transaction with the given id from the database and then
/// removes the first transaction with that id from the list.
pub fn delete_transaction_from_list(
    conn: &rusqlite::Connection,
    trans_list: &mut Vec<Transaction>,
    index: i64,
) -> (r: Result<(), ListError>)
    requires
        ids_set_up_to(old(trans_list)@, index),
    ensures
        r matches Err(ListError::Db(_)) ==> final(trans_list)@ == old(trans_list)@,
        !(r matches Err(ListError::Db(_))) ==> match first_with_id(old(trans_list)@, Some(index)) {
            Some(p) => r is Ok && final(trans_list)@ == old(trans_list)@.remove(p),
            None => r matches Err(ListError::NotFound(i)) && i == index && final(trans_list)@ == old(trans_list)@,
        },
{
    match delete_transaction(conn, index) {
        Ok(()) => {},
        Err(e) => return Err(ListError::Db(e)),
    }
    match find_id(trans_list, Some(index)) {
        Some(p) => {
            let _ = trans_list.remove(p);
            Ok(())
        },
        None => Err(ListError::NotFound(index)),
    }
}

/// Removes the first transaction with the transaction's id from the list,
/// stores the transaction's fields under that id, and appends the
/// transaction as stored.
pub fn edit_transaction_in_list(
    conn: &rusqlite::Connection,
    trans_list: &mut Vec<Transaction>,
    trans: Transaction,
) -> (r: Result<(), ListError>)
    requires
        trans.wf(),
        first_with_id(old(trans_list)@, trans.id) is Some || trans.id is Some,
    ensures
        match first_with_id(old(trans_list)@, trans.id) {
            Some(p) => match r {
                Ok(()) => final(trans_list)@.len() == old(trans_list)@.len()
                    && final(trans_list)@.drop_last() == old(trans_list)@.remove(p)
                    && final(trans_list)@.last().wf()
                    && exists|row: Seq<SqlValue>| spec_transaction_from_row(row) == Some(final(trans_list)@.last()),
                Err(e) => e is Db && final(trans_list)@ == old(trans_list)@.remove(p),
            },
            None => r matches Err(ListError::NotFound(i)) && Some(i) == trans.id
                && final(trans_list)@ == old(trans_list)@,
        },
{
    let index = match find_id(trans_list, trans.id) {
        Some(p) => p,
        None => {
            return match trans.id {
                Some(i) => Err(ListError::NotFound(i)),
                None => Err(ListError::NotFound(0)),
            };
        },
    };
    let _ = trans_list.remove(index);
    let ghost removed = trans_list@;
    let new_trans = match edit_transaction(conn, trans) {
        Ok(t) => t,
        Err(e) => return Err(ListError::Db(e)),
    };
    trans_list.push(new_trans);
    proof {
        assert(trans_list@.drop_last() =~= removed);
    }
    Ok(())
}

/// Stores the dividend and appends it, as stored, to the list.
pub fn add_dividend_to_list(
    conn: &rusqlite::Connection,
    div_list: &mut Vec<Dividend>,
    div: Dividend,
) -> (r: Result<(), ListError>)
    requires
        div.wf(),
    ensures
        r is Ok ==> final(div_list)@.len() == old(div_list)@.len() + 1
            && final(div_list)@.drop_last() == old(div_list)@
            && final(div_list)@.last().wf()
            && exists|row: Seq<SqlValue>| spec_dividend_from_row(row) == Some(final(div_list)@.last()),
        r matches Err(e) ==> e is Db && final(div_list)@ == old(div_list)@,
{
    let new_dividend = match add_dividend(conn, div) {
        Ok(d) => d,
        Err(e) => return Err(ListError::Db(e)),
    };
    div_list.push(new_dividend);
    proof {
        assert(div_list@.drop_last() =~= old(div_list)@);
    }
    Ok(())
}

} // verus!
