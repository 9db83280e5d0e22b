//! The operations of the store. Each runs one statement on a borrowed
//! connection and runs it again while the engine reports lock contention.
//!
//! What the engine answers depends on what the database holds and on who
//! else is writing to it, and no contract here says what it answers. The
//! contracts of the operations say what holds of every result. The rest is
//! stated where it can be stated exactly: which statement an operation
//! hands to the engine, in [`crate::statement`]; what follows each answer,
//! and how the rows of the last are read, in [`crate::retry`]; and what
//! that comes to on a database that keeps its rows as a
//! [`crate::table::Table`], in [`crate::table`].

use crate::engine::{fault_of, load_keyed, load_plain, load_valued};
use crate::fault::{StoreError, StoreErrorView};
use crate::models::Item;
use crate::retry::{Step, after, sought, written};
use crate::statement::{Statement, delete_one, insert_blank, select_all, select_one, upsert_of};
use diesel::sqlite::SqliteConnection;
use vstd::prelude::*;

verus! {

/// How many attempts the operations without a limit of their own allow.
/// No run of the program gets through so many: for them `Busy` is an
/// answer in principle only.
pub const RETRY_LIMIT: u64 = 0xffff_ffff_ffff_ffff;

/// Runs the statement once.
fn run(conn: &mut SqliteConnection, statement: &Statement<'_>) -> (answer: Result<
    Vec<Item>,
    diesel::result::Error,
>) {
    match statement {
        Statement::Plain(text) => load_plain(conn, text),
        Statement::Keyed(head, id, tail) => load_keyed(conn, head, *id, tail),
        Statement::Valued(head, sep, tail, item) => load_valued(conn, head, sep, tail, item),
    }
}

/// Runs the statement until [`after`] says that the operation is over,
/// which it does at the last of the `attempts` at the latest, and returns
/// what it says the operation comes to: rows, or why there are none. With
/// no attempt allowed the engine is not asked.
fn retry(conn: &mut SqliteConnection, statement: &Statement<'_>, attempts: u64) -> (r: Result<
    Vec<Item>,
    StoreError,
>)
    ensures
        attempts == 0 ==> r matches Err(StoreError::Busy),
        r matches Err(error) ==> error@.absorbs_contention() && error@ != StoreErrorView::NotFound,
{
    if attempts == 0 {
        return Err(StoreError::Busy);
    }
    let mut left: u64 = attempts;
    loop
        invariant
            1 <= left <= attempts,
        decreases left,
    {
        let answer = match run(conn, statement) {
            Ok(rows) => Ok(rows),
            Err(error) => Err(fault_of(error)),
        };
        match after(left, answer) {
            Step::Done(result) => {
                return result;
            },
            Step::Retry => {
                left = left - 1;
            },
        }
    }
}

/// Looks up the row with the identifier `uid`, in at most `attempts`
/// attempts.
///
/// Hands [`select_one`] of `uid` to the engine, acts on each answer as
/// [`after`] says, and reads the rows of the last as [`sought`] does.
pub fn get_item_within(conn: &mut SqliteConnection, uid: i32, attempts: u64) -> (r: Result<
    Item,
    StoreError,
>)
    ensures
        attempts == 0 ==> r matches Err(StoreError::Busy),
        r matches Err(error) ==> error@.absorbs_contention(),
{
    let found = retry(conn, &select_one(uid), attempts);
    sought(found)
}

/// Reads every row, in at most `attempts` attempts.
///
/// Hands [`select_all`] to the engine, acts on each answer as [`after`]
/// says, and returns the rows of the last in the engine's order, be they
/// none.
pub fn get_all_items_within(conn: &mut SqliteConnection, attempts: u64) -> (r: Result<
    Vec<Item>,
    StoreError,
>)
    ensures
        attempts == 0 ==> r matches Err(StoreError::Busy),
        r matches Err(error) ==> error@.absorbs_contention(),
        !(r matches Err(StoreError::NotFound)),
{
    retry(conn, &select_all(), attempts)
}

/// Inserts a row without text and without date under an identifier that
/// the engine picks, in at most `attempts` attempts.
///
/// Hands [`insert_blank`] to the engine, acts on each answer as [`after`]
/// says, and reads the rows of the last as [`written`] does.
pub fn new_item_within(conn: &mut SqliteConnection, attempts: u64) -> (r: Result<Item, StoreError>)
    ensures
        attempts == 0 ==> r matches Err(StoreError::Busy),
        r matches Err(error) ==> error@.absorbs_contention(),
        !(r matches Err(StoreError::NotFound)),
{
    let found = retry(conn, &insert_blank(), attempts);
    written(found)
}

/// Writes the text and the date of `nm` to the row with the identifier
/// `u_id`, in at most `attempts` attempts, whether or not there is such a
/// row. The identifier inside `nm` is not used.
///
/// Hands [`upsert_of`] of `nm` filed under `u_id` to the engine, acts on
/// each answer as [`after`] says, and reads the rows of the last as
/// [`written`] does.
pub fn update_item_within(
    conn: &mut SqliteConnection,
    u_id: &i32,
    nm: &Item,
    attempts: u64,
) -> (r: Result<Item, StoreError>)
    ensures
        attempts == 0 ==> r matches Err(StoreError::Busy),
        r matches Err(error) ==> error@.absorbs_contention(),
        !(r matches Err(StoreError::NotFound)),
{
    let new_item = nm.with_id(*u_id);
    let found = retry(conn, &upsert_of(&new_item), attempts);
    written(found)
}

/// Removes the row with the identifier `u_id`, in at most `attempts`
/// attempts.
///
/// Hands [`delete_one`] of `u_id` to the engine, acts on each answer as
/// [`after`] says, and reads the rows of the last as [`sought`] does: the
/// row as it was, and `NotFound` where nothing was removed.
pub fn delete_item_within(conn: &mut SqliteConnection, u_id: &i32, attempts: u64) -> (r: Result<
    Item,
    StoreError,
>)
    ensures
        attempts == 0 ==> r matches Err(StoreError::Busy),
        r matches Err(error) ==> error@.absorbs_contention(),
{
    let found = retry(conn, &delete_one(*u_id), attempts);
    sought(found)
}

/// [`get_item_within`] with [`RETRY_LIMIT`] attempts.
pub fn get_item(conn: &mut SqliteConnection, uid: i32) -> (r: Result<Item, StoreError>)
    ensures
        r matches Err(error) ==> error@.absorbs_contention(),
{
    get_item_within(conn, uid, RETRY_LIMIT)
}

/// [`get_all_items_within`] with [`RETRY_LIMIT`] attempts.
pub fn get_all_items(conn: &mut SqliteConnection) -> (r: Result<Vec<Item>, StoreError>)
    ensures
        r matches Err(error) ==> error@.absorbs_contention(),
        !(r matches Err(StoreError::NotFound)),
{
    get_all_items_within(conn, RETRY_LIMIT)
}

/// [`new_item_within`] with [`RETRY_LIMIT`] attempts.
pub fn new_item(conn: &mut SqliteConnection) -> (r: Result<Item, StoreError>)
    ensures
        r matches Err(error) ==> error@.absorbs_contention(),
        !(r matches Err(StoreError::NotFound)),
{
    new_item_within(conn, RETRY_LIMIT)
}

/// [`update_item_within`] with [`RETRY_LIMIT`] attempts.
pub fn update_item(conn: &mut SqliteConnection, u_id: &i32, nm: &Item) -> (r: Result<
    Item,
    StoreError,
>)
    ensures
        r matches Err(error) ==> error@.absorbs_contention(),
        !(r matches Err(StoreError::NotFound)),
{
    update_item_within(conn, u_id, nm, RETRY_LIMIT)
}

/// [`delete_item_within`] with [`RETRY_LIMIT`] attempts.
pub fn delete_item(conn: &mut SqliteConnection, u_id: &i32) -> (r: Result<Item, StoreError>)
    ensures
        r matches Err(error) ==> error@.absorbs_contention(),
{
    delete_item_within(conn, u_id, RETRY_LIMIT)
}

} // verus!
