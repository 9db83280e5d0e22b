//! The statements that the store hands to the engine.
//!
//! A statement is text with the places for its values left open. The engine
//! puts a parameter where one piece of text ends and the next begins.

use crate::models::Item;
use vstd::prelude::*;

verus! {

/// Before the identifier, in the statement that reads one row.
pub const SELECT_ONE_HEAD: &'static str = "SELECT id, description, date FROM items WHERE id = ";

/// Behind the identifier, in the statement that reads one row.
pub const SELECT_ONE_TAIL: &'static str = " LIMIT 1";

/// The statement that reads every row.
pub const SELECT_ALL: &'static str = "SELECT id, description, date FROM items";

/// The statement that inserts a row without text and without date, and
/// returns it.
pub const INSERT_BLANK: &'static str =
    "INSERT INTO items (description, date) VALUES ('', NULL) RETURNING id, description, date";

/// Before the values, in the statement that inserts a row or replaces the
/// one with its identifier.
pub const UPSERT_HEAD: &'static str = "INSERT INTO items (id, description, date) VALUES (";

/// Between the values, in the same statement.
pub const UPSERT_SEP: &'static str = ", ";

/// Behind the values, in the same statement: what to do where a row has
/// the identifier, and that the row as written is to be returned.
pub const UPSERT_TAIL: &'static str =
    ") ON CONFLICT (id) DO UPDATE SET description = excluded.description, date = excluded.date RETURNING id, description, date";

/// Before the identifier, in the statement that deletes one row.
pub const DELETE_HEAD: &'static str = "DELETE FROM items WHERE id = ";

/// Behind the identifier, in the statement that deletes one row: that the
/// row as it was is to be returned.
pub const DELETE_TAIL: &'static str = " RETURNING id, description, date";

/// A statement and the values that go into it.
#[derive(Debug, Clone, Copy, PartialEq)]
pub enum Statement<'a> {
    /// The text as it is.
    Plain(&'a str),
    /// An identifier between two pieces of text.
    Keyed(&'a str, i32, &'a str),
    /// The identifier, the text and the date of an item, after the first
    /// piece of text, with the second between them and the third behind.
    Valued(&'a str, &'a str, &'a str, &'a Item),
}

/// The statement that reads the row with the identifier `uid`, and no other.
pub fn select_one(uid: i32) -> (s: Statement<'static>)
    ensures
        s == Statement::Keyed(SELECT_ONE_HEAD, uid, SELECT_ONE_TAIL),
{
    Statement::Keyed(SELECT_ONE_HEAD, uid, SELECT_ONE_TAIL)
}

/// The statement that reads every row.
pub fn select_all() -> (s: Statement<'static>)
    ensures
        s == Statement::Plain(SELECT_ALL),
{
    Statement::Plain(SELECT_ALL)
}

/// The statement that inserts a row without text and without date under
/// an identifier that the engine picks, and returns it.
pub fn insert_blank() -> (s: Statement<'static>)
    ensures
        s == Statement::Plain(INSERT_BLANK),
{
    Statement::Plain(INSERT_BLANK)
}

/// The statement that writes `item` under its identifier, whether or not
/// a row has it, and returns the row as written.
pub fn upsert_of<'a>(item: &'a Item) -> (s: Statement<'a>)
    ensures
        s == Statement::Valued(UPSERT_HEAD, UPSERT_SEP, UPSERT_TAIL, item),
{
    Statement::Valued(UPSERT_HEAD, UPSERT_SEP, UPSERT_TAIL, item)
}

/// The statement that deletes the row with the identifier `uid`, and no
/// other, and returns it as it was.
pub fn delete_one(uid: i32) -> (s: Statement<'static>)
    ensures
        s == Statement::Keyed(DELETE_HEAD, uid, DELETE_TAIL),
{
    Statement::Keyed(DELETE_HEAD, uid, DELETE_TAIL)
}

} // verus!
