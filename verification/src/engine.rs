//! The storage engine: SQLite, reached through diesel.
//!
//! Nothing in this file is proved. It declares the three outside types that
//! pass through the store, and it holds the four functions that call into
//! diesel. None of the four promises anything of what it returns: what the
//! engine answers depends on what the database holds and on who else is
//! writing to it, and the rest of the crate is verified for every answer.
//! All four return for every input. diesel reports what goes wrong with a
//! statement as an error; it gives up only where SQLite itself breaks down,
//! as when there is no memory left for a value.

use crate::fault::{EngineFault, FaultKind};
use crate::models::Item;
use chrono::NaiveDate;
use diesel::sql_types::{Date, Integer, Nullable, Text};
use diesel::sqlite::SqliteConnection;
use diesel::RunQueryDsl;
use vstd::prelude::*;

verus! {

/// `diesel::sqlite::SqliteConnection`, an open connection to one database.
#[verifier::external_type_specification]
#[verifier::external_body]
pub struct ExSqliteConnection(diesel::sqlite::SqliteConnection);

/// `diesel::result::Error`, the error of a statement that diesel ran.
#[verifier::external_type_specification]
#[verifier::external_body]
pub struct ExQueryError(diesel::result::Error);

/// `chrono::NaiveDate`, a calendar date.
#[verifier::external_type_specification]
#[verifier::external_body]
pub struct ExNaiveDate(chrono::NaiveDate);

/// Hands `text` to `diesel::dsl::sql` as a whole statement that returns an
/// integer, a text and a date that may be null, runs it with
/// `diesel::RunQueryDsl::load`, and makes an item of each row that comes
/// back, in the order in which they come.
///
/// Nothing is assumed of the rows or of the error.
#[verifier::external_body]
pub(crate) fn load_plain(conn: &mut SqliteConnection, text: &str) -> (answer: Result<
    Vec<Item>,
    diesel::result::Error,
>) {
    diesel::dsl::sql::<(Integer, Text, Nullable<Date>)>(text)
        .load::<(i32, String, Option<NaiveDate>)>(conn)
        .map(|rows| {
            rows.into_iter()
                .map(|(id, description, date)| Item { id, description, date })
                .collect()
        })
}

/// As [`load_plain`], for the statement that reads `head`, one parameter,
/// `tail`: `SqlLiteral::bind` binds `id` to the parameter as an integer, and
/// `UncheckedBind::sql` appends `tail`.
///
/// Nothing is assumed of the rows or of the error.
#[verifier::external_body]
pub(crate) fn load_keyed(conn: &mut SqliteConnection, head: &str, id: i32, tail: &str) -> (answer:
    Result<Vec<Item>, diesel::result::Error>) {
    diesel::dsl::sql::<(Integer, Text, Nullable<Date>)>(head)
        .bind::<Integer, _>(id)
        .sql(tail)
        .load::<(i32, String, Option<NaiveDate>)>(conn)
        .map(|rows| {
            rows.into_iter()
                .map(|(id, description, date)| Item { id, description, date })
                .collect()
        })
}

/// As [`load_plain`], for the statement that reads `head`, three parameters
/// with `sep` between them, `tail`: `SqlLiteral::bind` binds the
/// identifier of `item` to the first as an integer, its text to the second
/// as a text and its date to the third as a date that may be null.
///
/// Nothing is assumed of the rows or of the error.
#[verifier::external_body]
pub(crate) fn load_valued(
    conn: &mut SqliteConnection,
    head: &str,
    sep: &str,
    tail: &str,
    item: &Item,
) -> (answer: Result<Vec<Item>, diesel::result::Error>) {
    diesel::dsl::sql::<(Integer, Text, Nullable<Date>)>(head)
        .bind::<Integer, _>(item.id)
        .sql(sep)
        .bind::<Text, _>(item.description.as_str())
        .sql(sep)
        .bind::<Nullable<Date>, _>(item.date)
        .sql(tail)
        .load::<(i32, String, Option<NaiveDate>)>(conn)
        .map(|rows| {
            rows.into_iter()
                .map(|(id, description, date)| Item { id, description, date })
                .collect()
        })
}

/// Turns a `diesel::result::Error` into plain data: which variant it is, as
/// far as the store tells them apart, and the text that its `Display`
/// writes, which for `DatabaseError` is the message of the database.
///
/// Nothing is assumed of the result.
#[verifier::external_body]
pub(crate) fn fault_of(error: diesel::result::Error) -> (fault: EngineFault) {
    let kind = match &error {
        diesel::result::Error::DatabaseError(_, _) => FaultKind::Database,
        diesel::result::Error::NotFound => FaultKind::NoRows,
        _ => FaultKind::Other,
    };
    EngineFault { kind, message: error.to_string() }
}

} // verus!
