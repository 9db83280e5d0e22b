//! A record store for the rows of one table, `items`, kept in SQLite.
//!
//! An operation borrows a connection and hands one statement to the
//! engine, again after each answer of lock contention. What the engine
//! answers is not known to the proofs. What is proved is the store's own
//! part: which statement it hands over, what it does after each answer,
//! and how it reads the rows of the last one.
//!
//! - [`models`]: the row, and what it stands for.
//! - [`fault`]: the errors of the engine and of the store, and the test for
//!   lock contention.
//! - [`statement`]: the statements, each made by a function of its own.
//! - [`retry`]: what follows an answer of the engine, and how the rows
//!   that end an operation are read.
//! - [`engine`]: the calls into diesel. Nothing is proved of them and
//!   nothing is assumed of them.
//! - [`actions`]: the operations. Their contracts say what holds of every
//!   result, whatever the engine answered.
//! - [`table`]: the table as mathematics, and the laws that hold of the
//!   store's readings on it.

pub mod models;
pub mod fault;
pub mod retry;
pub mod statement;
pub mod engine;
pub mod actions;
pub mod table;
