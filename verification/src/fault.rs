//! Errors of the engine and of the store, and the test for lock contention.

use crate::models::{Item, Row, rows_of};
use vstd::prelude::*;

verus! {

/// The message with which SQLite turns a statement away while another
/// connection holds the write lock.
pub const LOCKED_MESSAGE: &'static str = "database is locked";

/// The message of the fault that stands for a missing row.
pub const NO_ROWS_MESSAGE: &'static str = "Record not found";

/// What kind of error the engine reported.
#[derive(Debug, Clone, Copy, PartialEq, Eq)]
pub enum FaultKind {
    /// The database itself refused the statement.
    Database,
    /// A statement that must return a row returned none.
    NoRows,
    /// Anything else: a statement that could not be built, a value that
    /// could not be read or written.
    Other,
}

/// An error of the storage engine, as plain data.
#[derive(Debug, Clone, PartialEq, Eq)]
pub struct EngineFault {
    pub kind: FaultKind,
    pub message: String,
}

/// What an [`EngineFault`] stands for.
pub struct FaultView {
    pub kind: FaultKind,
    pub message: Seq<char>,
}

impl View for EngineFault {
    type V = FaultView;

    open spec fn view(&self) -> FaultView {
        FaultView { kind: self.kind, message: self.message@ }
    }
}

impl FaultView {
    /// Lock contention: the database refused the statement, and only
    /// because another write was under way.
    pub open spec fn is_transient(self) -> bool {
        self.kind == FaultKind::Database && self.message == LOCKED_MESSAGE@
    }

    /// The fault that stands for a missing row.
    pub open spec fn no_rows() -> FaultView {
        FaultView { kind: FaultKind::NoRows, message: NO_ROWS_MESSAGE@ }
    }
}

impl EngineFault {
    /// Whether running the same statement again can help.
    pub fn is_transient(&self) -> (b: bool)
        ensures
            b == self@.is_transient(),
    {
        match self.kind {
            FaultKind::Database => {
                let locked = LOCKED_MESSAGE.to_owned();
                self.message == locked
            },
            _ => false,
        }
    }

    /// The fault for a statement that must return a row and returned none.
    pub fn no_rows() -> (fault: EngineFault)
        ensures
            fault@ == FaultView::no_rows(),
    {
        EngineFault { kind: FaultKind::NoRows, message: NO_ROWS_MESSAGE.to_owned() }
    }
}

/// Why an operation of the store gave no row.
#[derive(Debug, Clone, PartialEq, Eq)]
pub enum StoreError {
    /// No row has the identifier.
    NotFound,
    /// Every attempt that the call allowed met lock contention.
    Busy,
    /// The engine failed, and not for lock contention.
    Storage(EngineFault),
}

/// What a [`StoreError`] stands for.
pub enum StoreErrorView {
    NotFound,
    Busy,
    Storage(FaultView),
}

impl View for StoreError {
    type V = StoreErrorView;

    open spec fn view(&self) -> StoreErrorView {
        match self {
            StoreError::NotFound => StoreErrorView::NotFound,
            StoreError::Busy => StoreErrorView::Busy,
            StoreError::Storage(fault) => StoreErrorView::Storage(fault@),
        }
    }
}

impl StoreErrorView {
    /// Lock contention stays inside the store: no error that leaves it
    /// carries a transient fault.
    pub open spec fn absorbs_contention(self) -> bool {
        self matches StoreErrorView::Storage(fault) ==> !fault.is_transient()
    }

    /// The error in words: the engine's own message where it has one.
    pub open spec fn message(self) -> Seq<char> {
        match self {
            StoreErrorView::NotFound => NO_ROWS_MESSAGE@,
            StoreErrorView::Busy => LOCKED_MESSAGE@,
            StoreErrorView::Storage(fault) => fault.message,
        }
    }
}

impl StoreError {
    /// The error in words, for a caller that reports it.
    pub fn message(&self) -> (text: String)
        ensures
            text@ == self@.message(),
    {
        match self {
            StoreError::NotFound => NO_ROWS_MESSAGE.to_owned(),
            StoreError::Busy => LOCKED_MESSAGE.to_owned(),
            StoreError::Storage(fault) => fault.message.clone(),
        }
    }
}

/// What the result of an operation on one row stands for.
pub open spec fn row_result(r: Result<Item, StoreError>) -> Result<Row, StoreErrorView> {
    match r {
        Ok(item) => Ok(item@),
        Err(error) => Err(error@),
    }
}

/// What the result of an operation on all rows stands for.
pub open spec fn rows_result(r: Result<Vec<Item>, StoreError>) -> Result<Seq<Row>, StoreErrorView> {
    match r {
        Ok(items) => Ok(rows_of(items@)),
        Err(error) => Err(error@),
    }
}

} // verus!
