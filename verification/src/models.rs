//! The persisted record and its mathematical view.

use chrono::NaiveDate;
use vstd::prelude::*;

verus! {

/// One row of the `items` table. The identifier is the engine's to give;
/// the text and the date are the caller's. The store carries a date between
/// the caller and the engine and never looks inside one.
#[derive(Debug, Clone, PartialEq)]
pub struct Item {
    pub id: i32,
    pub description: String,
    pub date: Option<NaiveDate>,
}

/// What an [`Item`] stands for: its identifier, its text and its date.
pub struct Row {
    pub id: int,
    pub description: Seq<char>,
    pub date: Option<NaiveDate>,
}

impl View for Item {
    type V = Row;

    open spec fn view(&self) -> Row {
        Row { id: self.id as int, description: self.description@, date: self.date }
    }
}

impl Row {
    /// The row that a store hands out for a new record under `id`: no text, no date.
    pub open spec fn blank(id: int) -> Row {
        Row { id, description: Seq::empty(), date: None }
    }

    /// This row filed under `id`.
    pub open spec fn with_id(self, id: int) -> Row {
        Row { id, ..self }
    }
}

/// The views of a sequence of items, in the same order.
pub open spec fn rows_of(items: Seq<Item>) -> Seq<Row> {
    items.map_values(|item: Item| item@)
}

impl Item {
    /// A copy of `self` filed under `id`.
    pub fn with_id(&self, id: i32) -> (item: Item)
        ensures
            item@ == self@.with_id(id as int),
    {
        Item { id, description: self.description.clone(), date: self.date }
    }
}

} // verus!
