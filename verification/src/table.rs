//! The `items` table as mathematics, and what the store's answers come to
//! on it.
//!
//! A [`Table`] maps identifiers to rows. The functions of the first `impl`
//! say what a statement returns and leaves behind where the engine keeps
//! its rows so and no one else writes in between; the second `impl` joins
//! them with the way the store reads an answer ([`crate::retry`]). The
//! proof functions below are the laws that follow. Nothing here talks to a
//! database: that SQLite behaves as a `Table` is what the tests try.

use crate::fault::{FaultView, StoreErrorView};
use crate::models::Row;
use crate::retry::{Answer, is_contention, settled, sought_spec, written_spec};
use vstd::prelude::*;

verus! {

/// The rows of the table, each under its identifier.
pub struct Table {
    pub rows: Map<int, Row>,
}

impl Table {
    /// There are finitely many rows, and each row is filed under the
    /// identifier that it carries: an identifier names at most one row.
    pub open spec fn wf(self) -> bool {
        &&& self.rows.dom().finite()
        &&& forall|id: int| self.rows.contains_key(id) ==> (#[trigger] self.rows[id]).id == id
    }

    /// The table without rows.
    pub open spec fn empty() -> Table {
        Table { rows: Map::empty() }
    }

    /// Whether a row has the identifier `id`.
    pub open spec fn holds(self, id: int) -> bool {
        self.rows.contains_key(id)
    }

    /// How many rows there are.
    pub open spec fn count(self) -> nat {
        self.rows.dom().len()
    }

    /// What a statement that names the row `id` returns: that row, if there
    /// is one.
    pub open spec fn selected(self, id: int) -> Seq<Row> {
        if self.holds(id) {
            seq![self.rows[id]]
        } else {
            Seq::empty()
        }
    }

    /// The table after `row` was inserted, or has replaced the row with its
    /// identifier.
    pub open spec fn upserted(self, row: Row) -> Table {
        Table { rows: self.rows.insert(row.id, row) }
    }

    /// The table after the row `id` was removed, if there was one.
    pub open spec fn deleted(self, id: int) -> Table {
        Table { rows: self.rows.remove(id) }
    }

    /// Whether `rows` is the table read in some order: every entry is a row
    /// of the table, no row comes twice, and none is left out.
    pub open spec fn scanned(self, rows: Seq<Row>) -> bool {
        &&& forall|i: int|
            0 <= i < rows.len() ==> self.holds((#[trigger] rows[i]).id) && self.rows[rows[i].id]
                == rows[i]
        &&& forall|i: int, j: int|
            0 <= i < j < rows.len() ==> (#[trigger] rows[i]).id != (#[trigger] rows[j]).id
        &&& forall|id: int|
            self.holds(id) ==> exists|i: int| 0 <= i < rows.len() && (#[trigger] rows[i]).id == id
    }
}

impl Table {
    /// What comes of a statement that the engine answers with `rows`.
    pub open spec fn answered(rows: Seq<Row>) -> Result<Seq<Row>, StoreErrorView> {
        Ok(rows)
    }

    /// What looking up `id` answers.
    pub open spec fn get(self, id: int) -> Result<Row, StoreErrorView> {
        sought_spec(Table::answered(self.selected(id)))
    }

    /// What reading every row answers, where the engine hands them out as `rows`.
    pub open spec fn get_all(self, rows: Seq<Row>) -> Result<Seq<Row>, StoreErrorView> {
        Table::answered(rows)
    }

    /// The table after a row was created, and the answer, where the engine
    /// picked `id` for it.
    pub open spec fn create(self, id: int) -> (Table, Result<Row, StoreErrorView>) {
        (self.upserted(Row::blank(id)), written_spec(Table::answered(seq![Row::blank(id)])))
    }

    /// The table after `values` was written to the row `id`, and the answer.
    pub open spec fn update(self, id: int, values: Row) -> (Table, Result<Row, StoreErrorView>) {
        (
            self.upserted(values.with_id(id)),
            written_spec(Table::answered(seq![values.with_id(id)])),
        )
    }

    /// The table after the row `id` was deleted, and the answer.
    pub open spec fn delete(self, id: int) -> (Table, Result<Row, StoreErrorView>) {
        (self.deleted(id), sought_spec(Table::answered(self.selected(id))))
    }
}

/// An operation that hears lock contention fewer times than it has
/// attempts, and then rows from the engine, comes to what it comes to
/// where the engine answers with those rows at once.
pub proof fn law_answered_after_contention(attempts: nat, waits: Seq<Answer>, rows: Seq<Row>)
    requires
        waits.len() < attempts,
        forall|i: int| 0 <= i < waits.len() ==> is_contention(#[trigger] waits[i]),
    ensures
        settled(attempts, waits.push(Ok::<Seq<Row>, FaultView>(rows))) == Some(
            Table::answered(rows),
        ),
{
    crate::retry::law_contention_is_waited_out(attempts, waits, Ok::<Seq<Row>, FaultView>(rows));
}

/// Every operation leaves a table in which an identifier names at most one row.
pub proof fn law_operations_keep_wf(table: Table, id: int, values: Row)
    requires
        table.wf(),
    ensures
        table.create(id).0.wf(),
        table.update(id, values).0.wf(),
        table.delete(id).0.wf(),
{
}

/// A row that was created is read back as it was handed out: whichever
/// identifier the engine picked, the creation answers a row under it
/// without text and without date, and looking up that identifier answers
/// the same.
pub proof fn law_get_after_create(table: Table, id: int)
    ensures
        table.create(id).1 == Ok::<Row, StoreErrorView>(Row::blank(id)),
        table.create(id).0.get(id) == table.create(id).1,
{
}

/// Deleting answers the row as it was. After that the identifier is gone:
/// looking it up answers `NotFound`, and so does deleting it once more,
/// which changes nothing.
pub proof fn law_get_after_delete(table: Table, id: int)
    ensures
        table.holds(id) ==> table.delete(id).1 == Ok::<Row, StoreErrorView>(table.rows[id]),
        !table.holds(id) ==> table.delete(id).1 == Err::<Row, StoreErrorView>(
            StoreErrorView::NotFound,
        ),
        table.delete(id).0.get(id) == Err::<Row, StoreErrorView>(StoreErrorView::NotFound),
        table.delete(id).0.delete(id).1 == Err::<Row, StoreErrorView>(StoreErrorView::NotFound),
        table.delete(id).0.delete(id).0 == table.delete(id).0,
{
    assert(table.rows.remove(id).remove(id) =~= table.rows.remove(id));
}

/// An update answers the values that it was given, filed under the
/// identifier that it was given, and a lookup of that identifier then
/// answers the same, whether or not the row was there before.
pub proof fn law_get_after_update(table: Table, id: int, values: Row)
    ensures
        table.update(id, values).1 == Ok::<Row, StoreErrorView>(values.with_id(id)),
        table.update(id, values).0.get(id) == table.update(id, values).1,
{
}

/// No operation on one identifier changes what a lookup of another answers.
pub proof fn law_other_rows_stay(table: Table, id: int, values: Row, other: int)
    requires
        other != id,
    ensures
        table.create(id).0.get(other) == table.get(other),
        table.update(id, values).0.get(other) == table.get(other),
        table.delete(id).0.get(other) == table.get(other),
{
}

/// One write to the table.
pub enum Write {
    /// A row was created, and the engine picked this identifier for it.
    Create(int),
    /// These values were written to the row with this identifier.
    Update(int, Row),
    /// The row with this identifier was deleted.
    Delete(int),
}

impl Table {
    /// The table after the write `w`.
    pub open spec fn after(self, w: Write) -> Table {
        match w {
            Write::Create(id) => self.create(id).0,
            Write::Update(id, values) => self.update(id, values).0,
            Write::Delete(id) => self.delete(id).0,
        }
    }

    /// Whether the write `w` brings a row into being: a creation does, and
    /// so does an update of an identifier that no row has.
    pub open spec fn gains(self, w: Write) -> bool {
        match w {
            Write::Create(id) => !self.holds(id),
            Write::Update(id, _) => !self.holds(id),
            Write::Delete(_) => false,
        }
    }

    /// Whether the write `w` removes a row: a deletion of an identifier
    /// that a row has.
    pub open spec fn loses(self, w: Write) -> bool {
        w matches Write::Delete(id) && self.holds(id)
    }

    /// The table after the writes `writes`, made in this order.
    pub open spec fn after_all(self, writes: Seq<Write>) -> Table
        decreases writes.len(),
    {
        if writes.len() == 0 {
            self
        } else {
            self.after_all(writes.drop_last()).after(writes.last())
        }
    }

    /// How many of the writes brought a row into being.
    pub open spec fn gained(self, writes: Seq<Write>) -> nat
        decreases writes.len(),
    {
        if writes.len() == 0 {
            0
        } else if self.after_all(writes.drop_last()).gains(writes.last()) {
            self.gained(writes.drop_last()) + 1
        } else {
            self.gained(writes.drop_last())
        }
    }

    /// How many of the writes removed a row.
    pub open spec fn lost(self, writes: Seq<Write>) -> nat
        decreases writes.len(),
    {
        if writes.len() == 0 {
            0
        } else if self.after_all(writes.drop_last()).loses(writes.last()) {
            self.lost(writes.drop_last()) + 1
        } else {
            self.lost(writes.drop_last())
        }
    }

    /// The row that the last creation or update of `id` among the writes
    /// wrote, and the row that the table had under `id` where none of them
    /// wrote to it.
    pub open spec fn last_written(self, writes: Seq<Write>, id: int) -> Row
        decreases writes.len(),
    {
        if writes.len() == 0 {
            self.rows[id]
        } else {
            match writes.last() {
                Write::Create(to) if to == id => Row::blank(id),
                Write::Update(to, values) if to == id => values.with_id(id),
                _ => self.last_written(writes.drop_last(), id),
            }
        }
    }

    /// Whether the writes do what they are named for: each creation gets an
    /// identifier that no row has, and each update and each deletion names
    /// a row that is there.
    pub open spec fn orderly(self, writes: Seq<Write>) -> bool
        decreases writes.len(),
    {
        if writes.len() == 0 {
            true
        } else {
            &&& self.orderly(writes.drop_last())
            &&& match writes.last() {
                Write::Create(id) => !self.after_all(writes.drop_last()).holds(id),
                Write::Update(id, _) => self.after_all(writes.drop_last()).holds(id),
                Write::Delete(id) => self.after_all(writes.drop_last()).holds(id),
            }
        }
    }
}

/// How many of the writes are creations.
pub open spec fn creations(writes: Seq<Write>) -> nat
    decreases writes.len(),
{
    if writes.len() == 0 {
        0
    } else if writes.last() is Create {
        creations(writes.drop_last()) + 1
    } else {
        creations(writes.drop_last())
    }
}

/// How many of the writes are deletions.
pub open spec fn deletions(writes: Seq<Write>) -> nat
    decreases writes.len(),
{
    if writes.len() == 0 {
        0
    } else if writes.last() is Delete {
        deletions(writes.drop_last()) + 1
    } else {
        deletions(writes.drop_last())
    }
}

/// Writes leave a table in which an identifier names at most one row. It
/// has as many rows as before, and those that the writes brought into
/// being, less those that they removed; and each row is as it was last
/// written.
pub proof fn law_rows_after_writes(table: Table, writes: Seq<Write>)
    requires
        table.wf(),
    ensures
        table.after_all(writes).wf(),
        table.after_all(writes).count() == table.count() + table.gained(writes) - table.lost(
            writes,
        ),
        forall|id: int| #[trigger]
            table.after_all(writes).holds(id) ==> table.after_all(writes).rows[id]
                == table.last_written(writes, id),
    decreases writes.len(),
{
    if writes.len() > 0 {
        let before = table.after_all(writes.drop_last());
        law_rows_after_writes(table, writes.drop_last());
        assert forall|id: int| #[trigger]
            table.after_all(writes).holds(id) implies table.after_all(writes).rows[id]
            == table.last_written(writes, id) by {
            match writes.last() {
                Write::Create(to) => {
                    assert(to != id ==> before.holds(id));
                },
                Write::Update(to, _) => {
                    assert(to != id ==> before.holds(id));
                },
                Write::Delete(to) => {
                    assert(before.holds(id));
                },
            }
        }
    }
}

/// A table read in any order gives as many rows as it has.
pub proof fn law_scan_counts_rows(table: Table, rows: Seq<Row>)
    requires
        table.scanned(rows),
    ensures
        rows.len() == table.count(),
{
    let ids = rows.map_values(|row: Row| row.id);
    assert(ids.no_duplicates());
    assert(ids.to_set() =~= table.rows.dom()) by {
        assert forall|id: int| table.rows.dom().contains(id) implies ids.to_set().contains(id) by {
            assert(table.holds(id));
            let i = choose|i: int| 0 <= i < rows.len() && (#[trigger] rows[i]).id == id;
            assert(ids[i] == id);
        }
        assert forall|id: int| ids.to_set().contains(id) implies table.rows.dom().contains(id) by {
            let i = choose|i: int| 0 <= i < ids.len() && ids[i] == id;
            assert(table.holds(rows[i].id));
        }
    }
    ids.unique_seq_to_set();
}

/// After any writes in any order, reading every row answers as many rows
/// as there were, and those that came into being, less those that were
/// removed, each of them as it was last written.
pub proof fn law_get_all_after_writes(table: Table, writes: Seq<Write>, rows: Seq<Row>)
    requires
        table.wf(),
        table.after_all(writes).scanned(rows),
    ensures
        table.after_all(writes).get_all(rows) == Ok::<Seq<Row>, StoreErrorView>(rows),
        rows.len() == table.count() + table.gained(writes) - table.lost(writes),
        forall|i: int|
            0 <= i < rows.len() ==> (#[trigger] rows[i]) == table.last_written(writes, rows[i].id),
{
    law_rows_after_writes(table, writes);
    law_scan_counts_rows(table.after_all(writes), rows);
}

/// Among writes that do what they are named for, the creations are those
/// that bring a row into being and the deletions those that remove one.
pub proof fn law_orderly_writes_count(table: Table, writes: Seq<Write>)
    requires
        table.orderly(writes),
    ensures
        table.gained(writes) == creations(writes),
        table.lost(writes) == deletions(writes),
    decreases writes.len(),
{
    if writes.len() > 0 {
        law_orderly_writes_count(table, writes.drop_last());
    }
}

/// After rows were created in a table without rows, updated, and some of
/// them deleted, reading every row answers as many rows as were created
/// less those that were deleted, each of them as it was last written.
pub proof fn law_get_all_after_creates_and_deletes(writes: Seq<Write>, rows: Seq<Row>)
    requires
        Table::empty().orderly(writes),
        Table::empty().after_all(writes).scanned(rows),
    ensures
        deletions(writes) <= creations(writes),
        rows.len() == creations(writes) - deletions(writes),
        forall|i: int|
            0 <= i < rows.len() ==> (#[trigger] rows[i]) == Table::empty().last_written(
                writes,
                rows[i].id,
            ),
{
    law_orderly_writes_count(Table::empty(), writes);
    law_get_all_after_writes(Table::empty(), writes, rows);
}

/// The updates of one identifier that the engine lets through one after
/// another, in whatever order, leave the row as the last of them wrote it:
/// a lookup then answers what that update answered.
pub proof fn law_last_update_stays(table: Table, id: int, values: Seq<Row>)
    requires
        table.wf(),
        values.len() > 0,
    ensures
        table.after_all(values.map_values(|v: Row| Write::Update(id, v))).get(id) == Ok::<
            Row,
            StoreErrorView,
        >(values.last().with_id(id)),
{
    let writes = values.map_values(|v: Row| Write::Update(id, v));
    law_rows_after_writes(table, writes);
    assert(writes.last() == Write::Update(id, values.last()));
}

} // verus!
