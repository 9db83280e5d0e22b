use chrono::NaiveDate;
use diesel::connection::SimpleConnection;
use diesel::sqlite::SqliteConnection;
use diesel::Connection;
use item_store::actions::{
    delete_item, get_all_items, get_all_items_within, get_item, get_item_within, new_item,
    new_item_within, update_item, update_item_within,
};
use item_store::fault::{FaultKind, StoreError};
use item_store::models::Item;

const SCHEMA: &str = "CREATE TABLE items (\
    id INTEGER PRIMARY KEY AUTOINCREMENT NOT NULL, \
    description TEXT NOT NULL, \
    date DATE)";

fn open_store() -> SqliteConnection {
    let mut conn = SqliteConnection::establish(":memory:").unwrap();
    conn.batch_execute(SCHEMA).unwrap();
    conn
}

fn day(year: i32, month: u32, day: u32) -> Option<NaiveDate> {
    Some(NaiveDate::from_ymd_opt(year, month, day).unwrap())
}

fn item(id: i32, description: &str, date: Option<NaiveDate>) -> Item {
    Item { id, description: description.to_string(), date }
}

fn sorted(mut rows: Vec<Item>) -> Vec<Item> {
    rows.sort_by_key(|row| row.id);
    rows
}

// The round trip of one item through the store: create, update, get,
// delete, get, get all.
#[test]
fn api_item_crud() {
    let mut conn = open_store();

    // Create
    let created = new_item(&mut conn).unwrap();

    let wanted = item(created.id, "This is lasagna", Some(NaiveDate::default()));
    let updated = update_item(&mut conn, &created.id, &wanted).unwrap();
    assert_eq!(wanted, updated);

    let read = get_item(&mut conn, updated.id).unwrap();
    assert_eq!(wanted, read);

    let deleted = delete_item(&mut conn, &created.id).unwrap();
    assert_eq!(wanted, deleted);

    assert_eq!(get_item(&mut conn, created.id), Err(StoreError::NotFound));
    assert_eq!(get_all_items(&mut conn), Ok(Vec::new()));
}

#[test]
fn create_update_get_delete_get() {
    let mut conn = open_store();

    assert_eq!(new_item(&mut conn), Ok(item(1, "", None)));

    let lasagna = item(1, "Lasagna", day(2024, 1, 1));
    assert_eq!(update_item(&mut conn, &1, &lasagna), Ok(lasagna.clone()));
    assert_eq!(get_item(&mut conn, 1), Ok(lasagna.clone()));
    assert_eq!(delete_item(&mut conn, &1), Ok(lasagna));
    assert_eq!(get_item(&mut conn, 1), Err(StoreError::NotFound));
}

#[test]
fn created_row_is_read_back() {
    let mut conn = open_store();
    for _ in 0..4 {
        let created = new_item(&mut conn).unwrap();
        assert_eq!(created.description, "");
        assert_eq!(created.date, None);
        assert_eq!(get_item(&mut conn, created.id), Ok(created));
    }
}

#[test]
fn created_rows_get_distinct_ids() {
    let mut conn = open_store();
    let first = new_item(&mut conn).unwrap();
    let second = new_item(&mut conn).unwrap();
    let third = new_item(&mut conn).unwrap();
    assert_eq!((first.id, second.id, third.id), (1, 2, 3));
}

#[test]
fn deleted_row_is_gone() {
    let mut conn = open_store();
    let created = new_item(&mut conn).unwrap();
    assert_eq!(delete_item(&mut conn, &created.id), Ok(created.clone()));
    assert_eq!(get_item(&mut conn, created.id), Err(StoreError::NotFound));
    assert_eq!(delete_item(&mut conn, &created.id), Err(StoreError::NotFound));
    assert_eq!(get_item(&mut conn, created.id), Err(StoreError::NotFound));
}

#[test]
fn delete_of_a_row_that_never_was_is_not_found() {
    let mut conn = open_store();
    assert_eq!(delete_item(&mut conn, &42), Err(StoreError::NotFound));
    assert_eq!(get_all_items(&mut conn), Ok(Vec::new()));
}

#[test]
fn get_of_a_row_that_never_was_is_not_found() {
    let mut conn = open_store();
    new_item(&mut conn).unwrap();
    assert_eq!(get_item(&mut conn, 2), Err(StoreError::NotFound));
    assert_eq!(get_item(&mut conn, 0), Err(StoreError::NotFound));
    assert_eq!(get_item(&mut conn, -1), Err(StoreError::NotFound));
}

#[test]
fn update_replaces_an_existing_row() {
    let mut conn = open_store();
    let created = new_item(&mut conn).unwrap();
    let first = item(created.id, "first", day(2023, 12, 31));
    let second = item(created.id, "second", day(2024, 2, 29));
    assert_eq!(update_item(&mut conn, &created.id, &first), Ok(first.clone()));
    assert_eq!(get_item(&mut conn, created.id), Ok(first));
    assert_eq!(update_item(&mut conn, &created.id, &second), Ok(second.clone()));
    assert_eq!(get_item(&mut conn, created.id), Ok(second.clone()));
    assert_eq!(get_all_items(&mut conn), Ok(vec![second]));
}

#[test]
fn update_creates_a_missing_row() {
    let mut conn = open_store();
    let values = item(17, "made by update", day(2024, 6, 1));
    assert_eq!(get_item(&mut conn, 17), Err(StoreError::NotFound));
    assert_eq!(update_item(&mut conn, &17, &values), Ok(values.clone()));
    assert_eq!(get_item(&mut conn, 17), Ok(values.clone()));
    assert_eq!(get_all_items(&mut conn), Ok(vec![values]));
}

#[test]
fn update_files_the_row_under_the_id_it_was_given() {
    let mut conn = open_store();
    let values = item(99, "nine", day(2020, 9, 9));
    let filed = item(5, "nine", day(2020, 9, 9));
    assert_eq!(update_item(&mut conn, &5, &values), Ok(filed.clone()));
    assert_eq!(get_item(&mut conn, 5), Ok(filed));
    assert_eq!(get_item(&mut conn, 99), Err(StoreError::NotFound));
}

#[test]
fn update_without_date_clears_the_date() {
    let mut conn = open_store();
    let dated = item(3, "dated", day(2024, 1, 1));
    let undated = item(3, "undated", None);
    assert_eq!(update_item(&mut conn, &3, &dated), Ok(dated));
    assert_eq!(update_item(&mut conn, &3, &undated), Ok(undated.clone()));
    assert_eq!(get_item(&mut conn, 3), Ok(undated));
}

#[test]
fn update_keeps_text_as_it_is() {
    let mut conn = open_store();
    for text in
        ["", " ", "it's", "a ? b", "ünïcödé ☃", "two\nlines", "nul\0inside", "x'); DROP TABLE items; --"]
    {
        let values = item(1, text, None);
        assert_eq!(update_item(&mut conn, &1, &values), Ok(values.clone()));
        assert_eq!(get_item(&mut conn, 1), Ok(values));
    }
    assert_eq!(get_all_items(&mut conn).map(|rows| rows.len()), Ok(1));
}

#[test]
fn update_keeps_a_long_text() {
    let mut conn = open_store();
    let values = item(1, &"x".repeat(1_000_000), None);
    assert_eq!(update_item(&mut conn, &1, &values), Ok(values.clone()));
    assert_eq!(get_item(&mut conn, 1), Ok(values));
}

#[test]
fn update_keeps_dates_far_away() {
    let mut conn = open_store();
    for date in [
        NaiveDate::MIN,
        NaiveDate::from_ymd_opt(-4000, 1, 1).unwrap(),
        NaiveDate::from_ymd_opt(0, 12, 31).unwrap(),
        NaiveDate::from_ymd_opt(999, 1, 1).unwrap(),
        NaiveDate::default(),
        NaiveDate::from_ymd_opt(2024, 2, 29).unwrap(),
        NaiveDate::from_ymd_opt(10000, 1, 1).unwrap(),
        NaiveDate::MAX,
    ] {
        let values = item(1, "dated", Some(date));
        assert_eq!(update_item(&mut conn, &1, &values), Ok(values.clone()));
        assert_eq!(get_item(&mut conn, 1), Ok(values));
    }
}

#[test]
fn update_takes_the_ends_of_the_id_range() {
    let mut conn = open_store();
    for id in [i32::MIN, -1, 0, i32::MAX] {
        let values = item(id, "edge", None);
        assert_eq!(update_item(&mut conn, &id, &values), Ok(values.clone()));
        assert_eq!(get_item(&mut conn, id), Ok(values));
    }
    assert_eq!(get_all_items(&mut conn).map(|rows| rows.len()), Ok(4));
}

#[test]
fn update_leaves_other_rows_alone() {
    let mut conn = open_store();
    let one = item(1, "one", day(2024, 1, 1));
    let two = item(2, "two", day(2024, 2, 2));
    update_item(&mut conn, &1, &one).unwrap();
    update_item(&mut conn, &2, &two).unwrap();
    update_item(&mut conn, &1, &item(1, "uno", None)).unwrap();
    assert_eq!(get_item(&mut conn, 2), Ok(two.clone()));
    delete_item(&mut conn, &1).unwrap();
    assert_eq!(get_item(&mut conn, 2), Ok(two));
}

#[test]
fn get_all_of_an_empty_table_is_empty() {
    let mut conn = open_store();
    assert_eq!(get_all_items(&mut conn), Ok(Vec::new()));
}

#[test]
fn get_all_counts_created_less_deleted() {
    let mut conn = open_store();
    let mut created = Vec::new();
    for _ in 0..5 {
        created.push(new_item(&mut conn).unwrap());
    }
    let tea = item(created[1].id, "tea", day(2024, 3, 3));
    let jam = item(created[4].id, "jam", None);
    update_item(&mut conn, &tea.id, &item(tea.id, "coffee", None)).unwrap();
    update_item(&mut conn, &tea.id, &tea).unwrap();
    update_item(&mut conn, &jam.id, &jam).unwrap();
    delete_item(&mut conn, &created[0].id).unwrap();
    delete_item(&mut conn, &created[3].id).unwrap();

    let rows = sorted(get_all_items(&mut conn).unwrap());
    assert_eq!(rows.len(), 5 - 2);
    assert_eq!(rows, vec![tea, created[2].clone(), jam]);
}

#[test]
fn get_all_counts_rows_that_updates_made() {
    let mut conn = open_store();
    new_item(&mut conn).unwrap();
    update_item(&mut conn, &10, &item(10, "ten", None)).unwrap();
    update_item(&mut conn, &10, &item(10, "TEN", None)).unwrap();
    delete_item(&mut conn, &77).unwrap_err();
    let rows = sorted(get_all_items(&mut conn).unwrap());
    assert_eq!(rows, vec![item(1, "", None), item(10, "TEN", None)]);
}

#[test]
fn updates_in_turn_leave_the_last() {
    let mut conn = open_store();
    let writes = [item(8, "a", None), item(8, "b", day(2024, 5, 5)), item(8, "c", day(2024, 5, 6))];
    for values in &writes {
        assert_eq!(update_item(&mut conn, &8, values), Ok(values.clone()));
    }
    assert_eq!(get_item(&mut conn, 8), Ok(writes[2].clone()));
}

#[test]
fn missing_table_is_a_storage_fault() {
    let mut conn = SqliteConnection::establish(":memory:").unwrap();
    let fault = StoreError::Storage(item_store::fault::EngineFault {
        kind: FaultKind::Database,
        message: "no such table: items".to_string(),
    });
    assert_eq!(get_item(&mut conn, 1), Err(fault.clone()));
    assert_eq!(get_all_items(&mut conn), Err(fault.clone()));
    assert_eq!(new_item(&mut conn), Err(fault.clone()));
    assert_eq!(update_item(&mut conn, &1, &item(1, "x", None)), Err(fault.clone()));
    assert_eq!(delete_item(&mut conn, &1), Err(fault));
}

#[test]
fn broken_constraint_is_a_storage_fault() {
    let mut conn = SqliteConnection::establish(":memory:").unwrap();
    conn.batch_execute(
        "CREATE TABLE items (id INTEGER PRIMARY KEY NOT NULL, \
         description TEXT NOT NULL CHECK (length(description) < 4), date DATE)",
    )
    .unwrap();
    assert_eq!(update_item(&mut conn, &1, &item(1, "abc", None)), Ok(item(1, "abc", None)));
    match update_item(&mut conn, &1, &item(1, "abcd", None)) {
        Err(StoreError::Storage(fault)) => {
            assert_eq!(fault.kind, FaultKind::Database);
            assert!(fault.message.starts_with("CHECK constraint failed"));
        }
        other => panic!("unexpected answer: {:?}", other),
    }
    assert_eq!(get_item(&mut conn, 1), Ok(item(1, "abc", None)));
}

#[test]
fn unreadable_row_is_a_storage_fault() {
    let mut conn = open_store();
    conn.batch_execute("INSERT INTO items (id, description, date) VALUES (1, 'odd', 'no date')")
        .unwrap();
    match get_item(&mut conn, 1) {
        Err(StoreError::Storage(fault)) => assert_eq!(fault.kind, FaultKind::Other),
        other => panic!("unexpected answer: {:?}", other),
    }
    match get_all_items(&mut conn) {
        Err(StoreError::Storage(fault)) => assert_eq!(fault.kind, FaultKind::Other),
        other => panic!("unexpected answer: {:?}", other),
    }
}

#[test]
fn no_attempts_is_busy() {
    let mut conn = open_store();
    update_item(&mut conn, &1, &item(1, "kept", None)).unwrap();
    assert_eq!(get_item_within(&mut conn, 1, 0), Err(StoreError::Busy));
    assert_eq!(get_all_items_within(&mut conn, 0), Err(StoreError::Busy));
    assert_eq!(new_item_within(&mut conn, 0), Err(StoreError::Busy));
    assert_eq!(update_item_within(&mut conn, &1, &item(1, "lost", None), 0), Err(StoreError::Busy));
    assert_eq!(
        item_store::actions::delete_item_within(&mut conn, &1, 0),
        Err(StoreError::Busy)
    );
    assert_eq!(get_all_items(&mut conn), Ok(vec![item(1, "kept", None)]));
}

#[test]
fn no_attempts_is_busy_before_any_fault() {
    let mut conn = SqliteConnection::establish(":memory:").unwrap();
    assert_eq!(get_item_within(&mut conn, 1, 0), Err(StoreError::Busy));
}

#[test]
fn one_attempt_is_enough_without_contention() {
    let mut conn = open_store();
    assert_eq!(new_item_within(&mut conn, 1), Ok(item(1, "", None)));
    assert_eq!(update_item_within(&mut conn, &1, &item(1, "x", None), 1), Ok(item(1, "x", None)));
    assert_eq!(get_item_within(&mut conn, 1, 1), Ok(item(1, "x", None)));
    assert_eq!(get_all_items_within(&mut conn, 1), Ok(vec![item(1, "x", None)]));
    assert_eq!(
        item_store::actions::delete_item_within(&mut conn, &1, 1),
        Ok(item(1, "x", None))
    );
}
