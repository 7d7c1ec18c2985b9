use presence_logger::store::{
    append_step, entry_values, insert_into_db, log_entries, open_db, read_all, schema_outcome,
    setup_db, storage_result, LogEntry, CREATE_TABLE_SQL, INSERT_SQL, SELECT_ALL_SQL,
};
use rusqlite::Connection;

fn names(items: &[&str]) -> Vec<String> {
    items.iter().map(|item| item.to_string()).collect()
}

fn pairs(conn: &Connection) -> Vec<(String, String)> {
    read_all(conn).unwrap().into_iter().map(|row| (row.timestamp, row.event)).collect()
}

#[test]
fn schema_can_be_ensured_again_and_again() {
    let conn = Connection::open_in_memory().unwrap();
    for _ in 0..5 {
        assert!(setup_db(&conn).is_ok());
    }
    assert!(read_all(&conn).unwrap().is_empty());
}

#[test]
fn ensuring_the_schema_loses_no_rows() {
    let conn = Connection::open_in_memory().unwrap();
    setup_db(&conn).unwrap();
    insert_into_db(&conn, &"t1".to_string(), &names(&["a", "b"])).unwrap();
    let before = pairs(&conn);
    setup_db(&conn).unwrap();
    setup_db(&conn).unwrap();
    assert_eq!(pairs(&conn), before);
    assert_eq!(before.len(), 2);
}

#[test]
fn appended_rows_are_read_back() {
    let conn = Connection::open_in_memory().unwrap();
    setup_db(&conn).unwrap();
    let written = insert_into_db(&conn, &"2024-01-02 03:04:05".to_string(), &names(&["a", "b", "c"]));
    assert_eq!(written.unwrap(), 3);
    let rows = read_all(&conn).unwrap();
    assert_eq!(rows.len(), 3);
    for name in ["a", "b", "c"] {
        let found: Vec<_> = rows.iter().filter(|row| row.event == name).collect();
        assert_eq!(found.len(), 1);
        assert_eq!(found[0].timestamp, "2024-01-02 03:04:05");
    }
}

#[test]
fn rows_of_a_tick_share_its_timestamp() {
    let conn = Connection::open_in_memory().unwrap();
    setup_db(&conn).unwrap();
    assert_eq!(insert_into_db(&conn, &"t1".to_string(), &names(&["x", "y"])).unwrap(), 2);
    assert_eq!(insert_into_db(&conn, &"t2".to_string(), &names(&["x"])).unwrap(), 1);
    assert_eq!(
        pairs(&conn),
        vec![
            ("t1".to_string(), "x".to_string()),
            ("t1".to_string(), "y".to_string()),
            ("t2".to_string(), "x".to_string()),
        ]
    );
}

#[test]
fn keys_grow_with_each_row() {
    let conn = Connection::open_in_memory().unwrap();
    setup_db(&conn).unwrap();
    insert_into_db(&conn, &"t1".to_string(), &names(&["a", "b"])).unwrap();
    insert_into_db(&conn, &"t2".to_string(), &names(&["c"])).unwrap();
    let ids: Vec<i32> = read_all(&conn).unwrap().iter().map(|row| row.id).collect();
    assert_eq!(ids, vec![1, 2, 3]);
}

#[test]
fn empty_tick_appends_nothing() {
    let conn = Connection::open_in_memory().unwrap();
    setup_db(&conn).unwrap();
    assert_eq!(insert_into_db(&conn, &"t1".to_string(), &names(&[])).unwrap(), 0);
    assert!(read_all(&conn).unwrap().is_empty());
}

#[test]
fn empty_tick_succeeds_even_without_a_table() {
    let conn = Connection::open_in_memory().unwrap();
    assert_eq!(insert_into_db(&conn, &"t1".to_string(), &names(&[])).unwrap(), 0);
}

#[test]
fn append_without_a_table_fails_at_the_first_row() {
    let conn = Connection::open_in_memory().unwrap();
    let failure = insert_into_db(&conn, &"t1".to_string(), &names(&["a", "b"])).unwrap_err();
    assert_eq!(failure.written, 0);
    assert!(!failure.cause.message.is_empty());
}

#[test]
fn refused_row_leaves_the_rows_before_it() {
    let conn = Connection::open_in_memory().unwrap();
    conn.execute(
        "CREATE TABLE running_apps (id INTEGER PRIMARY KEY, timestamp TEXT NOT NULL, \
         event TEXT NOT NULL CHECK (event <> 'bad'))",
        [],
    )
    .unwrap();
    setup_db(&conn).unwrap();
    let failure =
        insert_into_db(&conn, &"t1".to_string(), &names(&["a", "b", "bad", "c"])).unwrap_err();
    assert_eq!(failure.written, 2);
    assert!(!failure.cause.message.is_empty());
    assert_eq!(
        pairs(&conn),
        vec![("t1".to_string(), "a".to_string()), ("t1".to_string(), "b".to_string())]
    );
}

#[test]
fn read_without_a_table_fails() {
    let conn = Connection::open_in_memory().unwrap();
    let failure = read_all(&conn).unwrap_err();
    assert!(!failure.message.is_empty());
}

#[test]
fn open_db_opens_a_database() {
    let conn = open_db(":memory:").unwrap();
    setup_db(&conn).unwrap();
    assert_eq!(insert_into_db(&conn, &"t".to_string(), &names(&["a"])).unwrap(), 1);
    assert_eq!(pairs(&conn), vec![("t".to_string(), "a".to_string())]);
}

#[test]
fn open_db_reports_a_path_that_cannot_be_opened() {
    let failure = open_db("/this-directory-is-absent/none/log.db").unwrap_err();
    assert!(!failure.message.is_empty());
}

#[test]
fn log_entries_pair_each_event_with_the_timestamp() {
    let rows = log_entries(&"t9".to_string(), &names(&["a", "b", "a"]));
    let got: Vec<(String, String)> =
        rows.into_iter().map(|row| (row.timestamp, row.event)).collect();
    assert_eq!(
        got,
        vec![
            ("t9".to_string(), "a".to_string()),
            ("t9".to_string(), "b".to_string()),
            ("t9".to_string(), "a".to_string()),
        ]
    );
    assert!(log_entries(&"t9".to_string(), &names(&[])).is_empty());
}

#[test]
fn entry_values_are_timestamp_then_event() {
    let entry = LogEntry { timestamp: "t".to_string(), event: "e".to_string() };
    assert_eq!(entry_values(&entry), names(&["t", "e"]));
}

#[test]
fn statements_name_the_table_and_its_columns() {
    assert_eq!(
        CREATE_TABLE_SQL,
        "CREATE TABLE IF NOT EXISTS running_apps (id INTEGER PRIMARY KEY, \
         timestamp TEXT NOT NULL, event TEXT NOT NULL)"
    );
    assert_eq!(INSERT_SQL, "INSERT INTO running_apps (timestamp, event) VALUES (?1, ?2)");
    assert_eq!(SELECT_ALL_SQL, "SELECT id, timestamp, event FROM running_apps");
}

#[test]
fn null_columns_are_refused_by_the_schema() {
    let conn = Connection::open_in_memory().unwrap();
    setup_db(&conn).unwrap();
    assert!(conn.execute("INSERT INTO running_apps (timestamp) VALUES ('t')", []).is_err());
    assert!(conn.execute("INSERT INTO running_apps (event) VALUES ('e')", []).is_err());
    assert!(read_all(&conn).unwrap().is_empty());
}

#[test]
fn open_db_refuses_a_path_with_a_nul_character() {
    assert!(open_db("log\0.db").is_err());
    assert!(open_db("\0").is_err());
    let failure = open_db(":memory:\0").unwrap_err();
    assert!(!failure.message.is_empty());
}

#[test]
fn schema_is_ensured_whatever_the_count_of_changes() {
    assert!(schema_outcome(Ok(0)).is_ok());
    assert!(schema_outcome(Ok(1)).is_ok());
    assert!(schema_outcome(Ok(usize::MAX)).is_ok());
}

#[test]
fn refused_schema_statement_is_a_storage_error() {
    let failure = schema_outcome(Err(rusqlite::Error::ExecuteReturnedResults)).unwrap_err();
    assert_eq!(failure.message, "Execute returned results - did you mean to call query?");
}

#[test]
fn storage_result_keeps_a_success_and_words_a_refusal() {
    assert_eq!(storage_result(Ok(7usize)).unwrap(), 7);
    assert_eq!(storage_result(Ok("rows".to_string())).unwrap(), "rows");
    let failure = storage_result::<usize>(Err(rusqlite::Error::QueryReturnedNoRows)).unwrap_err();
    assert_eq!(failure.message, "Query returned no rows");
    let failure = storage_result::<usize>(Err(rusqlite::Error::InvalidQuery)).unwrap_err();
    assert_eq!(failure.message, "Query is not read-only");
}

#[test]
fn missing_table_is_named_in_the_failure() {
    let conn = Connection::open_in_memory().unwrap();
    let failure = read_all(&conn).unwrap_err();
    assert!(failure.message.contains("running_apps"));
    let failure = insert_into_db(&conn, &"t".to_string(), &names(&["a"])).unwrap_err();
    assert!(failure.cause.message.contains("running_apps"));
}

#[test]
fn accepted_insert_counts_one_row_more() {
    assert_eq!(append_step(0, Ok(1)).unwrap(), 1);
    assert_eq!(append_step(4, Ok(1)).unwrap(), 5);
    assert_eq!(append_step(4, Ok(0)).unwrap(), 5);
    assert_eq!(append_step(usize::MAX - 1, Ok(7)).unwrap(), usize::MAX);
}

#[test]
fn refused_insert_ends_the_append_with_the_count_so_far() {
    let failure = append_step(0, Err(rusqlite::Error::InvalidQuery)).unwrap_err();
    assert_eq!(failure.written, 0);
    assert_eq!(failure.cause.message, "Query is not read-only");
    let failure = append_step(3, Err(rusqlite::Error::QueryReturnedNoRows)).unwrap_err();
    assert_eq!(failure.written, 3);
    assert_eq!(failure.cause.message, "Query returned no rows");
}

#[test]
fn nothing_is_tried_after_a_refused_row() {
    let conn = Connection::open_in_memory().unwrap();
    conn.execute(
        "CREATE TABLE running_apps (id INTEGER PRIMARY KEY, timestamp TEXT NOT NULL, \
         event TEXT NOT NULL CHECK (event <> 'bad'))",
        [],
    )
    .unwrap();
    let failure =
        insert_into_db(&conn, &"t1".to_string(), &names(&["bad", "a", "b"])).unwrap_err();
    assert_eq!(failure.written, 0);
    assert!(read_all(&conn).unwrap().is_empty());
    let failure =
        insert_into_db(&conn, &"t2".to_string(), &names(&["a", "bad", "bad", "b"])).unwrap_err();
    assert_eq!(failure.written, 1);
    assert_eq!(pairs(&conn), vec![("t2".to_string(), "a".to_string())]);
    assert_eq!(insert_into_db(&conn, &"t3".to_string(), &names(&["b", "c"])).unwrap(), 2);
    assert_eq!(
        pairs(&conn),
        vec![
            ("t2".to_string(), "a".to_string()),
            ("t3".to_string(), "b".to_string()),
            ("t3".to_string(), "c".to_string()),
        ]
    );
}
