//! The log store: an append-only table of timestamped events in an SQLite
//! database, reached through rusqlite.
//!
//! What the database holds lives outside the program and may change between
//! two calls, so no contract here speaks of the stored rows. The contracts say
//! which rows a tick contributes and which values are handed to the store for
//! each of them, what each answer of the store makes of a running append (it
//! goes on after an acceptance and ends at a refusal, with the count of the
//! rows written until then), and that the count which a finished append
//! returns is the number of the tick's events.
use vstd::prelude::*;
use rusqlite::Connection;

verus! {

/// An open connection to an SQLite database, opaque to the verifier.
#[verifier::external_type_specification]
#[verifier::external_body]
pub struct ExConnection(rusqlite::Connection);

/// rusqlite's error, opaque to the verifier.
#[verifier::external_type_specification]
#[verifier::external_body]
pub struct ExSqlError(rusqlite::Error);

/// The statement that creates the table of the log where it is absent.
pub const CREATE_TABLE_SQL: &'static str =
    "CREATE TABLE IF NOT EXISTS running_apps (id INTEGER PRIMARY KEY, timestamp TEXT NOT NULL, event TEXT NOT NULL)";

/// The statement that appends one row; its two parameters are the timestamp
/// and the event, in this order.
pub const INSERT_SQL: &'static str = "INSERT INTO running_apps (timestamp, event) VALUES (?1, ?2)";

/// The statement that reads every row of the log.
pub const SELECT_ALL_SQL: &'static str = "SELECT id, timestamp, event FROM running_apps";

/// A row as the store holds it.
#[derive(Debug)]
pub struct LogRecord {
    /// The key that the store assigned when the row was appended.
    pub id: i32,
    /// The timestamp of the tick that the row belongs to.
    pub timestamp: String,
    /// The name of one process that the tick observed.
    pub event: String,
}

/// A row that is yet to be appended: a record without its key.
#[derive(Debug)]
pub struct LogEntry {
    pub timestamp: String,
    pub event: String,
}

impl View for LogEntry {
    type V = (Seq<char>, Seq<char>);

    open spec fn view(&self) -> (Seq<char>, Seq<char>) {
        (self.timestamp@, self.event@)
    }
}

/// A failure of the storage layer, with the cause in words.
#[derive(Debug)]
pub struct StorageError {
    pub message: String,
}

/// An append that the store refused part-way.
#[derive(Debug)]
pub struct AppendFailure {
    /// How many rows of the tick the store had accepted before it refused one:
    /// these stay in the log, the others are missing from it.
    pub written: usize,
    pub cause: StorageError,
}

/// The rows that a tick with this timestamp and these events contributes: one
/// for each event, in the order of the events, all with the one timestamp.
pub open spec fn entries_of(timestamp: Seq<char>, events: Seq<Seq<char>>) -> Seq<
    (Seq<char>, Seq<char>),
> {
    Seq::new(events.len(), |i: int| (timestamp, events[i]))
}

/// The views of `rows`, in order.
pub open spec fn entry_views(rows: Seq<LogEntry>) -> Seq<(Seq<char>, Seq<char>)> {
    Seq::new(rows.len(), |i: int| rows[i]@)
}

/// Calls rusqlite's `Connection::open` on `path`.
///
/// Trusted: a path that holds a NUL character is refused. rusqlite turns the
/// path into a C string before it does anything else, and hands on the error
/// that std gives for a NUL among the bytes. Of every other path nothing is
/// claimed: the outcome depends on the file system.
#[verifier::external_body]
fn open_connection(path: &str) -> (opened: Result<Connection, rusqlite::Error>)
    ensures
        path@.contains('\0') ==> opened is Err,
{
    Connection::open(path)
}

/// Calls rusqlite's `Connection::execute` with the statement `sql` and the
/// positional parameters `values`, bound as text through `params_from_iter`.
///
/// Trusted: nothing is claimed of the outcome, which depends on the database.
/// A parameter count that does not fit the statement is an `Err`, as any other
/// refusal; rusqlite panics only where SQLite itself breaks its word.
#[verifier::external_body]
fn execute(conn: &Connection, sql: &str, values: &Vec<String>) -> (changed: Result<
    usize,
    rusqlite::Error,
>) {
    conn.execute(sql, rusqlite::params_from_iter(values.iter()))
}

/// Calls rusqlite's `Connection::prepare` on `sql`, then `Statement::query_map`
/// without parameters, and collects the rows; of each row the columns 0, 1 and
/// 2 are taken with `Row::get` as the key, the timestamp and the event.
///
/// Trusted: nothing is claimed of the outcome, which depends on the database.
#[verifier::external_body]
fn query_records(conn: &Connection, sql: &str) -> (rows: Result<Vec<LogRecord>, rusqlite::Error>) {
    let mut statement = conn.prepare(sql)?;
    let rows = statement.query_map([], |row| {
        Ok(LogRecord { id: row.get(0)?, timestamp: row.get(1)?, event: row.get(2)? })
    })?;
    rows.collect()
}

/// Calls `to_string` on a rusqlite error.
///
/// Trusted: nothing is claimed of the text.
#[verifier::external_body]
fn describe(error: &rusqlite::Error) -> (message: String) {
    error.to_string()
}

/// The library's error for a refusal of rusqlite.
fn storage_error(error: rusqlite::Error) -> (failure: StorageError) {
    StorageError { message: describe(&error) }
}

/// Turns an outcome of rusqlite into one of the library: a success keeps its
/// value, a refusal becomes a `StorageError`.
pub fn storage_result<T>(outcome: Result<T, rusqlite::Error>) -> (mapped: Result<T, StorageError>)
    ensures
        outcome is Ok <==> mapped is Ok,
        outcome is Ok ==> mapped->Ok_0 == outcome->Ok_0,
{
    match outcome {
        Ok(value) => Ok(value),
        Err(error) => Err(storage_error(error)),
    }
}

/// Opens the database file at `path`, creating it where it is absent. A path
/// that holds a NUL character names no file and is refused; for every other
/// path the file system decides.
pub fn open_db(path: &str) -> (opened: Result<Connection, StorageError>)
    ensures
        path@.contains('\0') ==> opened is Err,
{
    storage_result(open_connection(path))
}

/// What ensuring the schema comes to, given what the store answered to the
/// statement: it is done whatever number of changes the store counted, and it
/// failed where the store refused.
pub fn schema_outcome(changed: Result<usize, rusqlite::Error>) -> (done: Result<(), StorageError>)
    ensures
        changed is Ok <==> done is Ok,
{
    match storage_result(changed) {
        Ok(_) => Ok(()),
        Err(cause) => Err(cause),
    }
}

/// Makes sure that the table of the log exists. The statement creates the
/// table only where it is absent, so the call may be repeated at will.
pub fn setup_db(conn: &Connection) -> (done: Result<(), StorageError>) {
    let no_values: Vec<String> = Vec::new();
    schema_outcome(execute(conn, CREATE_TABLE_SQL, &no_values))
}

/// The rows that a tick contributes to the log.
pub fn log_entries(timestamp: &String, events: &Vec<String>) -> (rows: Vec<LogEntry>)
    ensures
        entry_views(rows@) == entries_of(timestamp@, events.deep_view()),
{
    let mut rows: Vec<LogEntry> = Vec::new();
    let mut i: usize = 0;
    while i < events.len()
        invariant
            i <= events.len(),
            rows.len() == i,
            forall|k: int| 0 <= k < i ==> (#[trigger] rows[k])@ == (timestamp@, events[k]@),
        decreases events.len() - i,
    {
        rows.push(LogEntry { timestamp: timestamp.clone(), event: events[i].clone() });
        i += 1;
    }
    assert(entry_views(rows@) =~= entries_of(timestamp@, events.deep_view()));
    rows
}

/// The positional parameters of the insert statement for one row: the
/// timestamp, then the event.
pub fn entry_values(entry: &LogEntry) -> (values: Vec<String>)
    ensures
        values.deep_view() == seq![entry.timestamp@, entry.event@],
{
    let mut values: Vec<String> = Vec::new();
    values.push(entry.timestamp.clone());
    values.push(entry.event.clone());
    assert(values.deep_view() =~= seq![entry.timestamp@, entry.event@]);
    values
}

/// What the store's answer to one insert makes of an append that has written
/// `written` rows so far. An acceptance counts the row, whatever number of
/// changes the store reports, and lets the append go on. A refusal ends the
/// append: the failure holds the count of the rows written before it, and the
/// refused row is not counted.
pub fn append_step(written: usize, answer: Result<usize, rusqlite::Error>) -> (next: Result<
    usize,
    AppendFailure,
>)
    requires
        written < usize::MAX,
    ensures
        answer is Ok ==> next is Ok && next->Ok_0 == written + 1,
        answer is Err ==> next is Err && next->Err_0.written == written,
{
    match storage_result(answer) {
        Ok(_) => Ok(written + 1),
        Err(cause) => Err(AppendFailure { written, cause }),
    }
}

/// Appends the rows of a tick, one insert for each event and in the order of
/// the events; what becomes of the append after each insert is decided by
/// `append_step`, so the first insert that the store refuses is the last one
/// tried.
///
/// `Ok` carries the number of rows written, which is the number of events. A
/// failure says how many rows went in before the refusal; the append is not
/// atomic, so these rows stay in the log.
pub fn insert_into_db(conn: &Connection, timestamp: &String, events: &Vec<String>) -> (outcome:
    Result<usize, AppendFailure>)
    ensures
        events.len() == 0 ==> outcome is Ok,
        outcome matches Ok(written) ==> written == events.len(),
        outcome matches Err(failure) ==> failure.written < events.len(),
{
    let rows = log_entries(timestamp, events);
    assert(rows.len() == events.len()) by {
        assert(entry_views(rows@).len() == entries_of(timestamp@, events.deep_view()).len());
    }
    let mut written: usize = 0;
    while written < rows.len()
        invariant
            written <= rows.len(),
            rows.len() == events.len(),
        decreases rows.len() - written,
    {
        let values = entry_values(&rows[written]);
        match append_step(written, execute(conn, INSERT_SQL, &values)) {
            Ok(next) => {
                written = next;
            },
            Err(failure) => {
                return Err(failure);
            },
        }
    }
    Ok(written)
}

/// Reads every row of the log, in the order in which the store gives them.
pub fn read_all(conn: &Connection) -> (rows: Result<Vec<LogRecord>, StorageError>) {
    storage_result(query_records(conn, SELECT_ALL_SQL))
}

/// A tick contributes one row for each of its events and no other: the rows
/// are as many as the events, row `i` holds event `i`, and every row holds the
/// timestamp of the tick.
pub proof fn lemma_one_row_per_event(timestamp: Seq<char>, events: Seq<Seq<char>>)
    ensures
        entries_of(timestamp, events).len() == events.len(),
        forall|i: int|
            0 <= i < events.len() ==> #[trigger] entries_of(timestamp, events)[i] == (
                timestamp,
                events[i],
            ),
        forall|i: int, j: int|
            0 <= i < events.len() && 0 <= j < events.len() ==> (#[trigger] entries_of(
                timestamp,
                events,
            )[i]).0 == (#[trigger] entries_of(timestamp, events)[j]).0,
{
}

/// A tick without events contributes no row.
pub proof fn lemma_no_events_no_rows(timestamp: Seq<char>)
    ensures
        entries_of(timestamp, Seq::empty()) == Seq::<(Seq<char>, Seq<char>)>::empty(),
{
    assert(entries_of(timestamp, Seq::empty()) =~= Seq::<(Seq<char>, Seq<char>)>::empty());
}

} // verus!
