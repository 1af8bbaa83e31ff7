use vstd::prelude::*;

use crate::record::FileRecord;

verus! {

/// A failure while opening the store or setting up its schema. Fatal to a
/// run: no batch is attempted after it.
#[derive(Debug)]
pub struct StoreError {
    pub message: String,
}

/// A failed batch write, tagged with the index of the batch that failed so
/// that aggregated failures stay identifiable.
#[derive(Debug)]
pub struct WriteError {
    pub batch_index: usize,
    pub message: String,
}

impl Clone for WriteError {
    fn clone(&self) -> (r: Self)
        ensures
            r == *self,
    {
        WriteError { batch_index: self.batch_index, message: self.message.clone() }
    }
}

#[verifier::external_type_specification]
#[verifier::external_body]
pub struct ExConnection(rusqlite::Connection);

#[verifier::external_type_specification]
#[verifier::external_body]
pub struct ExSqliteError(rusqlite::Error);

/// Relies on `rusqlite::Connection::open`: opens the SQLite database at the
/// given path, creating the file when it is absent.
#[verifier::external_body]
pub(crate) fn open_connection(db_path: &str) -> (r: Result<
    rusqlite::Connection,
    rusqlite::Error,
>) {
    rusqlite::Connection::open(db_path)
}

/// Relies on `rusqlite::Connection::execute`: runs the one SQL statement,
/// which takes no parameters.
#[verifier::external_body]
fn execute_sql(conn: &rusqlite::Connection, sql: &str) -> (r: Result<usize, rusqlite::Error>) {
    conn.execute(sql, ())
}

/// Relies on `rusqlite::Connection::execute`: runs the one INSERT
/// statement, binding the record's six fields positionally.
#[verifier::external_body]
fn execute_insert(conn: &rusqlite::Connection, sql: &str, rec: &FileRecord) -> (r: Result<
    usize,
    rusqlite::Error,
>) {
    conn.execute(
        sql,
        (
            &rec.file_name,
            &rec.file_path,
            &rec.last_access_date,
            &rec.creation_date,
            &rec.update_date,
            &rec.full_path,
        ),
    )
}

/// Relies on the `Display` impl of `rusqlite::Error` for a human-readable
/// description of the failure.
#[verifier::external_body]
fn sqlite_error_message(e: &rusqlite::Error) -> (r: String) {
    e.to_string()
}

/// Maps a store-level failure into the run's fatal error.
pub(crate) fn store_error(e: &rusqlite::Error) -> (r: StoreError) {
    StoreError { message: sqlite_error_message(e) }
}

fn write_error(batch_index: usize, e: &rusqlite::Error) -> (r: WriteError)
    ensures
        r.batch_index == batch_index,
{
    WriteError { batch_index, message: sqlite_error_message(e) }
}

/// Creates the snapshot table when it is absent, then unconditionally
/// clears every existing row, so that the table only ever holds the latest
/// run. Whether either statement succeeds is decided by the store alone;
/// a failure of either is returned as the fatal setup error.
pub fn setup_db(conn: &rusqlite::Connection) -> (r: Result<(), StoreError>) {
    let create = "CREATE TABLE IF NOT EXISTS files (
            id INTEGER PRIMARY KEY,
            file_name TEXT NOT NULL,
            file_path TEXT NOT NULL,
            last_access_date TEXT,
            creation_date TEXT,
            update_date TEXT,
            full_path TEXT NOT NULL
        )";
    match execute_sql(conn, create) {
        Ok(_) => {},
        Err(e) => {
            return Err(store_error(&e));
        },
    }
    match execute_sql(conn, "DELETE FROM files") {
        Ok(_) => {},
        Err(e) => {
            return Err(store_error(&e));
        },
    }
    Ok(())
}

/// Writes one batch inside a single transaction: the batch's inserts all
/// commit together, or the transaction is rolled back and none of them
/// remain. Whether the store accepts the writes is decided by the store
/// alone; whatever came back, a failure is tagged with this batch's index.
pub fn save_batch_to_db(
    conn: &rusqlite::Connection,
    batch: &Vec<FileRecord>,
    batch_index: usize,
) -> (r: Result<(), WriteError>)
    ensures
        r matches Err(e) ==> e.batch_index == batch_index,
{
    match execute_sql(conn, "BEGIN") {
        Ok(_) => {},
        Err(e) => {
            return Err(write_error(batch_index, &e));
        },
    }
    let insert = "INSERT INTO files (file_name, file_path, last_access_date, creation_date, update_date, full_path)
         VALUES (?1, ?2, ?3, ?4, ?5, ?6)";
    let mut i: usize = 0;
    while i < batch.len()
        invariant
            i <= batch@.len(),
        decreases batch@.len() - i,
    {
        match execute_insert(conn, insert, &batch[i]) {
            Ok(_) => {},
            Err(e) => {
                let _ = execute_sql(conn, "ROLLBACK");
                return Err(write_error(batch_index, &e));
            },
        }
        i = i + 1;
    }
    match execute_sql(conn, "COMMIT") {
        Ok(_) => Ok(()),
        Err(e) => {
            let _ = execute_sql(conn, "ROLLBACK");
            Err(write_error(batch_index, &e))
        },
    }
}

} // verus!
