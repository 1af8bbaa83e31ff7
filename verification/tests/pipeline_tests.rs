use file_scanner::coordinator::{aggregate_outcomes, scan_and_save, PipelineError};
use file_scanner::record::{RawMeta, ScanEntry, Timestamp};
use file_scanner::store::WriteError;

fn meta() -> Option<RawMeta> {
    Some(RawMeta {
        accessed: Some(Timestamp { secs: 1705314600, nanos: 0 }),
        created: None,
        modified: Some(Timestamp { secs: 1705314602, nanos: 0 }),
    })
}

fn entry(path: &str) -> ScanEntry {
    ScanEntry { path: path.to_string(), meta: meta() }
}

fn reset(db_path: &str) {
    let conn = rusqlite::Connection::open(db_path).expect("open");
    conn.execute("DROP TABLE IF EXISTS files", ()).expect("drop");
}

fn row_count(db_path: &str) -> i64 {
    let conn = rusqlite::Connection::open(db_path).expect("open");
    conn.query_row("SELECT COUNT(*) FROM files", (), |row| row.get(0)).expect("count")
}

#[test]
fn unreadable_file_is_skipped_not_fatal() {
    let db = "/tmp/file_scanner_test_softfail.db";
    reset(db);
    let entries = vec![entry("/root_dir/ok.txt"), ScanEntry {
        path: "/root_dir/bad.txt".to_string(),
        meta: None,
    }];
    let summary = scan_and_save(db, &entries, 10).expect("run succeeds");
    assert_eq!(summary.records, 1);
    assert_eq!(summary.batches, 1);
    assert_eq!(row_count(db), 1);
}

#[test]
fn zero_batch_size_is_rejected_before_any_store_work() {
    let db = "/tmp/file_scanner_test_zerobatch.db";
    reset(db);
    let entries = vec![entry("/root_dir/ok.txt")];
    let err = scan_and_save(db, &entries, 0).expect_err("must be rejected");
    assert!(matches!(err, PipelineError::InvalidBatchSize));
    // The table was never created, let alone written.
    let conn = rusqlite::Connection::open(db).expect("open");
    let tables: i64 = conn
        .query_row(
            "SELECT COUNT(*) FROM sqlite_master WHERE type = 'table' AND name = 'files'",
            (),
            |row| row.get(0),
        )
        .expect("query");
    assert_eq!(tables, 0);
}

#[test]
fn every_record_lands_exactly_once_across_many_batches() {
    let db = "/tmp/file_scanner_test_complete.db";
    reset(db);
    let n = 10_000;
    let mut entries = Vec::new();
    for i in 0..n {
        entries.push(entry(&format!("/data/f{}.txt", i)));
    }
    let summary = scan_and_save(db, &entries, 64).expect("run succeeds");
    assert_eq!(summary.records, n);
    assert_eq!(summary.batches, (n + 63) / 64);
    assert_eq!(row_count(db), n as i64);
    let conn = rusqlite::Connection::open(db).expect("open");
    let distinct: i64 = conn
        .query_row("SELECT COUNT(DISTINCT full_path) FROM files", (), |row| row.get(0))
        .expect("distinct");
    assert_eq!(distinct, n as i64);
}

#[test]
fn no_entries_yield_an_empty_snapshot() {
    // A missing root enumerates to nothing: zero records, not an error.
    let db = "/tmp/file_scanner_test_empty.db";
    reset(db);
    let summary = scan_and_save(db, &Vec::new(), 4).expect("run succeeds");
    assert_eq!(summary.records, 0);
    assert_eq!(summary.batches, 0);
    assert_eq!(row_count(db), 0);
}

#[test]
fn run_reruns_replace_the_previous_snapshot() {
    let db = "/tmp/file_scanner_test_rerun.db";
    reset(db);
    let first = vec![entry("/d/a.txt"), entry("/d/b.txt"), entry("/d/c.txt")];
    scan_and_save(db, &first, 2).expect("first run");
    assert_eq!(row_count(db), 3);
    let second = vec![entry("/d/z.txt")];
    scan_and_save(db, &second, 2).expect("second run");
    assert_eq!(row_count(db), 1);
}

#[test]
fn failed_batch_is_reported_but_committed_batches_stay() {
    let db = "/tmp/file_scanner_test_aggregate.db";
    reset(db);
    // Prepare the schema with a uniqueness constraint the second batch will
    // violate on its second record; the constraint survives the run's own
    // setup, which only creates the table if absent and clears rows.
    {
        let conn = rusqlite::Connection::open(db).expect("open");
        file_scanner::store::setup_db(&conn).expect("setup");
        conn.execute("CREATE UNIQUE INDEX uniq_full_path ON files(full_path)", ())
            .expect("index");
    }
    let entries = vec![
        entry("/d/a.txt"),
        entry("/d/b.txt"),
        entry("/d/dup.txt"),
        entry("/d/dup.txt"),
    ];
    let err = scan_and_save(db, &entries, 2).expect_err("run must fail");
    match err {
        PipelineError::BatchWrites { errors } => {
            assert_eq!(errors.len(), 1);
            assert_eq!(errors[0].batch_index, 1);
            assert!(!errors[0].message.is_empty());
        },
        other => panic!("unexpected error: {:?}", other),
    }
    // Partial persistence: the successful batch's rows are still present.
    assert_eq!(row_count(db), 2);
}

#[test]
fn store_init_failure_aborts_before_scanning() {
    // A directory path cannot be opened as a database file.
    let err = scan_and_save("/tmp", &vec![entry("/d/a.txt")], 4).expect_err("must fail");
    assert!(matches!(err, PipelineError::StoreInit { .. }));
}

fn write_err(batch_index: usize, message: &str) -> Result<(), WriteError> {
    Err(WriteError { batch_index, message: message.to_string() })
}

#[test]
fn aggregate_of_all_successes_is_success() {
    let outcomes: Vec<Result<(), WriteError>> = vec![Ok(()), Ok(()), Ok(())];
    assert!(aggregate_outcomes(&outcomes).is_ok());
}

#[test]
fn aggregate_collects_every_failure_and_surfaces_the_first() {
    let outcomes = vec![Ok(()), write_err(1, "disk full"), Ok(()), write_err(3, "locked")];
    let errs = aggregate_outcomes(&outcomes).expect_err("must fail");
    assert_eq!(errs.len(), 2);
    assert_eq!(errs[0].batch_index, 1);
    assert_eq!(errs[0].message, "disk full");
    assert_eq!(errs[1].batch_index, 3);
    assert_eq!(errs[1].message, "locked");
}

#[test]
fn aggregate_of_no_outcomes_is_success() {
    assert!(aggregate_outcomes(&Vec::new()).is_ok());
}
