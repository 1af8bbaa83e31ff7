use file_scanner::batch::make_batches;
use file_scanner::record::FileRecord;

fn rec(n: usize) -> FileRecord {
    FileRecord {
        file_name: format!("f{}.txt", n),
        file_path: "/data".to_string(),
        last_access_date: None,
        creation_date: None,
        update_date: None,
        full_path: format!("/data/f{}.txt", n),
    }
}

fn recs(n: usize) -> Vec<FileRecord> {
    let mut v = Vec::new();
    let mut i = 0;
    while i < n {
        v.push(rec(i));
        i += 1;
    }
    v
}

#[test]
fn batches_have_bounded_size_and_lose_nothing() {
    let records = recs(5);
    let batches = make_batches(&records, 2);
    assert_eq!(batches.len(), 3);
    assert_eq!(batches[0].len(), 2);
    assert_eq!(batches[1].len(), 2);
    assert_eq!(batches[2].len(), 1);
    let mut flat = Vec::new();
    for b in &batches {
        for r in b {
            flat.push(r.full_path.clone());
        }
    }
    let expected: Vec<String> = records.iter().map(|r| r.full_path.clone()).collect();
    assert_eq!(flat, expected);
}

#[test]
fn no_records_make_no_batches() {
    let batches = make_batches(&Vec::new(), 4);
    assert_eq!(batches.len(), 0);
}

#[test]
fn batch_size_one_gives_one_record_per_batch() {
    let batches = make_batches(&recs(3), 1);
    assert_eq!(batches.len(), 3);
    for b in &batches {
        assert_eq!(b.len(), 1);
    }
}

#[test]
fn short_input_fills_a_single_batch() {
    let batches = make_batches(&recs(3), 10);
    assert_eq!(batches.len(), 1);
    assert_eq!(batches[0].len(), 3);
}

#[test]
fn exact_multiple_fills_only_full_batches() {
    let batches = make_batches(&recs(6), 3);
    assert_eq!(batches.len(), 2);
    assert_eq!(batches[0].len(), 3);
    assert_eq!(batches[1].len(), 3);
}
