use kwon::history::{HistoryDatabase, HistoryError, HistoryFile, is_blank};
use kwon::time::Instant;

fn db_with(entries: Vec<(String, Instant)>) -> HistoryDatabase {
    HistoryDatabase::get_or_default(
        "/tmp/history.json".to_string(),
        "{}",
        Ok(HistoryFile::from_entries(entries)),
    )
    .unwrap()
}

#[test]
fn blank_text_is_only_whitespace() {
    assert!(is_blank(""));
    assert!(is_blank("  \t\n\r "));
    assert!(is_blank("\u{a0}\u{3000}"));
    assert!(!is_blank(" x "));
    assert!(!is_blank("{}"));
}

#[test]
fn history_path_defaults_to_var_lib() {
    assert_eq!(HistoryDatabase::resolve_path(&None), "/var/lib/kwon/history.json");
    assert_eq!(HistoryDatabase::resolve_path(&Some("/tmp/h.json".to_string())), "/tmp/h.json");
}

#[test]
fn blank_history_file_gives_an_empty_history() {
    let db = HistoryDatabase::get_or_default(
        "/tmp/h.json".to_string(),
        " \n",
        Err("EOF while parsing a value".to_string()),
    )
    .unwrap();
    assert_eq!(db.resolved_path(), "/tmp/h.json");
    assert_eq!(db.get_last_run("anything"), None);
    assert!(db.history().entries().is_empty());
}

#[test]
fn undecodable_history_file_is_an_error() {
    let r = HistoryDatabase::get_or_default(
        "/tmp/h.json".to_string(),
        "not json",
        Err("expected value".to_string()),
    );
    assert_eq!(r.unwrap_err(), HistoryError::Decode { message: "expected value".to_string() });
}

#[test]
fn decoded_history_is_used() {
    let db = db_with(vec![("backup".to_string(), Instant::new(1_700_000_000, 5))]);
    assert_eq!(db.get_last_run("backup"), Some(Instant::new(1_700_000_000, 5)));
    assert_eq!(db.get_last_run("other"), None);
}

#[test]
fn read_after_record() {
    let mut db = db_with(vec![
        ("a".to_string(), Instant::new(1, 0)),
        ("b".to_string(), Instant::new(2, 0)),
    ]);
    db.record_run("a", Instant::new(10, 0));
    db.record_run("c", Instant::new(30, 0));
    assert_eq!(db.get_last_run("a"), Some(Instant::new(10, 0)));
    assert_eq!(db.get_last_run("b"), Some(Instant::new(2, 0)));
    assert_eq!(db.get_last_run("c"), Some(Instant::new(30, 0)));
    assert_eq!(db.history().entries().len(), 3);
}

#[test]
fn write_last_run_records_the_current_time() {
    let mut db = db_with(Vec::new());
    let at = db.write_last_run("job");
    assert!(at.secs > 1_600_000_000);
    assert!(at.nanos < 1_000_000_000);
    assert_eq!(db.get_last_run("job"), Some(at));
    assert_eq!(db.resolved_path(), "/tmp/history.json");
}

#[test]
fn later_entry_wins_on_a_repeated_name() {
    let h = HistoryFile::from_entries(vec![
        ("a".to_string(), Instant::new(1, 0)),
        ("a".to_string(), Instant::new(2, 0)),
    ]);
    assert_eq!(h.get(&"a".to_string()), Some(Instant::new(2, 0)));
    assert_eq!(h.entries(), vec![("a".to_string(), Instant::new(2, 0))]);
}

#[test]
fn entries_round_trip() {
    let mut h = HistoryFile::new();
    h.insert("x".to_string(), Instant::new(7, 1));
    h.insert("y".to_string(), Instant::new(8, 2));
    h.insert("x".to_string(), Instant::new(9, 3));
    let back = HistoryFile::from_entries(h.entries());
    assert_eq!(back.get(&"x".to_string()), Some(Instant::new(9, 3)));
    assert_eq!(back.get(&"y".to_string()), Some(Instant::new(8, 2)));
    assert_eq!(back.entries().len(), 2);
}
