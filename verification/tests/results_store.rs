use renmap::db::{db_location, saved_db_path, DbLocation};
use renmap::results::{PortEntry, ScanRecord};
use renmap::store::ScanStore;

fn entry(target: &str, port: u16, statuses: &[&str]) -> PortEntry {
    PortEntry {
        target: target.to_string(),
        port,
        statuses: statuses.iter().map(|s| s.to_string()).collect(),
    }
}

fn record(label: &str) -> ScanRecord {
    ScanRecord {
        label: label.to_string(),
        entries: vec![
            entry("192.168.1.2", 22, &["open"]),
            entry("192.168.1.2", 80, &["closed", "filtered"]),
            entry("10.0.0.1", 443, &[]),
        ],
    }
}

#[test]
fn rows_numbered_from_one() {
    let rows = record("2024-01-02 03:04:05").table_rows();
    assert_eq!(rows.len(), 3);
    assert_eq!(rows[0].id, "1");
    assert_eq!(rows[0].target, "192.168.1.2");
    assert_eq!(rows[0].port, "22");
    assert_eq!(rows[0].status, "open");
    assert_eq!(rows[1].id, "2");
    assert_eq!(rows[1].port, "80");
    assert_eq!(rows[1].status, "closed|filtered");
    assert_eq!(rows[2].id, "3");
    assert_eq!(rows[2].target, "10.0.0.1");
    assert_eq!(rows[2].port, "443");
    assert_eq!(rows[2].status, "");
}

#[test]
fn rows_of_empty_scan() {
    let r = ScanRecord { label: "x".to_string(), entries: vec![] };
    assert!(r.table_rows().is_empty());
}

#[test]
fn row_of_entry_at_position() {
    let row = entry("h", 65535, &["a", "b", "c"]).table_row(9);
    assert_eq!(row.id, "10");
    assert_eq!(row.port, "65535");
    assert_eq!(row.status, "a|b|c");
}

#[test]
fn store_starts_empty() {
    let s = ScanStore::new();
    assert!(s.history().is_empty());
    assert!(s.current().is_none());
}

#[test]
fn finished_scan_goes_to_history_and_display() {
    let mut s = ScanStore::new();
    let reply = s.complete_scan(Ok(record("first")));
    assert_eq!(reply, "");
    assert_eq!(s.history().len(), 1);
    assert_eq!(s.current().unwrap().label, "first");
    let reply = s.complete_scan(Ok(record("second")));
    assert_eq!(reply, "");
    assert_eq!(s.history().len(), 2);
    assert_eq!(s.history()[0].label, "first");
    assert_eq!(s.history()[1].label, "second");
    assert_eq!(s.current().unwrap().label, "second");
}

#[test]
fn failed_scan_leaves_store() {
    let mut s = ScanStore::new();
    s.complete_scan(Ok(record("first")));
    let reply = s.complete_scan(Err("You don't have permission".to_string()));
    assert_eq!(reply, "You don't have permission");
    assert_eq!(s.history().len(), 1);
    assert_eq!(s.current().unwrap().label, "first");
}

#[test]
fn history_selection() {
    let mut s = ScanStore::new();
    s.complete_scan(Ok(record("first")));
    s.complete_scan(Ok(record("second")));
    s.select_history(0);
    assert_eq!(s.current().unwrap().label, "first");
    assert_eq!(s.current().unwrap().table_rows().len(), 3);
    assert_eq!(s.history().len(), 2);
    s.select_history(1);
    assert_eq!(s.current().unwrap().label, "second");
}

#[test]
fn database_location() {
    assert!(matches!(db_location(true), DbLocation::InMemory));
    match db_location(false) {
        DbLocation::File(p) => assert_eq!(p, ".renmap.db"),
        DbLocation::InMemory => panic!("expected the results file"),
    }
    assert_eq!(saved_db_path(), ".renmap.db");
}
