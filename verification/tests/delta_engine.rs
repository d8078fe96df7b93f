use clash_tui::clash_api::{Connection, ConnectionItem, Metadata};
use clash_tui::page::delta_engine::DeltaEngine;

fn item(id: &str, download: u64, upload: u64) -> ConnectionItem {
    ConnectionItem {
        id: id.to_string(),
        chains: vec![],
        metadata: Metadata {
            host: String::new(),
            sniff_host: String::new(),
            destination_ip: String::new(),
            destination_port: String::new(),
            source_ip: String::new(),
            source_port: String::new(),
            inbound_name: String::new(),
            network: String::new(),
        },
        rule: String::new(),
        rule_payload: String::new(),
        start: String::new(),
        download,
        upload,
    }
}

fn snapshot(items: Vec<ConnectionItem>, download_total: u64, upload_total: u64) -> Connection {
    Connection { connections: items, download_total, upload_total }
}

#[test]
fn download_delta_between_two_snapshots() {
    let mut engine = DeltaEngine::new();
    engine.replace(&snapshot(vec![item("id1", 100, 0)], 100, 0));
    assert_eq!(engine.connection_speed("id1", 150, 0).0, 50);
}

#[test]
fn delta_is_zero_for_a_connection_seen_first() {
    let mut engine = DeltaEngine::new();
    assert_eq!(engine.connection_speed("id1", 150, 70), (0, 0));
    engine.replace(&snapshot(vec![item("id1", 100, 10)], 100, 10));
    assert_eq!(engine.connection_speed("id2", 150, 70), (0, 0));
}

#[test]
fn delta_is_zero_where_a_counter_fell() {
    let mut engine = DeltaEngine::new();
    engine.replace(&snapshot(vec![item("id1", 150, 40)], 150, 40));
    assert_eq!(engine.connection_speed("id1", 100, 45), (0, 5));
    assert_eq!(engine.connection_speed("id1", 160, 30), (10, 0));
    assert_eq!(engine.connection_speed("id1", 150, 40), (0, 0));
}

#[test]
fn total_speed_is_zero_before_any_snapshot() {
    let engine = DeltaEngine::new();
    assert_eq!(engine.total_speed(1000, 500), (0, 0));
}

#[test]
fn total_speed_diffs_download_and_upload_separately() {
    let mut engine = DeltaEngine::new();
    engine.replace(&snapshot(vec![], 1000, 200));
    assert_eq!(engine.total_speed(1500, 260), (500, 60));
    assert_eq!(engine.total_speed(900, 100), (0, 0));
}

#[test]
fn total_speed_counts_after_a_snapshot_with_zero_totals() {
    let mut engine = DeltaEngine::new();
    engine.replace(&snapshot(vec![], 0, 0));
    assert_eq!(engine.total_speed(300, 20), (300, 20));
}

#[test]
fn replace_keeps_only_the_latest_snapshot() {
    let mut engine = DeltaEngine::new();
    engine.replace(&snapshot(vec![item("a", 10, 1), item("b", 20, 2)], 30, 3));
    engine.replace(&snapshot(vec![item("b", 25, 2)], 40, 4));
    assert_eq!(engine.connection_speed("a", 50, 5), (0, 0));
    assert_eq!(engine.connection_speed("b", 30, 6), (5, 4));
    assert_eq!(engine.total_speed(45, 9), (5, 5));
}

#[test]
fn replace_takes_last_counters_of_a_repeated_id() {
    let mut engine = DeltaEngine::new();
    engine.replace(&snapshot(vec![item("a", 10, 1), item("a", 40, 4)], 0, 0));
    assert_eq!(engine.connection_speed("a", 50, 5), (10, 1));
}

#[test]
fn reset_forgets_the_previous_snapshot() {
    let mut engine = DeltaEngine::new();
    engine.replace(&snapshot(vec![item("a", 10, 1)], 10, 1));
    engine.reset();
    assert_eq!(engine.connection_speed("a", 50, 5), (0, 0));
    assert_eq!(engine.total_speed(50, 5), (0, 0));
}
