use alert_core::alert::{Alert, AlertType};
use alert_core::store::AlertStore;

fn alert(id: &str, device: &str) -> Alert {
    Alert {
        id: id.to_string(),
        date_time: "01/01/2024 00:00:00".to_string(),
        alert_type: AlertType::TempUp,
        device: device.to_string(),
        description: "Detalle no disponible".to_string(),
    }
}

#[test]
fn store_starts_empty() {
    let store = AlertStore::new();
    assert!(store.is_empty());
    assert!(store.snapshot_alerts().is_empty());
    assert!(!store.contains("A1"));
}

#[test]
fn cache_and_remove_round_trip() {
    let mut store = AlertStore::new();
    store.cache_alert(alert("A1", "dev-1"));
    assert!(!store.is_empty());
    assert!(store.contains("A1"));
    let removed = store.remove_alert_by_id("A1").expect("A1 was cached");
    assert_eq!(removed.id, "A1");
    assert_eq!(removed.device, "dev-1");
    assert!(store.is_empty());
}

#[test]
fn repeated_activates_are_idempotent() {
    let mut store = AlertStore::new();
    store.cache_alert(alert("A1", "dev-1"));
    store.cache_alert(alert("A1", "dev-1"));
    let snapshot = store.snapshot_alerts();
    assert_eq!(snapshot.len(), 1);
    assert_eq!(snapshot[0].id, "A1");
}

#[test]
fn upsert_overwrites_by_id() {
    let mut store = AlertStore::new();
    store.cache_alert(alert("A1", "dev-1"));
    store.cache_alert(alert("A1", "dev-2"));
    let snapshot = store.snapshot_alerts();
    assert_eq!(snapshot.len(), 1);
    assert_eq!(snapshot[0].device, "dev-2");
}

#[test]
fn clearing_absent_id_is_noop() {
    let mut store = AlertStore::new();
    store.cache_alert(alert("A1", "dev-1"));
    assert!(store.remove_alert_by_id("A2").is_none());
    let snapshot = store.snapshot_alerts();
    assert_eq!(snapshot.len(), 1);
    assert_eq!(snapshot[0].id, "A1");
}

#[test]
fn net_effect_of_activate_clear_sequences() {
    let mut store = AlertStore::new();
    store.cache_alert(alert("A1", "d"));
    store.cache_alert(alert("A2", "d"));
    store.cache_alert(alert("A1", "d"));
    assert!(store.remove_alert_by_id("A1").is_some());
    // last activate of A1 is matched by the clear; A2 is still active
    assert!(!store.contains("A1"));
    assert!(store.contains("A2"));
    assert!(store.remove_alert_by_id("A2").is_some());
    assert!(store.is_empty());
}

#[test]
fn snapshot_lists_each_id_once() {
    let mut store = AlertStore::new();
    store.cache_alert(alert("A1", "d1"));
    store.cache_alert(alert("A2", "d2"));
    store.cache_alert(alert("A3", "d3"));
    let mut ids: Vec<String> = store.snapshot_alerts().into_iter().map(|a| a.id).collect();
    ids.sort();
    assert_eq!(ids, vec!["A1".to_string(), "A2".to_string(), "A3".to_string()]);
}
