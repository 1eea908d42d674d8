use alert_core::alert::AlertType;
use alert_core::coordinator::{Action, Coordinator};
use alert_core::differ::{validate_status_vector, StatusVectorError};

const MUTE_MS: i64 = 600_000;
const SOURCE_TS: &str = "2024-01-15T12:00:00Z";
const FALLBACK: &str = "2024-01-15 00:00:00";

fn fallback() -> String {
    FALLBACK.to_string()
}

#[test]
fn validation_accepts_six_bits() {
    assert!(validate_status_vector(&vec![0, 1, 0, 0, 1, 1]));
    assert!(validate_status_vector(&vec![0, 0, 0, 0, 0, 0]));
    assert!(validate_status_vector(&vec![1, 1, 1, 1, 1, 1]));
}

#[test]
fn validation_rejects_wrong_arity_and_range() {
    assert!(!validate_status_vector(&vec![0, 1, 2]));
    assert!(!validate_status_vector(&vec![0, 1, 2, 0, 0, 0]));
    assert!(!validate_status_vector(&vec![]));
    assert!(!validate_status_vector(&vec![0, 1, 0, 0, 1, 1, 0]));
}

#[test]
fn accepted_vector_synthesizes_alerts() {
    let mut c = Coordinator::new(MUTE_MS);
    let acts = c
        .handle_status_vector(b"[0,1,0,0,1,1]", SOURCE_TS, fallback())
        .expect("a valid vector is accepted");
    // one activation (buzzer + added) per set bit, then the device status
    assert_eq!(acts.len(), 7);
    assert_eq!(acts[0], Action::SetBuzzer(true));
    assert!(matches!(&acts[1], Action::EmitAlertAdded(a) if a.id == "refrigerator-temp-1"));
    assert!(matches!(&acts[3], Action::EmitAlertAdded(a) if a.id == "refrigerator-temp-4"));
    assert!(matches!(&acts[5], Action::EmitAlertAdded(a) if a.id == "refrigerator-temp-5"));
    match &acts[6] {
        Action::EmitDeviceStatus(ds) => {
            // RFC3339 UTC source instant rendered at the fixed UTC-6 offset
            assert_eq!(ds.timestamp, "2024-01-15 06:00:00");
            assert_eq!(ds.status, vec![0, 1, 0, 0, 1, 1]);
        }
        other => panic!("expected a device status, got {:?}", other),
    }
    let alerts = c.get_active_alerts();
    assert_eq!(alerts.len(), 3);
    for a in &alerts {
        assert_eq!(a.alert_type, AlertType::TempUp);
        assert_eq!(a.description, "Temperatura fuera de rango 2 - 8 °C");
        assert_eq!(a.date_time, "2024-01-15 06:00:00");
    }
    let mut devices: Vec<String> = alerts.into_iter().map(|a| a.device).collect();
    devices.sort();
    assert_eq!(devices, vec!["Refrigerador 2", "Refrigerador 5", "Refrigerador 6"]);
}

#[test]
fn wrong_arity_is_rejected_without_mutation() {
    let mut c = Coordinator::new(MUTE_MS);
    let r = c.handle_status_vector(b"[0,1,2]", SOURCE_TS, fallback());
    assert_eq!(r.unwrap_err(), StatusVectorError::Invalid);
    assert!(!c.has_active_alerts());
    // the stored vector is untouched: feeding all-zero still yields no clears
    let acts = c.handle_status_vector(b"[0,0,0,0,0,0]", SOURCE_TS, fallback()).unwrap();
    assert_eq!(acts.len(), 1);
}

#[test]
fn out_of_range_value_is_rejected_without_mutation() {
    let mut c = Coordinator::new(MUTE_MS);
    c.handle_status_vector(b"[0,1,0,0,0,0]", SOURCE_TS, fallback()).unwrap();
    let r = c.handle_status_vector(b"[0,1,2,0,0,0]", SOURCE_TS, fallback());
    assert_eq!(r.unwrap_err(), StatusVectorError::Invalid);
    assert_eq!(c.get_active_alerts().len(), 1);
}

#[test]
fn unparsable_payload_is_rejected() {
    let mut c = Coordinator::new(MUTE_MS);
    let r = c.handle_status_vector(b"not json", SOURCE_TS, fallback());
    assert_eq!(r.unwrap_err(), StatusVectorError::Unparsable);
    let r = c.handle_status_vector(b"\"[0,1,0,0,1,1]\"", SOURCE_TS, fallback());
    assert_eq!(r.unwrap_err(), StatusVectorError::Unparsable);
    assert!(!c.has_active_alerts());
}

#[test]
fn same_vector_twice_produces_no_transitions() {
    let mut c = Coordinator::new(MUTE_MS);
    let first = c.handle_status_vector(b"[0,1,0,0,1,1]", SOURCE_TS, fallback()).unwrap();
    assert_eq!(first.len(), 7);
    assert_eq!(c.get_active_alerts().len(), 3);
    let second = c.handle_status_vector(b"[0,1,0,0,1,1]", SOURCE_TS, fallback()).unwrap();
    // no per-index action: only the device status notification
    assert_eq!(second.len(), 1);
    assert!(matches!(&second[0], Action::EmitDeviceStatus(_)));
    assert_eq!(c.get_active_alerts().len(), 3);
}

#[test]
fn zero_vector_round_trips_store_to_empty() {
    let mut c = Coordinator::new(MUTE_MS);
    c.handle_status_vector(b"[1,0,1,1,0,1]", SOURCE_TS, fallback()).unwrap();
    assert_eq!(c.get_active_alerts().len(), 4);
    let acts = c.handle_status_vector(b"[0,0,0,0,0,0]", SOURCE_TS, fallback()).unwrap();
    assert!(!c.has_active_alerts());
    // the last clear empties the store and commands the buzzer off
    assert!(acts.contains(&Action::SetBuzzer(false)));
}

#[test]
fn bit_clear_removes_matching_alert() {
    let mut c = Coordinator::new(MUTE_MS);
    c.handle_status_vector(b"[0,1,0,0,1,1]", SOURCE_TS, fallback()).unwrap();
    let acts = c.handle_status_vector(b"[0,1,0,0,0,1]", SOURCE_TS, fallback()).unwrap();
    assert_eq!(acts[0], Action::EmitAlertRemoved("refrigerator-temp-4".to_string()));
    let ids: Vec<String> = c.get_active_alerts().into_iter().map(|a| a.id).collect();
    assert!(!ids.contains(&"refrigerator-temp-4".to_string()));
    assert_eq!(ids.len(), 2);
}

#[test]
fn unparsable_timestamp_falls_back_to_local_stamp() {
    let mut c = Coordinator::new(MUTE_MS);
    let acts = c.handle_status_vector(b"[0,0,0,0,0,0]", "not a timestamp", fallback()).unwrap();
    match &acts[0] {
        Action::EmitDeviceStatus(ds) => assert_eq!(ds.timestamp, FALLBACK),
        other => panic!("expected a device status, got {:?}", other),
    }
}

#[test]
fn offset_timestamp_is_converted_to_utc_minus_6() {
    let mut c = Coordinator::new(MUTE_MS);
    let acts = c
        .handle_status_vector(b"[0,0,0,0,0,0]", "2024-01-15T12:00:00+02:00", fallback())
        .unwrap();
    match &acts[0] {
        Action::EmitDeviceStatus(ds) => assert_eq!(ds.timestamp, "2024-01-15 04:00:00"),
        other => panic!("expected a device status, got {:?}", other),
    }
}

#[test]
fn vector_activation_interrupts_mute() {
    let mut c = Coordinator::new(MUTE_MS);
    c.handle_status_vector(b"[1,0,0,0,0,0]", SOURCE_TS, fallback()).unwrap();
    let (status, _) = c.toggle_alerts_mute(1_704_067_200_000);
    assert!(status.muted);
    c.handle_status_vector(b"[1,1,0,0,0,0]", SOURCE_TS, fallback()).unwrap();
    assert!(!c.get_mute_status().muted);
}
