use alert_core::alert::{
    Alert, AlertType, AlarmDetails, AlarmEntityId, AlarmParams, AlarmRpcEnvelope, AlarmStatus,
};
use alert_core::coordinator::{Action, Coordinator};

const MUTE_MS: i64 = 600_000;
// 2024-01-01T00:00:00Z
const NOW_MS: i64 = 1_704_067_200_000;

fn alert(id: &str) -> Alert {
    Alert {
        id: id.to_string(),
        date_time: "01/01/2024 00:00:00".to_string(),
        alert_type: AlertType::TempUp,
        device: "Device".to_string(),
        description: "Detalle no disponible".to_string(),
    }
}

fn envelope(method: &str, id: &str, status: AlarmStatus) -> AlarmRpcEnvelope {
    AlarmRpcEnvelope {
        method: method.to_string(),
        params: AlarmParams {
            id: AlarmEntityId { value: id.to_string() },
            created_time: NOW_MS,
            alarm_type: "Temperature out of range".to_string(),
            originator_name: "Device".to_string(),
            status,
            details: Some(AlarmDetails { data: Some("9.9 °C".to_string()) }),
        },
    }
}

#[test]
fn activation_with_empty_store_turns_buzzer_on() {
    let mut c = Coordinator::new(MUTE_MS);
    let acts = c.handle_active_alarm(alert("A1"));
    assert_eq!(acts.len(), 2);
    assert_eq!(acts[0], Action::SetBuzzer(true));
    assert!(matches!(&acts[1], Action::EmitAlertAdded(a) if a.id == "A1"));
    assert!(c.has_active_alerts());
    assert!(!c.get_mute_status().muted);
}

#[test]
fn end_to_end_scenario() {
    // activate A1 while unmuted with empty store: buzzer on, store = {A1}
    let mut c = Coordinator::new(MUTE_MS);
    let acts = c.handle_active_alarm(alert("A1"));
    assert_eq!(acts[0], Action::SetBuzzer(true));
    assert_eq!(c.get_active_alerts().len(), 1);

    // toggle mute: buzzer off, deadline = now + configured duration
    let (status, acts) = c.toggle_alerts_mute(NOW_MS);
    assert!(status.muted);
    assert_eq!(status.expires_at.as_deref(), Some("2024-01-01T00:10:00Z"));
    assert_eq!(acts[0], Action::ScheduleMuteTimer(0, MUTE_MS));
    assert_eq!(acts[1], Action::SetBuzzer(false));
    assert!(matches!(&acts[2], Action::EmitMuteChanged(st) if st.muted));

    // activate A2 mid-mute: mute cleared, buzzer on, store = {A1, A2}
    let acts = c.handle_active_alarm(alert("A2"));
    assert_eq!(acts[0], Action::CancelMuteTimer(0));
    assert!(matches!(&acts[1], Action::EmitMuteChanged(st) if !st.muted));
    assert_eq!(acts[2], Action::SetBuzzer(true));
    assert!(matches!(&acts[3], Action::EmitAlertAdded(a) if a.id == "A2"));
    assert!(!c.get_mute_status().muted);
    assert_eq!(c.get_active_alerts().len(), 2);

    // clear A1: store = {A2}, buzzer stays on (no buzzer action)
    let acts = c.handle_cleared_alarm("A1");
    assert_eq!(acts.len(), 1);
    assert_eq!(acts[0], Action::EmitAlertRemoved("A1".to_string()));
    assert_eq!(c.get_active_alerts().len(), 1);

    // clear A2: store empty, buzzer off
    let acts = c.handle_cleared_alarm("A2");
    assert_eq!(acts.len(), 2);
    assert_eq!(acts[0], Action::EmitAlertRemoved("A2".to_string()));
    assert_eq!(acts[1], Action::SetBuzzer(false));
    assert!(!c.has_active_alerts());
}

#[test]
fn activation_while_muted_clears_mute() {
    let mut c = Coordinator::new(MUTE_MS);
    c.handle_active_alarm(alert("A1"));
    let (status, _) = c.toggle_alerts_mute(NOW_MS);
    assert!(status.muted);
    c.handle_active_alarm(alert("A2"));
    let status = c.get_mute_status();
    assert!(!status.muted);
    assert!(status.expires_at.is_none());
}

#[test]
fn toggle_with_empty_store_is_noop() {
    let mut c = Coordinator::new(MUTE_MS);
    let (status, acts) = c.toggle_alerts_mute(NOW_MS);
    assert!(!status.muted);
    assert!(status.expires_at.is_none());
    assert!(acts.is_empty());
}

#[test]
fn toggle_while_muted_unmutes_and_reevaluates_buzzer() {
    let mut c = Coordinator::new(MUTE_MS);
    c.handle_active_alarm(alert("A1"));
    c.toggle_alerts_mute(NOW_MS);
    let (status, acts) = c.toggle_alerts_mute(NOW_MS + 1_000);
    assert!(!status.muted);
    assert_eq!(acts[0], Action::CancelMuteTimer(0));
    assert!(matches!(&acts[1], Action::EmitMuteChanged(st) if !st.muted));
    assert_eq!(acts[2], Action::SetBuzzer(true));
}

#[test]
fn mute_timer_fires_and_reevaluates_buzzer() {
    let mut c = Coordinator::new(MUTE_MS);
    c.handle_active_alarm(alert("A1"));
    let (_, acts) = c.toggle_alerts_mute(NOW_MS);
    let timer_id = match acts[0] {
        Action::ScheduleMuteTimer(id, _) => id,
        _ => panic!("expected a scheduled timer"),
    };
    let acts = c.handle_mute_timeout(timer_id);
    assert_eq!(acts[0], Action::SetBuzzer(true));
    assert!(matches!(&acts[1], Action::EmitMuteChanged(st) if !st.muted));
    assert!(!c.get_mute_status().muted);
}

#[test]
fn stale_mute_timer_is_a_noop() {
    let mut c = Coordinator::new(MUTE_MS);
    c.handle_active_alarm(alert("A1"));
    c.toggle_alerts_mute(NOW_MS);
    // a timer that was superseded carries an identifier that no longer matches
    let acts = c.handle_mute_timeout(77);
    assert!(acts.is_empty());
    assert!(c.get_mute_status().muted);
}

#[test]
fn mute_invariant_observable_after_each_operation() {
    let mut c = Coordinator::new(MUTE_MS);
    let st = c.get_mute_status();
    assert_eq!(st.muted, st.expires_at.is_some());
    c.handle_active_alarm(alert("A1"));
    let st = c.get_mute_status();
    assert_eq!(st.muted, st.expires_at.is_some());
    c.toggle_alerts_mute(NOW_MS);
    let st = c.get_mute_status();
    assert!(st.muted && st.expires_at.is_some());
    c.handle_cleared_alarm("A1");
    let st = c.get_mute_status();
    assert!(!st.muted && st.expires_at.is_none());
}

#[test]
fn clearing_last_alert_while_muted_unmutes_and_silences() {
    let mut c = Coordinator::new(MUTE_MS);
    c.handle_active_alarm(alert("A1"));
    c.toggle_alerts_mute(NOW_MS);
    let acts = c.handle_cleared_alarm("A1");
    assert_eq!(acts[0], Action::EmitAlertRemoved("A1".to_string()));
    assert_eq!(acts[1], Action::CancelMuteTimer(0));
    assert!(matches!(&acts[2], Action::EmitMuteChanged(st) if !st.muted));
    assert_eq!(acts[3], Action::SetBuzzer(false));
    assert!(!c.get_mute_status().muted);
}

#[test]
fn remove_alert_reports_existence() {
    let mut c = Coordinator::new(MUTE_MS);
    c.handle_active_alarm(alert("A1"));
    let (existed, _) = c.remove_alert("A1");
    assert!(existed);
    let (existed, acts) = c.remove_alert("A1");
    assert!(!existed);
    assert!(acts.is_empty());
}

#[test]
fn rpc_active_alarm_builds_mapped_alert() {
    let mut c = Coordinator::new(MUTE_MS);
    let acts = c.handle_rpc_payload(&envelope("alarm", "alarm-1", AlarmStatus::ActiveUnack));
    assert_eq!(acts[0], Action::SetBuzzer(true));
    match &acts[1] {
        Action::EmitAlertAdded(a) => {
            assert_eq!(a.id, "alarm-1");
            assert_eq!(a.alert_type, AlertType::TempUp);
            assert_eq!(a.device, "Device");
            assert_eq!(a.description, "9.9 °C");
        }
        other => panic!("expected an added alert, got {:?}", other),
    }
    assert_eq!(c.get_active_alerts().len(), 1);
}

#[test]
fn rpc_cleared_alarm_removes_alert() {
    let mut c = Coordinator::new(MUTE_MS);
    c.handle_rpc_payload(&envelope("ALARM", "alarm-1", AlarmStatus::ActiveUnack));
    let acts = c.handle_rpc_payload(&envelope("ALARM", "alarm-1", AlarmStatus::ClearedUnack));
    assert_eq!(acts[0], Action::EmitAlertRemoved("alarm-1".to_string()));
    assert_eq!(acts[1], Action::SetBuzzer(false));
    assert!(!c.has_active_alerts());
}

#[test]
fn rpc_other_method_is_ignored() {
    let mut c = Coordinator::new(MUTE_MS);
    let acts = c.handle_rpc_payload(&envelope("getTelemetry", "alarm-1", AlarmStatus::ActiveUnack));
    assert!(acts.is_empty());
    assert!(!c.has_active_alerts());
}

#[test]
fn rpc_unknown_status_is_ignored() {
    let mut c = Coordinator::new(MUTE_MS);
    let acts = c.handle_rpc_payload(&envelope("ALARM", "alarm-1", AlarmStatus::Unknown));
    assert!(acts.is_empty());
    assert!(!c.has_active_alerts());
}

#[test]
fn timer_identifiers_grow_with_each_mute() {
    let mut c = Coordinator::new(MUTE_MS);
    c.handle_active_alarm(alert("A1"));
    let (_, acts) = c.toggle_alerts_mute(NOW_MS);
    assert_eq!(acts[0], Action::ScheduleMuteTimer(0, MUTE_MS));
    c.toggle_alerts_mute(NOW_MS);
    let (_, acts) = c.toggle_alerts_mute(NOW_MS);
    assert_eq!(acts[0], Action::ScheduleMuteTimer(1, MUTE_MS));
}
