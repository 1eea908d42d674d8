use alert_core::mqtt::{MqttDirective, MqttEvent, MqttLoopState};
use alert_core::realtime::{RealtimeDirective, RealtimeEvent, RealtimeLoopState};

#[test]
fn mqtt_loop_backs_off_and_reconnects() {
    let mut m = MqttLoopState::new(5_000, 60_000);
    assert!(!m.is_mqtt_connected());
    assert_eq!(m.step(MqttEvent::ConnectFailed), MqttDirective::Sleep(5_000));
    assert_eq!(m.step(MqttEvent::SleepFinished), MqttDirective::StartConnect);
    assert_eq!(m.step(MqttEvent::ConnectFailed), MqttDirective::Sleep(10_000));
    assert_eq!(m.step(MqttEvent::SleepFinished), MqttDirective::StartConnect);
    assert_eq!(m.step(MqttEvent::ConnectSucceeded), MqttDirective::Subscribe);
    assert_eq!(m.step(MqttEvent::SubscribeFailed), MqttDirective::Sleep(20_000));
}

#[test]
fn mqtt_successful_subscribe_resets_backoff() {
    let mut m = MqttLoopState::new(5_000, 60_000);
    assert_eq!(m.step(MqttEvent::ConnectFailed), MqttDirective::Sleep(5_000));
    m.step(MqttEvent::SleepFinished);
    m.step(MqttEvent::ConnectSucceeded);
    assert_eq!(m.step(MqttEvent::SubscribeSucceeded), MqttDirective::Ignore);
    assert_eq!(m.step(MqttEvent::StreamError), MqttDirective::Sleep(5_000));
}

#[test]
fn mqtt_connectivity_flag_follows_traffic() {
    let mut m = MqttLoopState::new(5_000, 60_000);
    m.step(MqttEvent::ConnectSucceeded);
    m.step(MqttEvent::SubscribeSucceeded);
    assert!(!m.is_mqtt_connected());
    assert_eq!(m.step(MqttEvent::IncomingPublish), MqttDirective::HandlePublish);
    assert!(m.is_mqtt_connected());
    assert_eq!(m.step(MqttEvent::OutgoingPacket), MqttDirective::Ignore);
    assert!(m.is_mqtt_connected());
    m.step(MqttEvent::StreamError);
    assert!(!m.is_mqtt_connected());
}

#[test]
fn mqtt_other_incoming_traffic_raises_flag() {
    let mut m = MqttLoopState::new(5_000, 60_000);
    m.step(MqttEvent::ConnectSucceeded);
    m.step(MqttEvent::SubscribeSucceeded);
    assert_eq!(m.step(MqttEvent::IncomingOther), MqttDirective::Ignore);
    assert!(m.is_mqtt_connected());
    // the flag drops before the next attempt
    m.step(MqttEvent::StreamEnded);
    m.step(MqttEvent::SleepFinished);
    assert!(!m.is_mqtt_connected());
}

#[test]
fn mqtt_mismatched_event_is_ignored() {
    let mut m = MqttLoopState::new(5_000, 60_000);
    assert_eq!(m.step(MqttEvent::IncomingPublish), MqttDirective::Ignore);
    assert!(!m.is_mqtt_connected());
}

#[test]
fn realtime_loop_backs_off_independently() {
    let mut r = RealtimeLoopState::new(2_000, 30_000);
    assert_eq!(r.step(RealtimeEvent::ConnectFailed), RealtimeDirective::Sleep(2_000));
    assert_eq!(r.step(RealtimeEvent::SleepFinished), RealtimeDirective::StartConnect);
    assert_eq!(r.step(RealtimeEvent::ConnectFailed), RealtimeDirective::Sleep(4_000));
    r.step(RealtimeEvent::SleepFinished);
    assert_eq!(r.step(RealtimeEvent::ConnectSucceeded), RealtimeDirective::Ignore);
    assert!(r.is_realtime_connected());
    // a successful connect reset the backoff
    assert_eq!(r.step(RealtimeEvent::StreamClosed), RealtimeDirective::Sleep(2_000));
    assert!(!r.is_realtime_connected());
}

#[test]
fn realtime_poll_timeout_is_not_a_failure() {
    let mut r = RealtimeLoopState::new(2_000, 30_000);
    r.step(RealtimeEvent::ConnectSucceeded);
    assert_eq!(r.step(RealtimeEvent::PollTimeout), RealtimeDirective::Ignore);
    assert_eq!(r.step(RealtimeEvent::PollTimeout), RealtimeDirective::Ignore);
    assert!(r.is_realtime_connected());
    // the backoff was not touched by the timeouts
    assert_eq!(r.step(RealtimeEvent::StreamError), RealtimeDirective::Sleep(2_000));
}

#[test]
fn realtime_update_is_forwarded() {
    let mut r = RealtimeLoopState::new(2_000, 30_000);
    r.step(RealtimeEvent::ConnectSucceeded);
    assert_eq!(r.step(RealtimeEvent::UpdateReceived), RealtimeDirective::HandleUpdate);
    assert!(r.is_realtime_connected());
}
