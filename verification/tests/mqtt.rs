use wetterstation::mqtt::{
    MqttAction, MqttEvent, MqttOp, MqttPhase, MqttSession, ReadingKind, MQTT_BROKER_PORT,
    MQTT_CLIENT_ID,
};

#[test]
fn topics_per_reading_kind() {
    assert_eq!(ReadingKind::Light.topic(), "balkon/licht");
    assert_eq!(ReadingKind::Climate.topic(), "balkon/klima");
    assert_eq!(ReadingKind::Gas.topic(), "balkon/gas");
    assert_eq!(ReadingKind::WindSpeed.topic(), "balkon/wind");
}

#[test]
fn topics_are_distinct() {
    let kinds = [ReadingKind::Light, ReadingKind::Climate, ReadingKind::Gas, ReadingKind::WindSpeed];
    for a in kinds {
        for b in kinds {
            assert_eq!(a == b, a.topic() == b.topic());
        }
    }
}

#[test]
fn broker_session_parameters() {
    assert_eq!(MQTT_CLIENT_ID, "wetterstation");
    assert_eq!(MQTT_BROKER_PORT, 1883);
}

#[test]
fn session_connects_publishes_and_recovers() {
    let (mut s, first) = MqttSession::new();
    assert_eq!(first, MqttAction { delay_secs: 0, op: MqttOp::OpenTcp });
    assert_eq!(s.step(MqttEvent::TcpFailed), MqttAction { delay_secs: 3, op: MqttOp::OpenTcp });
    assert_eq!(s.step(MqttEvent::TcpConnected), MqttAction { delay_secs: 0, op: MqttOp::Handshake });
    assert_eq!(s.step(MqttEvent::HandshakeFailed), MqttAction { delay_secs: 5, op: MqttOp::OpenTcp });
    assert_eq!(s.phase, MqttPhase::OpeningTcp);
    s.step(MqttEvent::TcpConnected);
    assert_eq!(s.step(MqttEvent::HandshakeSucceeded), MqttAction { delay_secs: 0, op: MqttOp::PublishNext });
    assert_eq!(s.step(MqttEvent::Published), MqttAction { delay_secs: 0, op: MqttOp::PublishNext });
    assert_eq!(s.phase, MqttPhase::Publishing);
    assert_eq!(s.step(MqttEvent::PublishFailed), MqttAction { delay_secs: 5, op: MqttOp::OpenTcp });
    assert_eq!(s.phase, MqttPhase::OpeningTcp);
}

#[test]
fn session_publishes_only_after_handshake() {
    let (mut s, _) = MqttSession::new();
    // publication outcomes before the handshake change nothing
    assert_eq!(s.step(MqttEvent::Published), MqttAction { delay_secs: 0, op: MqttOp::OpenTcp });
    s.step(MqttEvent::TcpConnected);
    assert_eq!(s.step(MqttEvent::Published), MqttAction { delay_secs: 0, op: MqttOp::Handshake });
    assert_eq!(s.phase, MqttPhase::Handshaking);
    s.step(MqttEvent::HandshakeSucceeded);
    assert_eq!(s.phase, MqttPhase::Publishing);
}
