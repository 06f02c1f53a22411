use pzem016mqtt::broker::{
    outcome_report, BrokerAction, BrokerEvent, BrokerLoop, EventPump, Observation, PublishOutcome,
    PumpStep,
};
use pzem016mqtt::config::AppConfig;
use pzem016mqtt::errors::MQTTError;
use pzem016mqtt::ipc::IPCMessage;
use pzem016mqtt::payload::{
    decimal_string, unit_messages, MeterReading, Payload, PayloadValueType, PublishMessage,
    Timestamp,
};
use pzem016mqtt::pending::PendingPublishes;
use pzem016mqtt::supervisor::{
    check_liveness, forward_is_fatal, route, ForwardResult, Liveness, Received, Route,
    ShutdownFlag,
};

fn message(topic: &str) -> PublishMessage {
    PublishMessage { topic: topic.to_string(), payload: Payload::Empty }
}

fn reading() -> MeterReading {
    MeterReading {
        volts: 230.5f32.to_bits(),
        amps: 1.25f32.to_bits(),
        watts: 288.0f32.to_bits(),
        watt_hours: 12345.0f32.to_bits(),
        frequency: 50.0f32.to_bits(),
        power_factor: 0.98f32.to_bits(),
    }
}

#[test]
fn publish_is_pending_until_first_ack() {
    let mut p = PendingPublishes::new();
    p.record_publish(7);
    assert!(p.contains(7));
    assert_eq!(p.len(), 1);
    assert!(p.acknowledge(7));
    assert!(!p.contains(7));
    assert_eq!(p.len(), 0);
    assert!(!p.acknowledge(7));
    assert_eq!(p.len(), 0);
}

#[test]
fn duplicate_ack_for_42_removes_one() {
    let mut p = PendingPublishes::new();
    p.record_publish(41);
    p.record_publish(42);
    p.record_publish(43);
    assert_eq!(p.len(), 3);
    assert!(p.acknowledge(42));
    assert_eq!(p.len(), 2);
    assert!(!p.acknowledge(42));
    assert_eq!(p.len(), 2);
    assert!(p.contains(41));
    assert!(p.contains(43));
}

#[test]
fn ack_for_unknown_id_is_ignored() {
    let mut p = PendingPublishes::new();
    p.record_publish(1);
    assert!(!p.acknowledge(9));
    assert_eq!(p.len(), 1);
    assert!(p.contains(1));
}

#[test]
fn republished_id_is_held_once() {
    let mut p = PendingPublishes::new();
    p.record_publish(5);
    p.record_publish(5);
    assert_eq!(p.len(), 1);
}

#[test]
fn event_pump_tracks_publishes_and_acks() {
    let mut pump = EventPump::new();
    assert_eq!(pump.handle(BrokerEvent::ConnAck), PumpStep::Continue);
    assert_eq!(pump.handle(BrokerEvent::OutgoingPublish(42)), PumpStep::Continue);
    assert!(pump.is_pending(42));
    assert_eq!(pump.pending_count(), 1);
    assert_eq!(pump.handle(BrokerEvent::PubAck(42)), PumpStep::Continue);
    assert_eq!(pump.handle(BrokerEvent::PubAck(42)), PumpStep::Continue);
    assert_eq!(pump.pending_count(), 0);
    assert_eq!(pump.handle(BrokerEvent::PingResp), PumpStep::Continue);
    assert_eq!(pump.handle(BrokerEvent::IncomingDisconnect), PumpStep::Stop);
}

#[test]
fn outbound_message_is_published() {
    let mut b = BrokerLoop::new();
    match b.step(Observation::Queued(IPCMessage::Outbound(message("a/b")))) {
        BrokerAction::Publish(m) => assert_eq!(m.topic, "a/b"),
        _ => panic!("expected a publish"),
    }
    assert!(!b.is_stopped());
}

#[test]
fn no_publish_after_broadcast_shutdown() {
    let mut b = BrokerLoop::new();
    assert!(matches!(b.step(Observation::Broadcast(IPCMessage::Shutdown)), BrokerAction::Disconnect));
    assert!(b.is_stopped());
    assert!(matches!(
        b.step(Observation::Queued(IPCMessage::Outbound(message("x")))),
        BrokerAction::Idle
    ));
    assert!(matches!(b.step(Observation::Broadcast(IPCMessage::Shutdown)), BrokerAction::Idle));
}

#[test]
fn queued_shutdown_disconnects() {
    let mut b = BrokerLoop::new();
    assert!(matches!(b.step(Observation::Queued(IPCMessage::Shutdown)), BrokerAction::Disconnect));
    assert!(matches!(
        b.step(Observation::Queued(IPCMessage::Outbound(message("y")))),
        BrokerAction::Idle
    ));
}

#[test]
fn finished_pump_is_fatal_and_other_messages_idle() {
    let mut b = BrokerLoop::new();
    assert!(matches!(b.step(Observation::PumpFinished), BrokerAction::Fatal));
    assert!(matches!(b.step(Observation::QueueClosed), BrokerAction::ReportQueueClosed));
    assert!(matches!(b.step(Observation::Nothing), BrokerAction::Idle));
    assert!(matches!(
        b.step(Observation::Queued(IPCMessage::Error("e".to_string()))),
        BrokerAction::Idle
    ));
    assert!(matches!(
        b.step(Observation::Broadcast(IPCMessage::Outbound(message("z")))),
        BrokerAction::Idle
    ));
}

#[test]
fn timed_out_publish_is_reported_and_not_retried() {
    let mut b = BrokerLoop::new();
    assert!(matches!(
        b.step(Observation::Queued(IPCMessage::Outbound(message("first")))),
        BrokerAction::Publish(_)
    ));
    assert_eq!(
        outcome_report(PublishOutcome::TimedOut),
        Some("Timeout trying to mqtt publish!".to_string())
    );
    match b.step(Observation::Queued(IPCMessage::Outbound(message("second")))) {
        BrokerAction::Publish(m) => assert_eq!(m.topic, "second"),
        _ => panic!("expected the next message"),
    }
    assert!(matches!(b.step(Observation::Nothing), BrokerAction::Idle));
}

#[test]
fn publish_outcome_reports() {
    assert_eq!(outcome_report(PublishOutcome::Accepted), None);
    assert_eq!(
        outcome_report(PublishOutcome::Rejected("closed".to_string())),
        Some("Couldn't send message: closed".to_string())
    );
}

#[test]
fn collector_restarted_only_when_finished() {
    assert_eq!(check_liveness(false, true), Liveness::RestartCollector);
    assert_eq!(check_liveness(false, false), Liveness::Continue);
    assert_eq!(check_liveness(true, true), Liveness::Exit);
    assert_eq!(check_liveness(true, false), Liveness::Exit);
}

#[test]
fn shutdown_flag_is_write_once() {
    let mut f = ShutdownFlag::new();
    assert!(!f.is_set());
    f.request();
    assert!(f.is_set());
    f.request();
    assert!(f.is_set());
}

#[test]
fn outbound_is_forwarded_unchanged() {
    match route(Received::Message(IPCMessage::Outbound(message("t/1")))) {
        Route::Forward(m) => assert_eq!(m.topic, "t/1"),
        _ => panic!("expected a forward"),
    }
    assert!(matches!(route(Received::Empty), Route::Ignore));
    assert!(matches!(route(Received::Message(IPCMessage::Shutdown)), Route::Ignore));
    assert!(matches!(
        route(Received::Message(IPCMessage::PleaseReconnect("a".to_string(), "b".to_string()))),
        Route::Ignore
    ));
    assert!(matches!(route(Received::Disconnected), Route::ReportDisconnected));
}

#[test]
fn full_queue_never_drops_silently() {
    assert!(!forward_is_fatal(ForwardResult::Queued));
    assert!(forward_is_fatal(ForwardResult::ReceiverGone));
}

#[test]
fn decimal_forms() {
    assert_eq!(decimal_string(0), "0");
    assert_eq!(decimal_string(7), "7");
    assert_eq!(decimal_string(42), "42");
    assert_eq!(decimal_string(101), "101");
    assert_eq!(decimal_string(255), "255");
}

#[test]
fn unit_messages_topics_and_documents() {
    let at = Timestamp { secs: 1_700_000_000, nanos: 5 };
    let msgs = unit_messages(101, &reading(), at);
    assert_eq!(msgs.len(), 12);
    assert_eq!(msgs[0].topic, "homeassistant/sensor/pzem016-101/volts/config");
    assert_eq!(msgs[1].topic, "pzem016mqtt/pzem016-101/volts/value");
    assert_eq!(msgs[10].topic, "homeassistant/sensor/pzem016-101/power_factor/config");
    assert_eq!(msgs[11].topic, "pzem016mqtt/pzem016-101/power_factor/value");
    match &msgs[0].payload {
        Payload::Config(c) => {
            assert_eq!(c.name, "pzem016-101-voltage");
            assert_eq!(c.unique_id, "pzem016-101-voltage");
            assert_eq!(c.state_topic, "pzem016mqtt/pzem016-101/volts/value");
            assert_eq!(c.device_class.as_deref(), Some("voltage"));
            assert_eq!(c.state_class.as_deref(), Some("measurement"));
            assert_eq!(c.native_uom.as_deref(), Some("V"));
            assert_eq!(c.suggested_display_precision, Some(1));
            assert_eq!(c.expires_after, 300);
            assert_eq!(c.value_template.as_deref(), Some("{{ value_json.value }}"));
            assert_eq!(c.device.identifiers, vec!["101".to_string()]);
            assert_eq!(c.device.manufacturer, "Peacefair");
            assert_eq!(c.device.name, "PZEM-016");
            assert_eq!(c.device.model, "pzem016");
            assert!(c.icon.is_none());
        }
        _ => panic!("expected a discovery document"),
    }
    match &msgs[1].payload {
        Payload::CurrentState(s) => {
            assert!(matches!(s.value, PayloadValueType::Float(b) if f32::from_bits(b) == 230.5));
            assert_eq!(s.last_seen, at);
        }
        _ => panic!("expected a state document"),
    }
    match &msgs[6].payload {
        Payload::Config(c) => {
            assert_eq!(c.name, "pzem016-101-energy");
            assert_eq!(c.state_class.as_deref(), Some("total_increasing"));
            assert_eq!(c.native_uom.as_deref(), Some("Wh"));
        }
        _ => panic!("expected a discovery document"),
    }
    match &msgs[10].payload {
        Payload::Config(c) => {
            assert_eq!(c.native_uom, None);
            assert_eq!(c.suggested_display_precision, Some(0));
            assert_eq!(c.device_class.as_deref(), Some("power_factor"));
        }
        _ => panic!("expected a discovery document"),
    }
    match &msgs[11].payload {
        Payload::CurrentState(s) => {
            assert!(matches!(s.value, PayloadValueType::Float(b) if b == 0.98f32.to_bits()));
        }
        _ => panic!("expected a state document"),
    }
}

#[test]
fn error_messages() {
    assert_eq!(MQTTError::Default("x".to_string()).message(), "Default: x");
    assert_eq!(MQTTError::ExitingThread.message(), "Received request for thread exit");
    assert!(MQTTError::ExitingThread.is_requested_exit());
    assert!(!MQTTError::Default(String::new()).is_requested_exit());
}

#[test]
fn config_defaults() {
    let mut c = AppConfig {
        mqtt_server_addr: "broker".to_string(),
        mqtt_server_port: None,
        mqtt_client_id: None,
        mqtt_username: None,
        mqtt_password: None,
        devices: None,
    };
    assert_eq!(c.broker_port(), 1883);
    assert_eq!(c.client_id(), "pzem016mqtt");
    c.mqtt_server_port = Some(8883);
    c.mqtt_client_id = Some("meter".to_string());
    assert_eq!(c.broker_port(), 8883);
    assert_eq!(c.client_id(), "meter");
}
