use pzem016mqtt::payload::{
    metric_config, Metric, PayloadValueType, StatePayload, Timestamp,
};
use pzem016mqtt::wire::{shape_of, ConfigKey, PayloadShape};

fn names(v: &[&str]) -> Vec<String> {
    v.iter().map(|s| s.to_string()).collect()
}

#[test]
fn config_wire_keys_omit_unset_fields() {
    let mut c = metric_config(&"101".to_string(), Metric::PowerFactor);
    let keys = c.wire_keys();
    assert!(keys.contains(&ConfigKey::Name));
    assert!(keys.contains(&ConfigKey::ExpiresAfter));
    assert!(keys.contains(&ConfigKey::DeviceClass));
    assert!(keys.contains(&ConfigKey::SuggestedDisplayPrecision));
    assert!(!keys.contains(&ConfigKey::UnitOfMeasurement));
    assert!(!keys.contains(&ConfigKey::Icon));
    assert!(!keys.contains(&ConfigKey::EntityCategory));
    assert_eq!(keys.len(), 10);
    c.icon = Some("mdi:flash".to_string());
    assert!(c.wire_keys().contains(&ConfigKey::Icon));
}

#[test]
fn config_wire_names_use_wire_spelling() {
    let c = metric_config(&"7".to_string(), Metric::Volts);
    let n = c.wire_names();
    assert!(n.contains(&"unit_of_measurement".to_string()));
    assert!(!n.contains(&"native_uom".to_string()));
    assert_eq!(ConfigKey::UnitOfMeasurement.wire_name(), "unit_of_measurement");
    assert_eq!(shape_of(&n), PayloadShape::Config);
}

#[test]
fn state_wire_names_and_shape() {
    let mut s = StatePayload::empty_at(Timestamp { secs: 1, nanos: 0 });
    assert_eq!(s.wire_names(), names(&["value", "last_seen"]));
    s.notes = Some("n".to_string());
    s.value = PayloadValueType::Int(3);
    assert_eq!(s.wire_names(), names(&["value", "notes", "last_seen"]));
    assert_eq!(shape_of(&s.wire_names()), PayloadShape::CurrentState);
}

#[test]
fn shapes_from_keys() {
    assert_eq!(shape_of(&names(&[])), PayloadShape::Unknown);
    assert_eq!(shape_of(&names(&["value"])), PayloadShape::Unknown);
    assert_eq!(
        shape_of(&names(&["name", "device", "unique_id", "entity_id", "state_topic"])),
        PayloadShape::Unknown
    );
    assert_eq!(
        shape_of(&names(&[
            "name", "device", "unique_id", "entity_id", "state_topic", "expires_after", "value",
            "last_seen"
        ])),
        PayloadShape::Config
    );
}
