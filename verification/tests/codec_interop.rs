//! Cross-checks of the wire codec against a general-purpose JSON
//! implementation: what the library encodes must parse as the JSON it means,
//! and JSON rendered by the other implementation must decode to the same
//! report.

use remote_closedown::actuation::{build, encode};
use remote_closedown::command::Operation;
use remote_closedown::telemetry::decode_report;
use remote_closedown::tristate::TriState;

#[test]
fn encoded_actuation_is_valid_json() {
    let ops = [
        Operation::Shutdown,
        Operation::PowerOn,
        Operation::PowerOff,
        Operation::PttEnable,
        Operation::PttDisable,
    ];
    for op in ops {
        let payload = encode(&build(op));
        let value: serde_json::Value = serde_json::from_str(&payload).unwrap();
        let object = value.as_object().unwrap();
        assert_eq!(object.len(), 2);
        assert!(object.contains_key("enable_tx_power"));
        assert!(object.contains_key("enable_ptt"));
    }
}

#[test]
fn encoded_power_on_means_what_it_says() {
    let payload = encode(&build(Operation::PowerOn));
    let value: serde_json::Value = serde_json::from_str(&payload).unwrap();
    assert_eq!(value["enable_tx_power"], serde_json::Value::Bool(true));
    assert_eq!(value["enable_ptt"], serde_json::Value::Null);
}

#[test]
fn decode_agrees_with_other_renderer() {
    let mut status = serde_json::Map::new();
    status.insert("tx_power_enabled".to_string(), serde_json::Value::Bool(true));
    status.insert("ptt_active".to_string(), serde_json::Value::Null);
    let mut root = serde_json::Map::new();
    root.insert("status".to_string(), serde_json::Value::Object(status));
    root.insert(
        "message".to_string(),
        serde_json::Value::String("back on \"air\"\n73".to_string()),
    );
    root.insert(
        "timestamp".to_string(),
        serde_json::Value::String("2024-01-01T00:00:00Z".to_string()),
    );
    let payload = serde_json::to_string(&serde_json::Value::Object(root)).unwrap();
    let rep = decode_report(&payload).unwrap();
    assert_eq!(rep.status.tx_power_enabled, TriState::True);
    assert_eq!(rep.status.tx_power_active, TriState::Unknown);
    assert_eq!(rep.status.ptt_active, TriState::Unknown);
    assert_eq!(rep.message, Some("back on \"air\"\n73".to_string()));
    assert_eq!(rep.timestamp, "2024-01-01T00:00:00Z");
}
