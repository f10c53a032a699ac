use remote_closedown::status::StationStatus;
use remote_closedown::telemetry::decode_report;
use remote_closedown::tristate::TriState;

#[test]
fn decode_full_report() {
    let payload = "{\"status\":{\"tx_power_enabled\":true,\"tx_power_active\":null,\
                   \"ptt_enabled\":null,\"ptt_active\":null},\"message\":null,\
                   \"timestamp\":\"2024-01-01T00:00:00Z\"}";
    let rep = decode_report(payload).unwrap();
    assert_eq!(
        rep.status,
        StationStatus {
            tx_power_enabled: TriState::True,
            tx_power_active: TriState::Unknown,
            ptt_enabled: TriState::Unknown,
            ptt_active: TriState::Unknown,
        }
    );
    assert_eq!(rep.message, None);
    assert_eq!(rep.timestamp, "2024-01-01T00:00:00Z");
}

#[test]
fn decode_tolerates_whitespace_and_field_order() {
    let payload = " { \"timestamp\" : \"2024-06-30T23:59:60.5+05:30\" ,\n\
                   \t\"message\" : \"all well\" ,\
                   \"status\" : { \"ptt_active\" : false } } ";
    let rep = decode_report(payload).unwrap();
    assert_eq!(rep.status.ptt_active, TriState::False);
    assert_eq!(rep.status.tx_power_enabled, TriState::Unknown);
    assert_eq!(rep.message, Some("all well".to_string()));
    assert_eq!(rep.timestamp, "2024-06-30T23:59:60.5+05:30");
}

#[test]
fn decode_missing_status_fields_are_unknown() {
    let payload = "{\"status\":{},\"timestamp\":\"1999-12-31T23:59:59z\"}";
    let rep = decode_report(payload).unwrap();
    assert_eq!(rep.status, StationStatus::default());
    assert_eq!(rep.message, None);
}

#[test]
fn decode_unescapes_message() {
    let payload = "{\"status\":{},\"message\":\"a\\n\\\"b\\\"\\u0041\\ud83d\\ude00\\t\\\\\",\
                   \"timestamp\":\"2020-02-29T12:00:00+00:00\"}";
    let rep = decode_report(payload).unwrap();
    assert_eq!(rep.message, Some("a\n\"b\"A\u{1F600}\t\\".to_string()));
}

#[test]
fn decode_rejects_bad_payloads() {
    // not JSON at all
    assert!(decode_report("").is_err());
    assert!(decode_report("power on").is_err());
    // missing required fields
    assert!(decode_report("{}").is_err());
    assert!(decode_report("{\"status\":{}}").is_err());
    assert!(decode_report("{\"timestamp\":\"2024-01-01T00:00:00Z\"}").is_err());
    // unknown or duplicate keys
    assert!(decode_report(
        "{\"status\":{},\"timestamp\":\"2024-01-01T00:00:00Z\",\"extra\":null}"
    )
    .is_err());
    assert!(decode_report(
        "{\"status\":{},\"status\":{},\"timestamp\":\"2024-01-01T00:00:00Z\"}"
    )
    .is_err());
    assert!(decode_report(
        "{\"status\":{\"ptt_active\":true,\"ptt_active\":true},\"timestamp\":\"2024-01-01T00:00:00Z\"}"
    )
    .is_err());
    // trailing comma and trailing text
    assert!(decode_report("{\"status\":{},\"timestamp\":\"2024-01-01T00:00:00Z\",}").is_err());
    assert!(decode_report("{\"status\":{},\"timestamp\":\"2024-01-01T00:00:00Z\"} x").is_err());
    // wrong value types
    assert!(decode_report("{\"status\":{\"ptt_active\":1},\"timestamp\":\"2024-01-01T00:00:00Z\"}")
        .is_err());
    assert!(decode_report("{\"status\":null,\"timestamp\":\"2024-01-01T00:00:00Z\"}").is_err());
    assert!(decode_report("{\"status\":{},\"timestamp\":null}").is_err());
}

#[test]
fn decode_checks_the_calendar() {
    // leap day in a leap year is fine (tested above for 2020); 2023 has none
    assert!(decode_report("{\"status\":{},\"timestamp\":\"2023-02-29T12:00:00Z\"}").is_err());
    // 1900 was no leap year (century rule), 2000 was (four-century rule)
    assert!(decode_report("{\"status\":{},\"timestamp\":\"1900-02-29T12:00:00Z\"}").is_err());
    assert!(decode_report("{\"status\":{},\"timestamp\":\"2000-02-29T12:00:00Z\"}").is_ok());
    // field ranges
    assert!(decode_report("{\"status\":{},\"timestamp\":\"2024-13-01T00:00:00Z\"}").is_err());
    assert!(decode_report("{\"status\":{},\"timestamp\":\"2024-04-31T00:00:00Z\"}").is_err());
    assert!(decode_report("{\"status\":{},\"timestamp\":\"2024-01-01T24:00:00Z\"}").is_err());
    assert!(decode_report("{\"status\":{},\"timestamp\":\"2024-01-01T00:00:00\"}").is_err());
    assert!(decode_report("{\"status\":{},\"timestamp\":\"2024-01-01T00:00:00+0000\"}").is_err());
    assert!(decode_report("{\"status\":{},\"timestamp\":\"2024-01-01T00:00:00.Z\"}").is_err());
    assert!(decode_report("{\"status\":{},\"timestamp\":\"2024-01-01 00:00:00Z\"}").is_err());
}
