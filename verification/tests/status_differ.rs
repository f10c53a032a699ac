use remote_closedown::status::{observe, StationStatus};
use remote_closedown::tristate::TriState;

fn all_unknown() -> StationStatus {
    StationStatus {
        tx_power_enabled: TriState::Unknown,
        tx_power_active: TriState::Unknown,
        ptt_enabled: TriState::Unknown,
        ptt_active: TriState::Unknown,
    }
}

#[test]
fn same_status_twice_notifies_once() {
    let incoming = StationStatus {
        tx_power_enabled: TriState::True,
        tx_power_active: TriState::False,
        ptt_enabled: TriState::Unknown,
        ptt_active: TriState::Unknown,
    };
    let (stored, notify) = observe(all_unknown(), incoming);
    assert!(notify);
    assert_eq!(stored, incoming);
    let (stored2, notify2) = observe(stored, incoming);
    assert!(!notify2);
    assert_eq!(stored2, incoming);
}

#[test]
fn unknown_to_concrete_notifies() {
    let previous = all_unknown();
    let incoming = StationStatus {
        tx_power_enabled: TriState::True,
        ..all_unknown()
    };
    let (stored, notify) = observe(previous, incoming);
    assert!(notify);
    assert_eq!(stored, incoming);
}

#[test]
fn unknown_differs_from_false() {
    let previous = StationStatus {
        ptt_active: TriState::False,
        ..all_unknown()
    };
    let (_, notify) = observe(previous, all_unknown());
    assert!(notify);
}

#[test]
fn default_status_is_all_unknown() {
    assert_eq!(StationStatus::default(), all_unknown());
    assert_eq!(StationStatus::initial(), all_unknown());
}
