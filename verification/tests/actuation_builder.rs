use remote_closedown::actuation::{build, encode, ActuationCommand};
use remote_closedown::command::Operation;
use remote_closedown::tristate::TriState;

#[test]
fn build_shutdown_disables_both() {
    assert_eq!(
        build(Operation::Shutdown),
        ActuationCommand {
            enable_tx_power: TriState::False,
            enable_ptt: TriState::False,
        }
    );
}

#[test]
fn build_power_on_leaves_ptt_alone() {
    assert_eq!(
        build(Operation::PowerOn),
        ActuationCommand {
            enable_tx_power: TriState::True,
            enable_ptt: TriState::Unknown,
        }
    );
}

#[test]
fn build_power_off_leaves_ptt_alone() {
    assert_eq!(
        build(Operation::PowerOff),
        ActuationCommand {
            enable_tx_power: TriState::False,
            enable_ptt: TriState::Unknown,
        }
    );
}

#[test]
fn build_ptt_operations_leave_power_alone() {
    assert_eq!(
        build(Operation::PttEnable),
        ActuationCommand {
            enable_tx_power: TriState::Unknown,
            enable_ptt: TriState::True,
        }
    );
    assert_eq!(
        build(Operation::PttDisable),
        ActuationCommand {
            enable_tx_power: TriState::Unknown,
            enable_ptt: TriState::False,
        }
    );
}

#[test]
fn encode_renders_null_for_unchanged() {
    assert_eq!(
        encode(&build(Operation::PowerOn)),
        "{\"enable_tx_power\":true,\"enable_ptt\":null}"
    );
    assert_eq!(
        encode(&build(Operation::Shutdown)),
        "{\"enable_tx_power\":false,\"enable_ptt\":false}"
    );
    assert_eq!(
        encode(&build(Operation::PttDisable)),
        "{\"enable_tx_power\":null,\"enable_ptt\":false}"
    );
    assert_eq!(
        encode(&build(Operation::PttEnable)),
        "{\"enable_tx_power\":null,\"enable_ptt\":true}"
    );
    assert_eq!(
        encode(&build(Operation::PowerOff)),
        "{\"enable_tx_power\":false,\"enable_ptt\":null}"
    );
}
