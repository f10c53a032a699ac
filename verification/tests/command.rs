use remote_closedown::command::{Command, Operation};

#[test]
fn parse_command_ok() {
    assert_eq!(
        Command::try_from("!mb7pmf power on".to_string()).unwrap(),
        Command {
            station_name: "mb7pmf".to_string(),
            op: Operation::PowerOn,
        }
    );
}

#[test]
fn parse_command_ok_whitespace() {
    assert_eq!(
        Command::try_from(" !mb7pmf   power  on ".to_string()).unwrap(),
        Command {
            station_name: "mb7pmf".to_string(),
            op: Operation::PowerOn,
        }
    );
}

#[test]
fn parse_command_ok_case() {
    assert_eq!(
        Command::try_from("!MB7PMF Power ON".to_string()).unwrap(),
        Command {
            station_name: "mb7pmf".to_string(),
            op: Operation::PowerOn,
        }
    );
}

#[test]
fn parse_command_err_command_string() {
    assert!(Command::try_from("mb7pmf power on".to_string()).is_err());
}

#[test]
fn parse_operation_ok() {
    assert_eq!(Operation::try_from(&["help"][..]).unwrap(), Operation::Help);
    assert_eq!(
        Operation::try_from(&["shutdown"][..]).unwrap(),
        Operation::Shutdown
    );
    assert_eq!(
        Operation::try_from(&["power", "on"][..]).unwrap(),
        Operation::PowerOn
    );
}

#[test]
fn parse_operation_err() {
    assert!(Operation::try_from(&["halp"][..]).is_err());
    assert!(Operation::try_from(&[""][..]).is_err());
    assert!(Operation::try_from(&[][..]).is_err());
}

#[test]
fn parse_all_six_verbs() {
    let cases = [
        ("help", Operation::Help),
        ("shutdown", Operation::Shutdown),
        ("power on", Operation::PowerOn),
        ("power off", Operation::PowerOff),
        ("ptt enable", Operation::PttEnable),
        ("ptt disable", Operation::PttDisable),
    ];
    for (verb, op) in cases {
        let cmd = Command::try_from(format!("!STATION {}", verb)).unwrap();
        assert_eq!(cmd.station_name, "station");
        assert_eq!(cmd.op, op);
        let padded = Command::try_from(format!("  !STATION   {}  ", verb)).unwrap();
        assert_eq!(padded.station_name, "station");
        assert_eq!(padded.op, op);
    }
}

#[test]
fn parse_empty_input_fails() {
    assert!(Command::try_from("".to_string()).is_err());
    assert!(Command::try_from("   ".to_string()).is_err());
}

#[test]
fn parse_no_marker_fails() {
    assert!(Command::try_from("help".to_string()).is_err());
}

#[test]
fn parse_unknown_verb_fails() {
    assert!(Command::try_from("!station unknown-verb".to_string()).is_err());
    assert!(Command::try_from("!station power sideways".to_string()).is_err());
    assert!(Command::try_from("!station".to_string()).is_err());
    assert!(Command::try_from("!station help me".to_string()).is_err());
}

#[test]
fn parse_bare_marker_names_empty_station() {
    let cmd = Command::try_from("! help".to_string()).unwrap();
    assert_eq!(cmd.station_name, "");
    assert_eq!(cmd.op, Operation::Help);
}

#[test]
fn operator_only_spares_help_alone() {
    assert!(!Operation::Help.is_operator_only());
    assert!(Operation::Shutdown.is_operator_only());
    assert!(Operation::PowerOn.is_operator_only());
    assert!(Operation::PowerOff.is_operator_only());
    assert!(Operation::PttEnable.is_operator_only());
    assert!(Operation::PttDisable.is_operator_only());
}

#[test]
fn default_command_is_help() {
    let cmd = Command::default();
    assert_eq!(cmd.station_name, "");
    assert_eq!(cmd.op, Operation::Help);
}
