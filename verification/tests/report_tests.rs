use horizon_exporter::exporter::CycleError;
use horizon_exporter::report::{note_unknown, Anomaly, Dimension};

fn unknown(dimension: Dimension) -> Anomaly {
    Anomaly::UnknownValue { dimension, entity: "e1".to_string(), value: "VALUE".to_string() }
}

#[test]
fn warnings_read_as_documented() {
    assert_eq!(
        Anomaly::MissingPool { session: "s9".to_string() }.message(),
        "BUG: session id s9 is not a desktop session"
    );
    assert_eq!(
        unknown(Dimension::SessionState).message(),
        "skipping unknown state VALUE for session id e1"
    );
    assert_eq!(
        unknown(Dimension::SessionProtocol).message(),
        "skipping unknown session protocol VALUE for session id e1"
    );
    assert_eq!(
        unknown(Dimension::SessionType).message(),
        "skipping unknown session type VALUE for session id e1"
    );
    assert_eq!(
        unknown(Dimension::AgentVersion).message(),
        "skipping unknown agent version VALUE for session id e1"
    );
    assert_eq!(
        unknown(Dimension::MachineState).message(),
        "skipping unknown state VALUE for machine id e1"
    );
    assert_eq!(
        unknown(Dimension::MachineOs).message(),
        "skipping unknown operating system VALUE for machine id e1"
    );
    assert_eq!(
        unknown(Dimension::MachineArch).message(),
        "skipping unknown architecture VALUE for machine id e1"
    );
}

#[test]
fn known_value_is_not_noted() {
    let mut warnings = Vec::new();
    note_unknown(&mut warnings, true, Dimension::MachineOs, &"m1".to_string(), &"WINDOWS_10".to_string());
    assert!(warnings.is_empty());
    note_unknown(&mut warnings, false, Dimension::MachineOs, &"m1".to_string(), &"PLAN_9".to_string());
    assert_eq!(warnings.len(), 1);
    match &warnings[0] {
        Anomaly::UnknownValue { dimension, entity, value } => {
            assert_eq!(*dimension, Dimension::MachineOs);
            assert_eq!(entity, "m1");
            assert_eq!(value, "PLAN_9");
        }
        _ => panic!("another warning"),
    }
}

#[test]
fn cycle_errors_read_as_documented() {
    assert_eq!(CycleError::Login("x".to_string()).message(), "horizon login failed: x");
    assert_eq!(CycleError::Pools("x".to_string()).message(), "can't get list of desktop pools: x");
    assert_eq!(CycleError::Sessions("x".to_string()).message(), "session metric update failed: x");
    assert_eq!(CycleError::Machines("x".to_string()).message(), "machine metric update failed: x");
    assert_eq!(CycleError::Logout("x".to_string()).message(), "horizon logout failed: x");
    assert!(CycleError::Logout(String::new()).is_warning());
    assert!(!CycleError::Login(String::new()).is_warning());
    assert!(!CycleError::Pools(String::new()).is_warning());
    assert!(!CycleError::Sessions(String::new()).is_warning());
    assert!(!CycleError::Machines(String::new()).is_warning());
}
