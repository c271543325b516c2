use horizon_exporter::constants::{
    generate_default_user_agent, known_machine_arch_labels, known_machine_arch_values,
    known_machine_os_labels, known_machine_os_values, known_machine_state_labels,
    known_machine_state_values, known_session_protocol_labels, known_session_protocol_values,
    known_session_state_labels, known_session_state_values, known_session_type_labels,
    known_session_type_values, DEFAULT_LISTEN_ADDR, DEFAULT_TIMEOUT, NAME, VERSION,
};

fn lower_of(values: &[&str]) -> Vec<String> {
    values.iter().map(|v| v.to_lowercase()).collect()
}

#[test]
fn user_agent_names_program_version_and_home() {
    assert_eq!(
        generate_default_user_agent(),
        "vmware_horizon-exporter/1.0.0 (https://ypbind.de/cgit/vmware_horizon-exporter/)"
    );
    assert_eq!(generate_default_user_agent(), format!("{}/{} ({})", NAME, VERSION, "https://ypbind.de/cgit/vmware_horizon-exporter/"));
}

#[test]
fn defaults_are_as_documented() {
    assert_eq!(DEFAULT_LISTEN_ADDR, "localhost:9133");
    assert_eq!(DEFAULT_TIMEOUT, 60);
}

#[test]
fn session_states_are_three() {
    assert_eq!(known_session_state_values(), vec!["CONNECTED", "DISCONNECTED", "PENDING"]);
    assert_eq!(known_session_state_labels(), vec!["connected", "disconnected", "pending"]);
}

#[test]
fn session_protocols_are_five() {
    assert_eq!(known_session_protocol_values(), vec!["PCOIP", "RDP", "BLAST", "CONSOLE", "UNKNOWN"]);
    assert_eq!(known_session_protocol_labels(), vec!["pcoip", "rdp", "blast", "console", "unknown"]);
}

#[test]
fn session_types_are_two() {
    assert_eq!(known_session_type_values(), vec!["APPLICATION", "DESKTOP"]);
    assert_eq!(known_session_type_labels(), vec!["application", "desktop"]);
}

#[test]
fn machine_states_are_twenty_nine() {
    let values = known_machine_state_values();
    assert_eq!(values.len(), 29);
    assert!(values.contains(&"AGENT_ERROR_STARTUP_IN_PROGRESS"));
    assert!(values.contains(&"WAITING_FOR_AGENT"));
    assert!(values.contains(&"AVAILABLE"));
}

#[test]
fn operating_systems_are_nineteen() {
    let values = known_machine_os_values();
    assert_eq!(values.len(), 19);
    assert!(values.contains(&"WINDOWS_SERVER_2016_OR_ABOVE"));
    assert!(values.contains(&"LINUX_UBUNTU"));
}

#[test]
fn architectures_are_three() {
    assert_eq!(known_machine_arch_values(), vec!["BIT_64", "BIT_32", "UNKNOWN"]);
    assert_eq!(known_machine_arch_labels(), vec!["bit_64", "bit_32", "unknown"]);
}

#[test]
fn labels_are_the_values_in_lower_case() {
    assert_eq!(lower_of(&known_session_state_values()), known_session_state_labels());
    assert_eq!(lower_of(&known_session_protocol_values()), known_session_protocol_labels());
    assert_eq!(lower_of(&known_session_type_values()), known_session_type_labels());
    assert_eq!(lower_of(&known_machine_state_values()), known_machine_state_labels());
    assert_eq!(lower_of(&known_machine_os_values()), known_machine_os_labels());
    assert_eq!(lower_of(&known_machine_arch_values()), known_machine_arch_labels());
}

#[test]
fn no_value_is_listed_twice() {
    for list in [
        known_session_state_values(),
        known_session_protocol_values(),
        known_session_type_values(),
        known_machine_state_values(),
        known_machine_os_values(),
        known_machine_arch_values(),
    ] {
        let mut seen: Vec<&str> = Vec::new();
        for v in list {
            assert!(!seen.contains(&v));
            seen.push(v);
        }
    }
}
