//! Fixed names: routes, metric names, and the category enumerations of each dimension.

use vstd::prelude::*;
use vstd::string::StringExecFns;

verus! {

pub const NAME: &'static str = "vmware_horizon-exporter";
pub const VERSION: &'static str = "1.0.0";
pub const REPO_URL: &'static str = "https://ypbind.de/cgit/vmware_horizon-exporter/";

pub const ROOT_HTML: &'static str = "<html>\n<head><title>VMWare Horizon exporter</title></head>\n<body>\n<h1>VMWare Horizon exporter</h1>\n<p><a href=\"/metrics\">Metrics</a></p>\n</body>\n</html>\n";

pub const METRICS_PATH: &'static str = "/metrics";

pub const DEFAULT_LISTEN_ADDR: &'static str = "localhost:9133";

pub const REPLY_METHOD_NOT_ALLOWED: &'static str = "Method not allowed";
pub const REPLY_NOT_FOUND: &'static str = "Not found";

pub const SESSION_CONNECTED: &'static str = "CONNECTED";
pub const SESSION_DISCONNECTED: &'static str = "DISCONNECTED";
pub const SESSION_PENDING: &'static str = "PENDING";

pub const LC_SESSION_CONNECTED: &'static str = "connected";
pub const LC_SESSION_DISCONNECTED: &'static str = "disconnected";
pub const LC_SESSION_PENDING: &'static str = "pending";

pub const PROTOCOL_PCOIP: &'static str = "PCOIP";
pub const PROTOCOL_RDP: &'static str = "RDP";
pub const PROTOCOL_BLAST: &'static str = "BLAST";
pub const PROTOCOL_CONSOLE: &'static str = "CONSOLE";
pub const PROTOCOL_UNKNOWN: &'static str = "UNKNOWN";

pub const LC_PROTOCOL_PCOIP: &'static str = "pcoip";
pub const LC_PROTOCOL_RDP: &'static str = "rdp";
pub const LC_PROTOCOL_BLAST: &'static str = "blast";
pub const LC_PROTOCOL_CONSOLE: &'static str = "console";
pub const LC_PROTOCOL_UNKNOWN: &'static str = "unknown";

pub const TYPE_APPLICATION: &'static str = "APPLICATION";
pub const TYPE_DESKTOP: &'static str = "DESKTOP";

pub const LC_TYPE_APPLICATION: &'static str = "application";
pub const LC_TYPE_DESKTOP: &'static str = "desktop";

pub const MSTATE_AGENT_CONFIG_ERROR: &'static str = "AGENT_CONFIG_ERROR";
pub const MSTATE_AGENT_DRAIN_MODE: &'static str = "AGENT_DRAIN_MODE";
pub const MSTATE_AGENT_DRAIN_UNTIL_RESTART: &'static str = "AGENT_DRAIN_UNTIL_RESTART";
pub const MSTATE_AGENT_ERROR_DISABLED: &'static str = "AGENT_ERROR_DISABLED";
pub const MSTATE_AGENT_ERROR_INVALID_IP: &'static str = "AGENT_ERROR_INVALID_IP";
pub const MSTATE_AGENT_ERROR_NEEDS_REBOOT: &'static str = "AGENT_ERROR_NEEDS_REBOOT";
pub const MSTATE_AGENT_ERROR_PROTOCOL_FAILURE: &'static str = "AGENT_ERROR_PROTOCOL_FAILURE";
pub const MSTATE_AGENT_ERROR_STARTUP_IN_PROGRESS: &'static str = "AGENT_ERROR_STARTUP_IN_PROGRESS";
pub const MSTATE_AGENT_ERROR_DOMAIN_FAILURE: &'static str = "AGENT_ERROR_DOMAIN_FAILURE";
pub const MSTATE_AGENT_UNREACHABLE: &'static str = "AGENT_UNREACHABLE";
pub const MSTATE_ALREADY_USED: &'static str = "ALREADY_USED";
pub const MSTATE_AVAILABLE: &'static str = "AVAILABLE";
pub const MSTATE_CONNECTED: &'static str = "CONNECTED";
pub const MSTATE_CUSTOMIZING: &'static str = "CUSTOMIZING";
pub const MSTATE_DELETING: &'static str = "DELETING";
pub const MSTATE_DISABLED: &'static str = "DISABLED";
pub const MSTATE_DISABLE_IN_PROGRESS: &'static str = "DISABLE_IN_PROGRESS";
pub const MSTATE_DISCONNECTED: &'static str = "DISCONNECTED";
pub const MSTATE_ERROR: &'static str = "ERROR";
pub const MSTATE_IN_PROGRESS: &'static str = "IN_PROGRESS";
pub const MSTATE_MAINTENANCE: &'static str = "MAINTENANCE";
pub const MSTATE_PROVISIONED: &'static str = "PROVISIONED";
pub const MSTATE_PROVISIONING: &'static str = "PROVISIONING";
pub const MSTATE_PROVISIONING_ERROR: &'static str = "PROVISIONING_ERROR";
pub const MSTATE_UNASSIGNED_USER_CONNECTED: &'static str = "UNASSIGNED_USER_CONNECTED";
pub const MSTATE_UNASSIGNED_USER_DISCONNECTED: &'static str = "UNASSIGNED_USER_DISCONNECTED";
pub const MSTATE_UNKNOWN: &'static str = "UNKNOWN";
pub const MSTATE_VALIDATING: &'static str = "VALIDATING";
pub const MSTATE_WAITING_FOR_AGENT: &'static str = "WAITING_FOR_AGENT";

pub const LC_MSTATE_AGENT_CONFIG_ERROR: &'static str = "agent_config_error";
pub const LC_MSTATE_AGENT_DRAIN_MODE: &'static str = "agent_drain_mode";
pub const LC_MSTATE_AGENT_DRAIN_UNTIL_RESTART: &'static str = "agent_drain_until_restart";
pub const LC_MSTATE_AGENT_ERROR_DISABLED: &'static str = "agent_error_disabled";
pub const LC_MSTATE_AGENT_ERROR_INVALID_IP: &'static str = "agent_error_invalid_ip";
pub const LC_MSTATE_AGENT_ERROR_NEEDS_REBOOT: &'static str = "agent_error_needs_reboot";
pub const LC_MSTATE_AGENT_ERROR_PROTOCOL_FAILURE: &'static str = "agent_error_protocol_failure";
pub const LC_MSTATE_AGENT_ERROR_STARTUP_IN_PROGRESS: &'static str = "agent_error_startup_in_progress";
pub const LC_MSTATE_AGENT_ERROR_DOMAIN_FAILURE: &'static str = "agent_error_domain_failure";
pub const LC_MSTATE_AGENT_UNREACHABLE: &'static str = "agent_unreachable";
pub const LC_MSTATE_ALREADY_USED: &'static str = "already_used";
pub const LC_MSTATE_AVAILABLE: &'static str = "available";
pub const LC_MSTATE_CONNECTED: &'static str = "connected";
pub const LC_MSTATE_CUSTOMIZING: &'static str = "customizing";
pub const LC_MSTATE_DELETING: &'static str = "deleting";
pub const LC_MSTATE_DISABLED: &'static str = "disabled";
pub const LC_MSTATE_DISABLE_IN_PROGRESS: &'static str = "disable_in_progress";
pub const LC_MSTATE_DISCONNECTED: &'static str = "disconnected";
pub const LC_MSTATE_ERROR: &'static str = "error";
pub const LC_MSTATE_IN_PROGRESS: &'static str = "in_progress";
pub const LC_MSTATE_MAINTENANCE: &'static str = "maintenance";
pub const LC_MSTATE_PROVISIONED: &'static str = "provisioned";
pub const LC_MSTATE_PROVISIONING: &'static str = "provisioning";
pub const LC_MSTATE_PROVISIONING_ERROR: &'static str = "provisioning_error";
pub const LC_MSTATE_UNASSIGNED_USER_CONNECTED: &'static str = "unassigned_user_connected";
pub const LC_MSTATE_UNASSIGNED_USER_DISCONNECTED: &'static str = "unassigned_user_disconnected";
pub const LC_MSTATE_UNKNOWN: &'static str = "unknown";
pub const LC_MSTATE_VALIDATING: &'static str = "validating";
pub const LC_MSTATE_WAITING_FOR_AGENT: &'static str = "waiting_for_agent";

pub const OS_LINUX_CENTOS: &'static str = "LINUX_CENTOS";
pub const OS_LINUX_OTHER: &'static str = "LINUX_OTHER";
pub const OS_LINUX_RHEL: &'static str = "LINUX_RHEL";
pub const OS_LINUX_SERVER_OTHER: &'static str = "LINUX_SERVER_OTHER";
pub const OS_LINUX_SUSE: &'static str = "LINUX_SUSE";
pub const OS_LINUX_UBUNTU: &'static str = "LINUX_UBUNTU";
pub const OS_UNKNOWN: &'static str = "UNKNOWN";
pub const OS_WINDOWS_10: &'static str = "WINDOWS_10";
pub const OS_WINDOWS_11: &'static str = "WINDOWS_11";
pub const OS_WINDOWS_7: &'static str = "WINDOWS_7";
pub const OS_WINDOWS_8: &'static str = "WINDOWS_8";
pub const OS_WINDOWS_SERVER_2003: &'static str = "WINDOWS_SERVER_2003";
pub const OS_WINDOWS_SERVER_2008: &'static str = "WINDOWS_SERVER_2008";
pub const OS_WINDOWS_SERVER_2008_R2: &'static str = "WINDOWS_SERVER_2008_R2";
pub const OS_WINDOWS_SERVER_2012: &'static str = "WINDOWS_SERVER_2012";
pub const OS_WINDOWS_SERVER_2012_R2: &'static str = "WINDOWS_SERVER_2012_R2";
pub const OS_WINDOWS_SERVER_2016_OR_ABOVE: &'static str = "WINDOWS_SERVER_2016_OR_ABOVE";
pub const OS_WINDOWS_VISTA: &'static str = "WINDOWS_VISTA";
pub const OS_WINDOWS_XP: &'static str = "WINDOWS_XP";

pub const LC_OS_LINUX_CENTOS: &'static str = "linux_centos";
pub const LC_OS_LINUX_OTHER: &'static str = "linux_other";
pub const LC_OS_LINUX_RHEL: &'static str = "linux_rhel";
pub const LC_OS_LINUX_SERVER_OTHER: &'static str = "linux_server_other";
pub const LC_OS_LINUX_SUSE: &'static str = "linux_suse";
pub const LC_OS_LINUX_UBUNTU: &'static str = "linux_ubuntu";
pub const LC_OS_UNKNOWN: &'static str = "unknown";
pub const LC_OS_WINDOWS_10: &'static str = "windows_10";
pub const LC_OS_WINDOWS_11: &'static str = "windows_11";
pub const LC_OS_WINDOWS_7: &'static str = "windows_7";
pub const LC_OS_WINDOWS_8: &'static str = "windows_8";
pub const LC_OS_WINDOWS_SERVER_2003: &'static str = "windows_server_2003";
pub const LC_OS_WINDOWS_SERVER_2008: &'static str = "windows_server_2008";
pub const LC_OS_WINDOWS_SERVER_2008_R2: &'static str = "windows_server_2008_r2";
pub const LC_OS_WINDOWS_SERVER_2012: &'static str = "windows_server_2012";
pub const LC_OS_WINDOWS_SERVER_2012_R2: &'static str = "windows_server_2012_r2";
pub const LC_OS_WINDOWS_SERVER_2016_OR_ABOVE: &'static str = "windows_server_2016_or_above";
pub const LC_OS_WINDOWS_VISTA: &'static str = "windows_vista";
pub const LC_OS_WINDOWS_XP: &'static str = "windows_xp";

pub const ARCH_BIT_64: &'static str = "BIT_64";
pub const ARCH_BIT_32: &'static str = "BIT_32";
pub const ARCH_UNKNOWN: &'static str = "UNKNOWN";

pub const LC_ARCH_BIT_64: &'static str = "bit_64";
pub const LC_ARCH_BIT_32: &'static str = "bit_32";
pub const LC_ARCH_UNKNOWN: &'static str = "unknown";

pub const REST_LOGIN: &'static str = "/rest/login";
pub const REST_LOGOUT: &'static str = "/rest/logout";
pub const REST_SESSIONS: &'static str = "/rest/inventory/v1/sessions";
pub const REST_DESKTOP_POOLS: &'static str = "/rest/inventory/v1/desktop-pools";
pub const REST_MACHINES: &'static str = "/rest/inventory/v1/machines";

pub const SESSIONS_NAME: &'static str = "horizon_sessions";
pub const SESSIONS_HELP: &'static str = "Horizon sessions";

pub const AGENT_VERSIONS_NAME: &'static str = "horizon_agent_version_info";
pub const AGENT_VERSIONS_HELP: &'static str = "Version of horizon agent";

pub const SESSION_PROTOCOLS_NAME: &'static str = "horizon_session_protocols";
pub const SESSION_PROTOCOLS_HELP: &'static str = "Horizon session protocols";
pub const SESSION_TYPES_NAME: &'static str = "horizon_session_types";
pub const SESSION_TYPES_HELP: &'static str = "Horizon session type";

pub const MACHINE_STATES_NAME: &'static str = "horizon_machine_states";
pub const MACHINE_STATES_HELP: &'static str = "State of horizon virtual machine";
pub const MACHINE_OS_NAME: &'static str = "horizon_machine_os_info";
pub const MACHINE_OS_HELP: &'static str = "Operating system on virtual machines";
pub const MACHINE_ARCH_NAME: &'static str = "horizon_machine_os_arch_info";
pub const MACHINE_ARCH_HELP: &'static str = "Architecture of operating system on virtual machine";

pub const DEFAULT_TIMEOUT: u64 = 60;

/// The session states that the inventory is known to report, as it writes them.
pub open spec fn session_state_values() -> Seq<&'static str> {
    seq![
        SESSION_CONNECTED,
        SESSION_DISCONNECTED,
        SESSION_PENDING,
    ]
}

/// The session states that the inventory is known to report, as it writes them.
pub fn known_session_state_values() -> (list: Vec<&'static str>)
    ensures
        list@ == session_state_values(),
{
    let list = vec![
        SESSION_CONNECTED,
        SESSION_DISCONNECTED,
        SESSION_PENDING,
    ];
    assert(list@ =~= session_state_values());
    list
}

/// The labels under which the known session states are counted.
pub open spec fn session_state_labels() -> Seq<&'static str> {
    seq![
        LC_SESSION_CONNECTED,
        LC_SESSION_DISCONNECTED,
        LC_SESSION_PENDING,
    ]
}

/// The labels under which the known session states are counted.
pub fn known_session_state_labels() -> (list: Vec<&'static str>)
    ensures
        list@ == session_state_labels(),
{
    let list = vec![
        LC_SESSION_CONNECTED,
        LC_SESSION_DISCONNECTED,
        LC_SESSION_PENDING,
    ];
    assert(list@ =~= session_state_labels());
    list
}

/// The session protocols that the inventory is known to report, as it writes them.
pub open spec fn session_protocol_values() -> Seq<&'static str> {
    seq![
        PROTOCOL_PCOIP,
        PROTOCOL_RDP,
        PROTOCOL_BLAST,
        PROTOCOL_CONSOLE,
        PROTOCOL_UNKNOWN,
    ]
}

/// The session protocols that the inventory is known to report, as it writes them.
pub fn known_session_protocol_values() -> (list: Vec<&'static str>)
    ensures
        list@ == session_protocol_values(),
{
    let list = vec![
        PROTOCOL_PCOIP,
        PROTOCOL_RDP,
        PROTOCOL_BLAST,
        PROTOCOL_CONSOLE,
        PROTOCOL_UNKNOWN,
    ];
    assert(list@ =~= session_protocol_values());
    list
}

/// The labels under which the known session protocols are counted.
pub open spec fn session_protocol_labels() -> Seq<&'static str> {
    seq![
        LC_PROTOCOL_PCOIP,
        LC_PROTOCOL_RDP,
        LC_PROTOCOL_BLAST,
        LC_PROTOCOL_CONSOLE,
        LC_PROTOCOL_UNKNOWN,
    ]
}

/// The labels under which the known session protocols are counted.
pub fn known_session_protocol_labels() -> (list: Vec<&'static str>)
    ensures
        list@ == session_protocol_labels(),
{
    let list = vec![
        LC_PROTOCOL_PCOIP,
        LC_PROTOCOL_RDP,
        LC_PROTOCOL_BLAST,
        LC_PROTOCOL_CONSOLE,
        LC_PROTOCOL_UNKNOWN,
    ];
    assert(list@ =~= session_protocol_labels());
    list
}

/// The session types that the inventory is known to report, as it writes them.
pub open spec fn session_type_values() -> Seq<&'static str> {
    seq![
        TYPE_APPLICATION,
        TYPE_DESKTOP,
    ]
}

/// The session types that the inventory is known to report, as it writes them.
pub fn known_session_type_values() -> (list: Vec<&'static str>)
    ensures
        list@ == session_type_values(),
{
    let list = vec![
        TYPE_APPLICATION,
        TYPE_DESKTOP,
    ];
    assert(list@ =~= session_type_values());
    list
}

/// The labels under which the known session types are counted.
pub open spec fn session_type_labels() -> Seq<&'static str> {
    seq![
        LC_TYPE_APPLICATION,
        LC_TYPE_DESKTOP,
    ]
}

/// The labels under which the known session types are counted.
pub fn known_session_type_labels() -> (list: Vec<&'static str>)
    ensures
        list@ == session_type_labels(),
{
    let list = vec![
        LC_TYPE_APPLICATION,
        LC_TYPE_DESKTOP,
    ];
    assert(list@ =~= session_type_labels());
    list
}

/// The machine states that the inventory is known to report, as it writes them.
pub open spec fn machine_state_values() -> Seq<&'static str> {
    seq![
        MSTATE_AGENT_CONFIG_ERROR,
        MSTATE_AGENT_DRAIN_MODE,
        MSTATE_AGENT_DRAIN_UNTIL_RESTART,
        MSTATE_AGENT_ERROR_DISABLED,
        MSTATE_AGENT_ERROR_INVALID_IP,
        MSTATE_AGENT_ERROR_NEEDS_REBOOT,
        MSTATE_AGENT_ERROR_PROTOCOL_FAILURE,
        MSTATE_AGENT_ERROR_STARTUP_IN_PROGRESS,
        MSTATE_AGENT_ERROR_DOMAIN_FAILURE,
        MSTATE_AGENT_UNREACHABLE,
        MSTATE_ALREADY_USED,
        MSTATE_AVAILABLE,
        MSTATE_CONNECTED,
        MSTATE_CUSTOMIZING,
        MSTATE_DELETING,
        MSTATE_DISABLED,
        MSTATE_DISABLE_IN_PROGRESS,
        MSTATE_DISCONNECTED,
        MSTATE_ERROR,
        MSTATE_IN_PROGRESS,
        MSTATE_MAINTENANCE,
        MSTATE_PROVISIONED,
        MSTATE_PROVISIONING,
        MSTATE_PROVISIONING_ERROR,
        MSTATE_UNASSIGNED_USER_CONNECTED,
        MSTATE_UNASSIGNED_USER_DISCONNECTED,
        MSTATE_UNKNOWN,
        MSTATE_VALIDATING,
        MSTATE_WAITING_FOR_AGENT,
    ]
}

/// The machine states that the inventory is known to report, as it writes them.
pub fn known_machine_state_values() -> (list: Vec<&'static str>)
    ensures
        list@ == machine_state_values(),
{
    let list = vec![
        MSTATE_AGENT_CONFIG_ERROR,
        MSTATE_AGENT_DRAIN_MODE,
        MSTATE_AGENT_DRAIN_UNTIL_RESTART,
        MSTATE_AGENT_ERROR_DISABLED,
        MSTATE_AGENT_ERROR_INVALID_IP,
        MSTATE_AGENT_ERROR_NEEDS_REBOOT,
        MSTATE_AGENT_ERROR_PROTOCOL_FAILURE,
        MSTATE_AGENT_ERROR_STARTUP_IN_PROGRESS,
        MSTATE_AGENT_ERROR_DOMAIN_FAILURE,
        MSTATE_AGENT_UNREACHABLE,
        MSTATE_ALREADY_USED,
        MSTATE_AVAILABLE,
        MSTATE_CONNECTED,
        MSTATE_CUSTOMIZING,
        MSTATE_DELETING,
        MSTATE_DISABLED,
        MSTATE_DISABLE_IN_PROGRESS,
        MSTATE_DISCONNECTED,
        MSTATE_ERROR,
        MSTATE_IN_PROGRESS,
        MSTATE_MAINTENANCE,
        MSTATE_PROVISIONED,
        MSTATE_PROVISIONING,
        MSTATE_PROVISIONING_ERROR,
        MSTATE_UNASSIGNED_USER_CONNECTED,
        MSTATE_UNASSIGNED_USER_DISCONNECTED,
        MSTATE_UNKNOWN,
        MSTATE_VALIDATING,
        MSTATE_WAITING_FOR_AGENT,
    ];
    assert(list@ =~= machine_state_values());
    list
}

/// The labels under which the known machine states are counted.
pub open spec fn machine_state_labels() -> Seq<&'static str> {
    seq![
        LC_MSTATE_AGENT_CONFIG_ERROR,
        LC_MSTATE_AGENT_DRAIN_MODE,
        LC_MSTATE_AGENT_DRAIN_UNTIL_RESTART,
        LC_MSTATE_AGENT_ERROR_DISABLED,
        LC_MSTATE_AGENT_ERROR_INVALID_IP,
        LC_MSTATE_AGENT_ERROR_NEEDS_REBOOT,
        LC_MSTATE_AGENT_ERROR_PROTOCOL_FAILURE,
        LC_MSTATE_AGENT_ERROR_STARTUP_IN_PROGRESS,
        LC_MSTATE_AGENT_ERROR_DOMAIN_FAILURE,
        LC_MSTATE_AGENT_UNREACHABLE,
        LC_MSTATE_ALREADY_USED,
        LC_MSTATE_AVAILABLE,
        LC_MSTATE_CONNECTED,
        LC_MSTATE_CUSTOMIZING,
        LC_MSTATE_DELETING,
        LC_MSTATE_DISABLED,
        LC_MSTATE_DISABLE_IN_PROGRESS,
        LC_MSTATE_DISCONNECTED,
        LC_MSTATE_ERROR,
        LC_MSTATE_IN_PROGRESS,
        LC_MSTATE_MAINTENANCE,
        LC_MSTATE_PROVISIONED,
        LC_MSTATE_PROVISIONING,
        LC_MSTATE_PROVISIONING_ERROR,
        LC_MSTATE_UNASSIGNED_USER_CONNECTED,
        LC_MSTATE_UNASSIGNED_USER_DISCONNECTED,
        LC_MSTATE_UNKNOWN,
        LC_MSTATE_VALIDATING,
        LC_MSTATE_WAITING_FOR_AGENT,
    ]
}

/// The labels under which the known machine states are counted.
pub fn known_machine_state_labels() -> (list: Vec<&'static str>)
    ensures
        list@ == machine_state_labels(),
{
    let list = vec![
        LC_MSTATE_AGENT_CONFIG_ERROR,
        LC_MSTATE_AGENT_DRAIN_MODE,
        LC_MSTATE_AGENT_DRAIN_UNTIL_RESTART,
        LC_MSTATE_AGENT_ERROR_DISABLED,
        LC_MSTATE_AGENT_ERROR_INVALID_IP,
        LC_MSTATE_AGENT_ERROR_NEEDS_REBOOT,
        LC_MSTATE_AGENT_ERROR_PROTOCOL_FAILURE,
        LC_MSTATE_AGENT_ERROR_STARTUP_IN_PROGRESS,
        LC_MSTATE_AGENT_ERROR_DOMAIN_FAILURE,
        LC_MSTATE_AGENT_UNREACHABLE,
        LC_MSTATE_ALREADY_USED,
        LC_MSTATE_AVAILABLE,
        LC_MSTATE_CONNECTED,
        LC_MSTATE_CUSTOMIZING,
        LC_MSTATE_DELETING,
        LC_MSTATE_DISABLED,
        LC_MSTATE_DISABLE_IN_PROGRESS,
        LC_MSTATE_DISCONNECTED,
        LC_MSTATE_ERROR,
        LC_MSTATE_IN_PROGRESS,
        LC_MSTATE_MAINTENANCE,
        LC_MSTATE_PROVISIONED,
        LC_MSTATE_PROVISIONING,
        LC_MSTATE_PROVISIONING_ERROR,
        LC_MSTATE_UNASSIGNED_USER_CONNECTED,
        LC_MSTATE_UNASSIGNED_USER_DISCONNECTED,
        LC_MSTATE_UNKNOWN,
        LC_MSTATE_VALIDATING,
        LC_MSTATE_WAITING_FOR_AGENT,
    ];
    assert(list@ =~= machine_state_labels());
    list
}

/// The operating systems that the inventory is known to report, as it writes them.
pub open spec fn machine_os_values() -> Seq<&'static str> {
    seq![
        OS_LINUX_CENTOS,
        OS_LINUX_OTHER,
        OS_LINUX_RHEL,
        OS_LINUX_SERVER_OTHER,
        OS_LINUX_SUSE,
        OS_LINUX_UBUNTU,
        OS_UNKNOWN,
        OS_WINDOWS_10,
        OS_WINDOWS_11,
        OS_WINDOWS_7,
        OS_WINDOWS_8,
        OS_WINDOWS_SERVER_2003,
        OS_WINDOWS_SERVER_2008,
        OS_WINDOWS_SERVER_2008_R2,
        OS_WINDOWS_SERVER_2012,
        OS_WINDOWS_SERVER_2012_R2,
        OS_WINDOWS_SERVER_2016_OR_ABOVE,
        OS_WINDOWS_VISTA,
        OS_WINDOWS_XP,
    ]
}

/// The operating systems that the inventory is known to report, as it writes them.
pub fn known_machine_os_values() -> (list: Vec<&'static str>)
    ensures
        list@ == machine_os_values(),
{
    let list = vec![
        OS_LINUX_CENTOS,
        OS_LINUX_OTHER,
        OS_LINUX_RHEL,
        OS_LINUX_SERVER_OTHER,
        OS_LINUX_SUSE,
        OS_LINUX_UBUNTU,
        OS_UNKNOWN,
        OS_WINDOWS_10,
        OS_WINDOWS_11,
        OS_WINDOWS_7,
        OS_WINDOWS_8,
        OS_WINDOWS_SERVER_2003,
        OS_WINDOWS_SERVER_2008,
        OS_WINDOWS_SERVER_2008_R2,
        OS_WINDOWS_SERVER_2012,
        OS_WINDOWS_SERVER_2012_R2,
        OS_WINDOWS_SERVER_2016_OR_ABOVE,
        OS_WINDOWS_VISTA,
        OS_WINDOWS_XP,
    ];
    assert(list@ =~= machine_os_values());
    list
}

/// The labels under which the known operating systems are counted.
pub open spec fn machine_os_labels() -> Seq<&'static str> {
    seq![
        LC_OS_LINUX_CENTOS,
        LC_OS_LINUX_OTHER,
        LC_OS_LINUX_RHEL,
        LC_OS_LINUX_SERVER_OTHER,
        LC_OS_LINUX_SUSE,
        LC_OS_LINUX_UBUNTU,
        LC_OS_UNKNOWN,
        LC_OS_WINDOWS_10,
        LC_OS_WINDOWS_11,
        LC_OS_WINDOWS_7,
        LC_OS_WINDOWS_8,
        LC_OS_WINDOWS_SERVER_2003,
        LC_OS_WINDOWS_SERVER_2008,
        LC_OS_WINDOWS_SERVER_2008_R2,
        LC_OS_WINDOWS_SERVER_2012,
        LC_OS_WINDOWS_SERVER_2012_R2,
        LC_OS_WINDOWS_SERVER_2016_OR_ABOVE,
        LC_OS_WINDOWS_VISTA,
        LC_OS_WINDOWS_XP,
    ]
}

/// The labels under which the known operating systems are counted.
pub fn known_machine_os_labels() -> (list: Vec<&'static str>)
    ensures
        list@ == machine_os_labels(),
{
    let list = vec![
        LC_OS_LINUX_CENTOS,
        LC_OS_LINUX_OTHER,
        LC_OS_LINUX_RHEL,
        LC_OS_LINUX_SERVER_OTHER,
        LC_OS_LINUX_SUSE,
        LC_OS_LINUX_UBUNTU,
        LC_OS_UNKNOWN,
        LC_OS_WINDOWS_10,
        LC_OS_WINDOWS_11,
        LC_OS_WINDOWS_7,
        LC_OS_WINDOWS_8,
        LC_OS_WINDOWS_SERVER_2003,
        LC_OS_WINDOWS_SERVER_2008,
        LC_OS_WINDOWS_SERVER_2008_R2,
        LC_OS_WINDOWS_SERVER_2012,
        LC_OS_WINDOWS_SERVER_2012_R2,
        LC_OS_WINDOWS_SERVER_2016_OR_ABOVE,
        LC_OS_WINDOWS_VISTA,
        LC_OS_WINDOWS_XP,
    ];
    assert(list@ =~= machine_os_labels());
    list
}

/// The architectures that the inventory is known to report, as it writes them.
pub open spec fn machine_arch_values() -> Seq<&'static str> {
    seq![
        ARCH_BIT_64,
        ARCH_BIT_32,
        ARCH_UNKNOWN,
    ]
}

/// The architectures that the inventory is known to report, as it writes them.
pub fn known_machine_arch_values() -> (list: Vec<&'static str>)
    ensures
        list@ == machine_arch_values(),
{
    let list = vec![
        ARCH_BIT_64,
        ARCH_BIT_32,
        ARCH_UNKNOWN,
    ];
    assert(list@ =~= machine_arch_values());
    list
}

/// The labels under which the known architectures are counted.
pub open spec fn machine_arch_labels() -> Seq<&'static str> {
    seq![
        LC_ARCH_BIT_64,
        LC_ARCH_BIT_32,
        LC_ARCH_UNKNOWN,
    ]
}

/// The labels under which the known architectures are counted.
pub fn known_machine_arch_labels() -> (list: Vec<&'static str>)
    ensures
        list@ == machine_arch_labels(),
{
    let list = vec![
        LC_ARCH_BIT_64,
        LC_ARCH_BIT_32,
        LC_ARCH_UNKNOWN,
    ];
    assert(list@ =~= machine_arch_labels());
    list
}

/// The text that `generate_default_user_agent` builds.
pub open spec fn default_user_agent() -> Seq<char> {
    NAME@ + "/"@ + VERSION@ + " ("@ + REPO_URL@ + ")"@
}

/// The user agent that the exporter names itself by: name, version and home.
pub fn generate_default_user_agent() -> (agent: String)
    ensures
        agent@ == default_user_agent(),
{
    let mut agent = String::from_str(NAME);
    agent.append("/");
    agent.append(VERSION);
    agent.append(" (");
    agent.append(REPO_URL);
    agent.append(")");
    agent
}

} // verus!
