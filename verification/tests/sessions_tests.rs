use horizon_exporter::configuration::{Configuration, HorizonAPIConfig};
use horizon_exporter::data::{DesktopPool, Session};
use horizon_exporter::matrix::{CounterMatrix, Sample};
use horizon_exporter::report::{Anomaly, Dimension};
use horizon_exporter::sessions::{
    classify_session, flush_agent_version_map, flush_session_map, flush_session_protocol_map,
    flush_session_type_map, initialise_session_map, initialise_session_protocol_map,
    initialise_session_type_map, prometheus_agent_versions, prometheus_pool_session_protocols,
    prometheus_pool_session_types, prometheus_pool_sessions, session_metric_collect,
    session_metric_prepare, session_metric_publish, session_metric_update,
    set_agent_version_metrics, set_desktop_pool_session_metrics,
    set_desktop_pool_session_protocol_metrics, set_desktop_pool_session_type_metrics,
    SessionMetrics,
};

fn config(only: &[&str], skip: &[&str]) -> Configuration {
    Configuration {
        horizon_api: HorizonAPIConfig {
            url: "https://horizon.example".to_string(),
            user: "exporter".to_string(),
            domain: "EXAMPLE".to_string(),
            password: "secret".to_string(),
            insecure_ssl: None,
            ca_file: None,
            timeout: None,
            only_pools: None,
            skip_pools: None,
            pool_uuid_map: None,
            only_pools_set: only.iter().map(|s| s.to_string()).collect(),
            skip_pools_set: skip.iter().map(|s| s.to_string()).collect(),
        },
    }
}

fn pool(id: &str) -> DesktopPool {
    DesktopPool { id: id.to_string(), enabled: true }
}

fn session(id: &str, pool: Option<&str>, state: &str) -> Session {
    Session {
        id: id.to_string(),
        user_id: "user".to_string(),
        desktop_pool_id: pool.map(|p| p.to_string()),
        agent_version: "8.4.0".to_string(),
        session_type: "DESKTOP".to_string(),
        session_state: state.to_string(),
        session_protocol: Some("BLAST".to_string()),
    }
}

fn count(samples: &[Sample], pool: &str, category: &str) -> Option<i64> {
    samples.iter().find(|s| s.pool == pool && s.category == category).map(|s| s.count)
}

#[test]
fn flush_functions_zero_every_count() {
    let mut m = CounterMatrix::new();
    m.increment("p1", "connected");
    flush_session_map(&mut m);
    assert_eq!(m.get("p1", "connected"), Some(0));
    m.increment("p1", "connected");
    flush_agent_version_map(&mut m);
    assert_eq!(m.get("p1", "connected"), Some(0));
    m.increment("p1", "connected");
    flush_session_protocol_map(&mut m);
    assert_eq!(m.get("p1", "connected"), Some(0));
    m.increment("p1", "connected");
    flush_session_type_map(&mut m);
    assert_eq!(m.get("p1", "connected"), Some(0));
}

#[test]
fn initialise_session_map_seeds_the_three_states() {
    let mut m = CounterMatrix::new();
    initialise_session_map(&mut m, "p1");
    assert_eq!(m.get("p1", "connected"), Some(0));
    assert_eq!(m.get("p1", "disconnected"), Some(0));
    assert_eq!(m.get("p1", "pending"), Some(0));
    assert_eq!(m.samples(&None).len(), 3);
}

#[test]
fn initialise_session_protocol_map_seeds_the_five_protocols() {
    let mut m = CounterMatrix::new();
    initialise_session_protocol_map(&mut m, "p1");
    for label in ["pcoip", "rdp", "blast", "console", "unknown"] {
        assert_eq!(m.get("p1", label), Some(0));
    }
    assert_eq!(m.samples(&None).len(), 5);
}

#[test]
fn initialise_session_type_map_seeds_the_two_types() {
    let mut m = CounterMatrix::new();
    initialise_session_type_map(&mut m, "p1");
    assert_eq!(m.get("p1", "application"), Some(0));
    assert_eq!(m.get("p1", "desktop"), Some(0));
    assert_eq!(m.samples(&None).len(), 2);
}

#[test]
fn seeding_a_pool_again_does_not_reset_counts() {
    let mut m = CounterMatrix::new();
    initialise_session_map(&mut m, "p1");
    let s = session("s1", Some("p1"), "CONNECTED");
    assert!(set_desktop_pool_session_metrics(&mut m, &s, "p1"));
    initialise_session_map(&mut m, "p1");
    assert_eq!(m.get("p1", "connected"), Some(1));
    assert_eq!(m.get("p1", "pending"), Some(0));
}

#[test]
fn known_state_is_counted_in_lower_case() {
    let mut m = CounterMatrix::new();
    let s = session("s1", Some("p1"), "DISCONNECTED");
    assert!(set_desktop_pool_session_metrics(&mut m, &s, "p1"));
    assert_eq!(m.get("p1", "disconnected"), Some(1));
    assert_eq!(m.get("p1", "DISCONNECTED"), None);
}

#[test]
fn unknown_state_is_counted_in_lower_case() {
    let mut m = CounterMatrix::new();
    initialise_session_map(&mut m, "p1");
    let s = session("s1", Some("p1"), "Weird_State");
    assert!(!set_desktop_pool_session_metrics(&mut m, &s, "p1"));
    assert_eq!(m.get("p1", "weird_state"), Some(1));
    assert_eq!(m.get("p1", "connected"), Some(0));
}

#[test]
fn state_in_lower_case_is_not_a_known_value() {
    let mut m = CounterMatrix::new();
    let s = session("s1", Some("p1"), "connected");
    assert!(!set_desktop_pool_session_metrics(&mut m, &s, "p1"));
    assert_eq!(m.get("p1", "connected"), Some(1));
}

#[test]
fn protocol_is_counted_where_there_is_one() {
    let mut m = CounterMatrix::new();
    let mut s = session("s1", Some("p1"), "CONNECTED");
    assert!(set_desktop_pool_session_protocol_metrics(&mut m, &s, "p1"));
    assert_eq!(m.get("p1", "blast"), Some(1));
    s.session_protocol = Some("SPICE".to_string());
    assert!(!set_desktop_pool_session_protocol_metrics(&mut m, &s, "p1"));
    assert_eq!(m.get("p1", "spice"), Some(1));
    s.session_protocol = None;
    assert!(set_desktop_pool_session_protocol_metrics(&mut m, &s, "p2"));
    assert!(!m.contains_pool("p2"));
    assert_eq!(m.samples(&None).len(), 2);
}

#[test]
fn type_is_counted_in_lower_case() {
    let mut m = CounterMatrix::new();
    let mut s = session("s1", Some("p1"), "CONNECTED");
    assert!(set_desktop_pool_session_type_metrics(&mut m, &s, "p1"));
    s.session_type = "APPLICATION".to_string();
    assert!(set_desktop_pool_session_type_metrics(&mut m, &s, "p1"));
    s.session_type = "Kiosk".to_string();
    assert!(!set_desktop_pool_session_type_metrics(&mut m, &s, "p1"));
    assert_eq!(m.get("p1", "desktop"), Some(1));
    assert_eq!(m.get("p1", "application"), Some(1));
    assert_eq!(m.get("p1", "kiosk"), Some(1));
}

#[test]
fn agent_version_is_counted_as_it_stands() {
    let mut m = CounterMatrix::new();
    let mut s = session("s1", Some("p1"), "CONNECTED");
    s.agent_version = "8.4.0-RC".to_string();
    set_agent_version_metrics(&mut m, &s, "p1");
    set_agent_version_metrics(&mut m, &s, "p1");
    assert_eq!(m.get("p1", "8.4.0-RC"), Some(2));
    assert_eq!(m.get("p1", "8.4.0-rc"), None);
}

#[test]
fn prometheus_functions_hand_out_every_bucket() {
    let mut cfg = config(&[], &[]);
    cfg.horizon_api.pool_uuid_map = Some(vec![("p1".to_string(), "Office".to_string())]);
    let mut m = CounterMatrix::new();
    m.increment("p1", "connected");
    m.increment("p2", "pending");
    for out in [
        prometheus_pool_sessions(&m, &cfg.horizon_api),
        prometheus_agent_versions(&m, &cfg.horizon_api),
        prometheus_pool_session_protocols(&m, &cfg.horizon_api),
        prometheus_pool_session_types(&m, &cfg.horizon_api),
    ] {
        assert_eq!(out.len(), 2);
        assert_eq!(count(&out, "p1", "connected"), Some(1));
        assert_eq!(count(&out, "p2", "pending"), Some(1));
        assert_eq!(out.iter().find(|s| s.pool == "p1").unwrap().label, "Office");
        assert_eq!(out.iter().find(|s| s.pool == "p2").unwrap().label, "p2");
    }
}

#[test]
fn skipped_pool_is_neither_seeded_nor_counted() {
    let cfg = config(&[], &["p2"]);
    let pools = vec![pool("p1"), pool("p2")];
    let sessions = vec![
        session("s1", Some("p1"), "CONNECTED"),
        session("s2", Some("p2"), "PENDING"),
    ];
    let mut state = SessionMetrics::new();
    let report = session_metric_update(&mut state, &cfg, &pools, Ok(sessions)).unwrap();
    let out = &report.samples.sessions;
    assert_eq!(count(out, "p1", "connected"), Some(1));
    assert_eq!(count(out, "p1", "disconnected"), Some(0));
    assert_eq!(count(out, "p1", "pending"), Some(0));
    assert!(out.iter().all(|s| s.pool != "p2"));
    assert!(out.iter().all(|s| s.category != "pending" || s.count == 0));
    assert_eq!(out.len(), 3);
    assert!(!state.pool_sessions.contains_pool("p2"));
    assert!(!state.agent_versions.contains_pool("p2"));
    assert!(!state.pool_protocols.contains_pool("p2"));
    assert!(!state.types.contains_pool("p2"));
    assert!(report.warnings.is_empty());
}

#[test]
fn pool_outside_the_wanted_ones_is_not_counted() {
    let cfg = config(&["p1"], &[]);
    let pools = vec![pool("p1"), pool("p2")];
    let sessions = vec![
        session("s1", Some("p1"), "CONNECTED"),
        session("s2", Some("p2"), "PENDING"),
        session("s3", Some("p3"), "CONNECTED"),
    ];
    let mut state = SessionMetrics::new();
    let report = session_metric_update(&mut state, &cfg, &pools, Ok(sessions)).unwrap();
    assert_eq!(report.samples.sessions.len(), 3);
    assert_eq!(count(&report.samples.sessions, "p1", "connected"), Some(1));
    assert!(!state.pool_sessions.contains_pool("p2"));
    assert!(!state.pool_sessions.contains_pool("p3"));
    assert_eq!(report.samples.agent_versions.len(), 1);
}

#[test]
fn skip_wins_over_only() {
    let cfg = config(&["p1"], &["p1"]);
    let pools = vec![pool("p1")];
    let sessions = vec![session("s1", Some("p1"), "CONNECTED")];
    let mut state = SessionMetrics::new();
    let report = session_metric_update(&mut state, &cfg, &pools, Ok(sessions)).unwrap();
    assert!(report.samples.sessions.is_empty());
    assert!(report.samples.agent_versions.is_empty());
    assert!(report.samples.protocols.is_empty());
    assert!(report.samples.types.is_empty());
}

#[test]
fn session_of_unlisted_pool_is_counted_where_all_pools_are_in_scope() {
    let cfg = config(&[], &[]);
    let sessions = vec![session("s1", Some("p7"), "CONNECTED")];
    let mut state = SessionMetrics::new();
    let report = session_metric_update(&mut state, &cfg, &Vec::new(), Ok(sessions)).unwrap();
    assert_eq!(report.samples.sessions.len(), 1);
    assert_eq!(count(&report.samples.sessions, "p7", "connected"), Some(1));
    assert_eq!(count(&report.samples.agent_versions, "p7", "8.4.0"), Some(1));
    assert_eq!(count(&report.samples.protocols, "p7", "blast"), Some(1));
    assert_eq!(count(&report.samples.types, "p7", "desktop"), Some(1));
}

#[test]
fn session_without_pool_earns_a_warning_and_is_not_counted() {
    let cfg = config(&[], &[]);
    let sessions = vec![session("s1", None, "CONNECTED")];
    let mut state = SessionMetrics::new();
    let report = session_metric_update(&mut state, &cfg, &vec![pool("p1")], Ok(sessions)).unwrap();
    assert_eq!(report.warnings.len(), 1);
    match &report.warnings[0] {
        Anomaly::MissingPool { session } => assert_eq!(session, "s1"),
        _ => panic!("another warning"),
    }
    assert_eq!(report.warnings[0].message(), "BUG: session id s1 is not a desktop session");
    assert!(report.samples.sessions.iter().all(|s| s.count == 0));
    assert!(report.samples.agent_versions.is_empty());
}

#[test]
fn unknown_values_earn_warnings_in_order() {
    let cfg = config(&[], &[]);
    let mut s = session("s1", Some("p1"), "HALF_OPEN");
    s.session_protocol = Some("SPICE".to_string());
    s.session_type = "KIOSK".to_string();
    let mut state = SessionMetrics::new();
    let report = session_metric_update(&mut state, &cfg, &vec![pool("p1")], Ok(vec![s])).unwrap();
    assert_eq!(report.warnings.len(), 3);
    let kinds: Vec<(Dimension, String, String)> = report
        .warnings
        .iter()
        .map(|w| match w {
            Anomaly::UnknownValue { dimension, entity, value } => {
                (*dimension, entity.clone(), value.clone())
            }
            _ => panic!("another warning"),
        })
        .collect();
    assert_eq!(kinds[0], (Dimension::SessionState, "s1".to_string(), "HALF_OPEN".to_string()));
    assert_eq!(kinds[1], (Dimension::SessionProtocol, "s1".to_string(), "SPICE".to_string()));
    assert_eq!(kinds[2], (Dimension::SessionType, "s1".to_string(), "KIOSK".to_string()));
    assert_eq!(count(&report.samples.sessions, "p1", "half_open"), Some(1));
    assert_eq!(count(&report.samples.protocols, "p1", "spice"), Some(1));
    assert_eq!(count(&report.samples.types, "p1", "kiosk"), Some(1));
    assert_eq!(report.samples.sessions.len(), 4);
    assert_eq!(report.samples.protocols.len(), 6);
    assert_eq!(report.samples.types.len(), 3);
}

#[test]
fn out_of_scope_session_earns_no_warning() {
    let cfg = config(&[], &["p1"]);
    let s = session("s1", Some("p1"), "HALF_OPEN");
    let mut state = SessionMetrics::new();
    let report = session_metric_update(&mut state, &cfg, &Vec::new(), Ok(vec![s])).unwrap();
    assert!(report.warnings.is_empty());
    assert!(report.samples.sessions.is_empty());
}

#[test]
fn failed_fetch_leaves_zero_counts() {
    let cfg = config(&[], &[]);
    let pools = vec![pool("p1")];
    let mut state = SessionMetrics::new();
    let sessions = vec![
        session("s1", Some("p1"), "CONNECTED"),
        session("s2", Some("p1"), "CONNECTED"),
        session("s3", Some("p1"), "STRANGE"),
    ];
    session_metric_update(&mut state, &cfg, &pools, Ok(sessions)).unwrap();
    assert_eq!(state.pool_sessions.get("p1", "connected"), Some(2));
    let failed = session_metric_update(&mut state, &cfg, &pools, Err("timeout".to_string()));
    assert_eq!(failed.err(), Some("timeout".to_string()));
    let samples = session_metric_publish(&state, &cfg);
    assert_eq!(samples.sessions.len(), 4);
    assert!(samples.sessions.iter().all(|s| s.count == 0));
    assert!(samples.agent_versions.iter().all(|s| s.count == 0));
    assert!(samples.protocols.iter().all(|s| s.count == 0));
    assert!(samples.types.iter().all(|s| s.count == 0));
    assert_eq!(count(&samples.sessions, "p1", "strange"), Some(0));
    assert_eq!(count(&samples.agent_versions, "p1", "8.4.0"), Some(0));
}

#[test]
fn counts_do_not_carry_over_to_the_next_reconciliation() {
    let cfg = config(&[], &[]);
    let pools = vec![pool("p1")];
    let mut state = SessionMetrics::new();
    session_metric_update(
        &mut state,
        &cfg,
        &pools,
        Ok(vec![session("s1", Some("p1"), "CONNECTED"), session("s2", Some("p1"), "CONNECTED")]),
    )
    .unwrap();
    let report = session_metric_update(
        &mut state,
        &cfg,
        &pools,
        Ok(vec![session("s3", Some("p1"), "PENDING")]),
    )
    .unwrap();
    assert_eq!(count(&report.samples.sessions, "p1", "connected"), Some(0));
    assert_eq!(count(&report.samples.sessions, "p1", "pending"), Some(1));
}

#[test]
fn pool_that_left_the_list_keeps_its_series() {
    let cfg = config(&[], &[]);
    let mut state = SessionMetrics::new();
    session_metric_update(&mut state, &cfg, &vec![pool("p1"), pool("p2")], Ok(Vec::new())).unwrap();
    let report = session_metric_update(&mut state, &cfg, &vec![pool("p1")], Ok(Vec::new())).unwrap();
    assert_eq!(count(&report.samples.sessions, "p2", "connected"), Some(0));
    assert_eq!(report.samples.sessions.len(), 6);
}

#[test]
fn prepare_then_collect_is_update() {
    let cfg = config(&[], &["p2"]);
    let pools = vec![pool("p1"), pool("p2")];
    let mut state = SessionMetrics::new();
    state.pool_sessions.increment("p9", "connected");
    session_metric_prepare(&mut state, &cfg, &pools);
    assert_eq!(state.pool_sessions.get("p9", "connected"), Some(0));
    assert_eq!(state.pool_sessions.get("p1", "connected"), Some(0));
    assert!(!state.pool_sessions.contains_pool("p2"));
    assert!(!state.agent_versions.contains_pool("p1"));
    let warnings = session_metric_collect(
        &mut state,
        &cfg,
        &vec![session("s1", Some("p1"), "CONNECTED"), session("s2", None, "CONNECTED")],
    );
    assert_eq!(warnings.len(), 1);
    assert_eq!(state.pool_sessions.get("p1", "connected"), Some(1));
    assert_eq!(state.agent_versions.get("p1", "8.4.0"), Some(1));
}

#[test]
fn classify_session_counts_one_session() {
    let cfg = config(&[], &[]);
    let mut state = SessionMetrics::new();
    let mut warnings = Vec::new();
    classify_session(&mut state, &cfg, &session("s1", Some("p1"), "PENDING"), &mut warnings);
    assert!(warnings.is_empty());
    assert_eq!(state.pool_sessions.get("p1", "pending"), Some(1));
    assert_eq!(state.types.get("p1", "desktop"), Some(1));
    assert_eq!(state.pool_protocols.get("p1", "blast"), Some(1));
    assert_eq!(state.agent_versions.get("p1", "8.4.0"), Some(1));
}
