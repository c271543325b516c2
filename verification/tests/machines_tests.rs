use horizon_exporter::configuration::{Configuration, HorizonAPIConfig};
use horizon_exporter::data::{DesktopPool, Machine};
use horizon_exporter::machines::{
    classify_machine, flush_machine_arch_map, flush_machine_os_map, flush_machine_state_map,
    initialise_machine_arch_map, initialise_machine_os_map, initialise_machine_state_map,
    machine_metric_collect, machine_metric_prepare, machine_metric_publish,
    machine_metric_update, prometheus_machine_arch, prometheus_machine_os,
    prometheus_machine_states, set_machine_arch_metrics, set_machine_os_metrics,
    set_machine_state_metrics, MachineMetrics,
};
use horizon_exporter::matrix::{CounterMatrix, Sample};
use horizon_exporter::report::{Anomaly, Dimension};

fn config(only: &[&str], skip: &[&str]) -> Configuration {
    Configuration {
        horizon_api: HorizonAPIConfig {
            url: "https://horizon.example".to_string(),
            user: "exporter".to_string(),
            domain: "EXAMPLE".to_string(),
            password: "secret".to_string(),
            insecure_ssl: None,
            ca_file: None,
            timeout: None,
            only_pools: None,
            skip_pools: None,
            pool_uuid_map: None,
            only_pools_set: only.iter().map(|s| s.to_string()).collect(),
            skip_pools_set: skip.iter().map(|s| s.to_string()).collect(),
        },
    }
}

fn pool(id: &str) -> DesktopPool {
    DesktopPool { id: id.to_string(), enabled: true }
}

fn machine(id: &str, pool: &str, state: &str) -> Machine {
    Machine {
        id: id.to_string(),
        desktop_pool_id: pool.to_string(),
        operating_system: Some("WINDOWS_10".to_string()),
        operating_system_architecture: Some("BIT_64".to_string()),
        state: state.to_string(),
        mtype: "MANAGED_VIRTUAL_MACHINE".to_string(),
        user_ids: None,
    }
}

fn count(samples: &[Sample], pool: &str, category: &str) -> Option<i64> {
    samples.iter().find(|s| s.pool == pool && s.category == category).map(|s| s.count)
}

#[test]
fn machine_flush_functions_zero_every_count() {
    let mut m = CounterMatrix::new();
    m.increment("p1", "available");
    flush_machine_state_map(&mut m);
    assert_eq!(m.get("p1", "available"), Some(0));
    m.increment("p1", "available");
    flush_machine_os_map(&mut m);
    assert_eq!(m.get("p1", "available"), Some(0));
    m.increment("p1", "available");
    flush_machine_arch_map(&mut m);
    assert_eq!(m.get("p1", "available"), Some(0));
}

#[test]
fn initialise_machine_state_map_seeds_twenty_nine_states() {
    let mut m = CounterMatrix::new();
    initialise_machine_state_map(&mut m, "p1");
    assert_eq!(m.samples(&None).len(), 29);
    assert_eq!(m.get("p1", "available"), Some(0));
    assert_eq!(m.get("p1", "agent_error_startup_in_progress"), Some(0));
    assert_eq!(m.get("p1", "waiting_for_agent"), Some(0));
    assert_eq!(m.get("p1", "AVAILABLE"), None);
}

#[test]
fn initialise_machine_os_map_seeds_nineteen_systems() {
    let mut m = CounterMatrix::new();
    initialise_machine_os_map(&mut m, "p1");
    assert_eq!(m.samples(&None).len(), 19);
    assert_eq!(m.get("p1", "windows_10"), Some(0));
    assert_eq!(m.get("p1", "linux_ubuntu"), Some(0));
    assert_eq!(m.get("p1", "unknown"), Some(0));
}

#[test]
fn initialise_machine_arch_map_seeds_three_architectures() {
    let mut m = CounterMatrix::new();
    initialise_machine_arch_map(&mut m, "p1");
    assert_eq!(m.samples(&None).len(), 3);
    assert_eq!(m.get("p1", "bit_64"), Some(0));
    assert_eq!(m.get("p1", "bit_32"), Some(0));
    assert_eq!(m.get("p1", "unknown"), Some(0));
}

#[test]
fn machine_state_is_counted_in_lower_case() {
    let mut m = CounterMatrix::new();
    assert!(set_machine_state_metrics(&mut m, &machine("m1", "p1", "AVAILABLE")));
    assert!(set_machine_state_metrics(&mut m, &machine("m2", "p1", "AVAILABLE")));
    assert!(set_machine_state_metrics(&mut m, &machine("m3", "p1", "PROVISIONING_ERROR")));
    assert_eq!(m.get("p1", "available"), Some(2));
    assert_eq!(m.get("p1", "provisioning_error"), Some(1));
}

#[test]
fn machine_with_weird_state_is_counted_and_warned_of() {
    let cfg = config(&[], &[]);
    let mut state = MachineMetrics::new();
    let report = machine_metric_update(
        &mut state,
        &cfg,
        &vec![pool("P")],
        Ok(vec![machine("m1", "P", "WEIRD_STATE")]),
    )
    .unwrap();
    assert_eq!(count(&report.samples.states, "P", "weird_state"), Some(1));
    assert_eq!(report.samples.states.len(), 30);
    assert_eq!(report.warnings.len(), 1);
    match &report.warnings[0] {
        Anomaly::UnknownValue { dimension, entity, value } => {
            assert_eq!(*dimension, Dimension::MachineState);
            assert_eq!(entity, "m1");
            assert_eq!(value, "WEIRD_STATE");
        }
        _ => panic!("another warning"),
    }
    assert_eq!(
        report.warnings[0].message(),
        "skipping unknown state WEIRD_STATE for machine id m1"
    );
}

#[test]
fn operating_system_is_counted_where_there_is_one() {
    let mut m = CounterMatrix::new();
    let mut one = machine("m1", "p1", "AVAILABLE");
    assert!(set_machine_os_metrics(&mut m, &one));
    one.operating_system = Some("PLAN_9".to_string());
    assert!(!set_machine_os_metrics(&mut m, &one));
    one.operating_system = None;
    one.desktop_pool_id = "p2".to_string();
    assert!(set_machine_os_metrics(&mut m, &one));
    assert_eq!(m.get("p1", "windows_10"), Some(1));
    assert_eq!(m.get("p1", "plan_9"), Some(1));
    assert!(!m.contains_pool("p2"));
}

#[test]
fn architecture_is_counted_where_there_is_one() {
    let mut m = CounterMatrix::new();
    let mut one = machine("m1", "p1", "AVAILABLE");
    assert!(set_machine_arch_metrics(&mut m, &one));
    one.operating_system_architecture = Some("BIT_128".to_string());
    assert!(!set_machine_arch_metrics(&mut m, &one));
    one.operating_system_architecture = None;
    assert!(set_machine_arch_metrics(&mut m, &one));
    assert_eq!(m.get("p1", "bit_64"), Some(1));
    assert_eq!(m.get("p1", "bit_128"), Some(1));
    assert_eq!(m.samples(&None).len(), 2);
}

#[test]
fn machine_prometheus_functions_hand_out_every_bucket() {
    let mut cfg = config(&[], &[]);
    cfg.horizon_api.pool_uuid_map = Some(vec![("p1".to_string(), "Office".to_string())]);
    let mut m = CounterMatrix::new();
    m.increment("p1", "available");
    for out in [
        prometheus_machine_states(&m, &cfg.horizon_api),
        prometheus_machine_os(&m, &cfg.horizon_api),
        prometheus_machine_arch(&m, &cfg.horizon_api),
    ] {
        assert_eq!(out.len(), 1);
        assert_eq!(out[0].pool, "p1");
        assert_eq!(out[0].label, "Office");
        assert_eq!(out[0].category, "available");
        assert_eq!(out[0].count, 1);
    }
}

#[test]
fn machines_of_skipped_pool_are_not_counted() {
    let cfg = config(&[], &["p2"]);
    let mut state = MachineMetrics::new();
    let report = machine_metric_update(
        &mut state,
        &cfg,
        &vec![pool("p1"), pool("p2")],
        Ok(vec![machine("m1", "p1", "AVAILABLE"), machine("m2", "p2", "STRANGE")]),
    )
    .unwrap();
    assert_eq!(count(&report.samples.states, "p1", "available"), Some(1));
    assert_eq!(count(&report.samples.os, "p1", "windows_10"), Some(1));
    assert_eq!(count(&report.samples.arch, "p1", "bit_64"), Some(1));
    assert!(report.samples.states.iter().all(|s| s.pool != "p2"));
    assert!(report.samples.os.iter().all(|s| s.pool != "p2"));
    assert!(report.samples.arch.iter().all(|s| s.pool != "p2"));
    assert!(report.warnings.is_empty());
}

#[test]
fn machines_outside_the_wanted_pools_are_not_counted() {
    let cfg = config(&["p1"], &[]);
    let mut state = MachineMetrics::new();
    let report = machine_metric_update(
        &mut state,
        &cfg,
        &vec![pool("p1"), pool("p2")],
        Ok(vec![machine("m1", "p2", "AVAILABLE"), machine("m2", "p3", "AVAILABLE")]),
    )
    .unwrap();
    assert_eq!(report.samples.states.len(), 29);
    assert!(report.samples.states.iter().all(|s| s.pool == "p1" && s.count == 0));
}

#[test]
fn failed_machine_fetch_leaves_zero_counts() {
    let cfg = config(&[], &[]);
    let pools = vec![pool("p1")];
    let mut state = MachineMetrics::new();
    machine_metric_update(
        &mut state,
        &cfg,
        &pools,
        Ok(vec![machine("m1", "p1", "AVAILABLE"), machine("m2", "p1", "ODD")]),
    )
    .unwrap();
    assert_eq!(state.mstates.get("p1", "available"), Some(1));
    let failed = machine_metric_update(&mut state, &cfg, &pools, Err("refused".to_string()));
    assert_eq!(failed.err(), Some("refused".to_string()));
    let samples = machine_metric_publish(&state, &cfg);
    assert_eq!(samples.states.len(), 30);
    assert!(samples.states.iter().all(|s| s.count == 0));
    assert!(samples.os.iter().all(|s| s.count == 0));
    assert!(samples.arch.iter().all(|s| s.count == 0));
    assert_eq!(count(&samples.states, "p1", "odd"), Some(0));
}

#[test]
fn machine_warnings_come_in_order() {
    let cfg = config(&[], &[]);
    let mut one = machine("m1", "p1", "ODD");
    one.operating_system = Some("PLAN_9".to_string());
    one.operating_system_architecture = Some("BIT_128".to_string());
    let two = machine("m2", "p1", "AVAILABLE");
    let mut three = machine("m3", "p1", "EVEN");
    three.operating_system = None;
    three.operating_system_architecture = None;
    let mut state = MachineMetrics::new();
    machine_metric_prepare(&mut state, &cfg, &vec![pool("p1")]);
    let warnings = machine_metric_collect(&mut state, &cfg, &vec![one, two, three]);
    let texts: Vec<String> = warnings.iter().map(|w| w.message()).collect();
    assert_eq!(
        texts,
        vec![
            "skipping unknown state ODD for machine id m1",
            "skipping unknown operating system PLAN_9 for machine id m1",
            "skipping unknown architecture BIT_128 for machine id m1",
            "skipping unknown state EVEN for machine id m3",
        ]
    );
    assert_eq!(state.mstates.get("p1", "odd"), Some(1));
    assert_eq!(state.mstates.get("p1", "even"), Some(1));
    assert_eq!(state.mstates.get("p1", "available"), Some(1));
    assert_eq!(state.os_map.get("p1", "windows_10"), Some(1));
}

#[test]
fn classify_machine_counts_one_machine() {
    let cfg = config(&[], &[]);
    let mut state = MachineMetrics::new();
    let mut warnings = Vec::new();
    classify_machine(&mut state, &cfg, &machine("m1", "p1", "MAINTENANCE"), &mut warnings);
    assert!(warnings.is_empty());
    assert_eq!(state.mstates.get("p1", "maintenance"), Some(1));
    assert_eq!(state.os_map.get("p1", "windows_10"), Some(1));
    assert_eq!(state.arch_map.get("p1", "bit_64"), Some(1));
}
