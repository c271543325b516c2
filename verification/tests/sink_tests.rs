use horizon_exporter::configuration::{Configuration, HorizonAPIConfig};
use horizon_exporter::data::{DesktopPool, LoginResponse, Machine, Session};
use horizon_exporter::exporter::{Action, Event, Exporter};
use horizon_exporter::matrix::Sample;
use horizon_exporter::report::Dimension;
use horizon_exporter::sink::{dimension_family, metric_schema, publish_samples, register_metrics, MetricSink};

fn config() -> Configuration {
    Configuration {
        horizon_api: HorizonAPIConfig {
            url: "https://horizon.example".to_string(),
            user: "exporter".to_string(),
            domain: "EXAMPLE".to_string(),
            password: "secret".to_string(),
            insecure_ssl: None,
            ca_file: None,
            timeout: None,
            only_pools: None,
            skip_pools: None,
            pool_uuid_map: Some(vec![("p1".to_string(), "Office".to_string())]),
            only_pools_set: Vec::new(),
            skip_pools_set: Vec::new(),
        },
    }
}

fn sample(label: &str, category: &str, count: i64) -> Sample {
    Sample {
        pool: label.to_string(),
        label: label.to_string(),
        category: category.to_string(),
        count,
    }
}

#[test]
fn schemas_are_as_documented() {
    let expected = [
        (Dimension::SessionState, "horizon_sessions", "Horizon sessions", "state"),
        (Dimension::SessionProtocol, "horizon_session_protocols", "Horizon session protocols", "protocol"),
        (Dimension::SessionType, "horizon_session_types", "Horizon session type", "type"),
        (Dimension::AgentVersion, "horizon_agent_version_info", "Version of horizon agent", "version"),
        (Dimension::MachineState, "horizon_machine_states", "State of horizon virtual machine", "state"),
        (Dimension::MachineOs, "horizon_machine_os_info", "Operating system on virtual machines", "os"),
        (
            Dimension::MachineArch,
            "horizon_machine_os_arch_info",
            "Architecture of operating system on virtual machine",
            "arch",
        ),
    ];
    for (dimension, name, help, label) in expected {
        let schema = metric_schema(dimension);
        assert_eq!(schema.name, name);
        assert_eq!(schema.help, help);
        assert_eq!(schema.labels, vec!["pool", label]);
    }
}

#[test]
fn sink_is_made_and_registered_once() {
    let mut sink = MetricSink::new().unwrap();
    assert!(register_metrics(&mut sink));
    assert!(!register_metrics(&mut sink));
}

#[test]
fn empty_sink_renders_nothing() {
    let mut sink = MetricSink::new().unwrap();
    assert!(register_metrics(&mut sink));
    let (text, done) = sink.render();
    assert!(done);
    assert_eq!(text, "");
}

#[test]
fn samples_show_in_the_rendered_text() {
    let mut sink = MetricSink::new().unwrap();
    assert!(register_metrics(&mut sink));
    assert!(publish_samples(
        &mut sink.sessions,
        &vec![sample("p1", "connected", 3), sample("p1", "pending", 0)]
    ));
    let (text, done) = sink.render();
    assert!(done);
    assert!(text.contains("# HELP horizon_sessions Horizon sessions"));
    assert!(text.contains("# TYPE horizon_sessions gauge"));
    assert!(text.contains("horizon_sessions{pool=\"p1\",state=\"connected\"} 3"));
    assert!(text.contains("horizon_sessions{pool=\"p1\",state=\"pending\"} 0"));
    assert!(!text.contains("horizon_machine_states"));
}

#[test]
fn later_sample_replaces_the_value() {
    let mut sink = MetricSink::new().unwrap();
    assert!(register_metrics(&mut sink));
    assert!(publish_samples(&mut sink.machine_os, &vec![sample("p1", "windows_10", 3)]));
    assert!(publish_samples(&mut sink.machine_os, &vec![sample("p1", "windows_10", 1)]));
    assert!(publish_samples(&mut sink.machine_os, &Vec::new()));
    let (text, done) = sink.render();
    assert!(done);
    assert!(text.contains("horizon_machine_os_info{os=\"windows_10\",pool=\"p1\"} 1"));
    assert!(!text.contains("} 3"));
}

#[test]
fn cycle_is_published_under_display_names() {
    let mut sink = MetricSink::new().unwrap();
    assert!(register_metrics(&mut sink));
    let mut exporter = Exporter::new(config()).ok().unwrap();
    exporter.step(Event::Scrape);
    exporter.step(Event::Login(Ok(LoginResponse {
        access_token: "a".to_string(),
        refresh_token: "r".to_string(),
    })));
    exporter.step(Event::Pools(Ok(vec![DesktopPool { id: "p1".to_string(), enabled: true }])));
    exporter.step(Event::Sessions(Ok(vec![Session {
        id: "s1".to_string(),
        user_id: "u".to_string(),
        desktop_pool_id: Some("p1".to_string()),
        agent_version: "8.4.0".to_string(),
        session_type: "DESKTOP".to_string(),
        session_state: "CONNECTED".to_string(),
        session_protocol: Some("BLAST".to_string()),
    }])));
    exporter.step(Event::Machines(Ok(vec![Machine {
        id: "m1".to_string(),
        desktop_pool_id: "p1".to_string(),
        operating_system: Some("WINDOWS_11".to_string()),
        operating_system_architecture: Some("BIT_64".to_string()),
        state: "WEIRD_STATE".to_string(),
        mtype: "MANAGED_VIRTUAL_MACHINE".to_string(),
        user_ids: None,
    }])));
    let step = exporter.step(Event::Logout(Ok(())));
    let publication = match step.action {
        Action::Respond(publication) => publication,
        _ => panic!("the cycle is not over"),
    };
    assert!(sink.publish(&publication));
    let (text, done) = sink.render();
    assert!(done);
    assert!(text.contains("horizon_sessions{pool=\"Office\",state=\"connected\"} 1"));
    assert!(text.contains("horizon_sessions{pool=\"Office\",state=\"pending\"} 0"));
    assert!(text.contains("horizon_agent_version_info{pool=\"Office\",version=\"8.4.0\"} 1"));
    assert!(text.contains("horizon_session_protocols{pool=\"Office\",protocol=\"blast\"} 1"));
    assert!(text.contains("horizon_session_types{pool=\"Office\",type=\"desktop\"} 1"));
    assert!(text.contains("horizon_machine_states{pool=\"Office\",state=\"weird_state\"} 1"));
    assert!(text.contains("horizon_machine_states{pool=\"Office\",state=\"available\"} 0"));
    assert!(text.contains("horizon_machine_os_info{os=\"windows_11\",pool=\"Office\"} 1"));
    assert!(text.contains("horizon_machine_os_arch_info{arch=\"bit_64\",pool=\"Office\"} 1"));

    exporter.step(Event::Scrape);
    exporter.step(Event::Login(Ok(LoginResponse {
        access_token: "a".to_string(),
        refresh_token: "r".to_string(),
    })));
    let failed = exporter.step(Event::Pools(Err("down".to_string())));
    let zeros = match failed.action {
        Action::Respond(publication) => publication,
        _ => panic!("the cycle is not over"),
    };
    assert!(sink.publish(&zeros));
    let (text, _) = sink.render();
    assert!(text.contains("horizon_sessions{pool=\"Office\",state=\"connected\"} 0"));
    assert!(text.contains("horizon_machine_states{pool=\"Office\",state=\"weird_state\"} 0"));
    assert!(!text.contains("} 1"));
}

#[test]
fn sink_needs_every_family() {
    let family = |d: Dimension| dimension_family(d);
    let whole = MetricSink::assemble(
        prometheus::Registry::new(),
        family(Dimension::SessionState),
        family(Dimension::AgentVersion),
        family(Dimension::SessionProtocol),
        family(Dimension::SessionType),
        family(Dimension::MachineState),
        family(Dimension::MachineOs),
        family(Dimension::MachineArch),
    );
    assert!(whole.is_some());
    let partial = MetricSink::assemble(
        prometheus::Registry::new(),
        family(Dimension::SessionState),
        family(Dimension::AgentVersion),
        family(Dimension::SessionProtocol),
        None,
        family(Dimension::MachineState),
        family(Dimension::MachineOs),
        family(Dimension::MachineArch),
    );
    assert!(partial.is_none());
}

#[test]
fn every_dimension_has_its_family() {
    for dimension in [
        Dimension::SessionState,
        Dimension::SessionProtocol,
        Dimension::SessionType,
        Dimension::AgentVersion,
        Dimension::MachineState,
        Dimension::MachineOs,
        Dimension::MachineArch,
    ] {
        let mut family = dimension_family(dimension).unwrap();
        assert!(publish_samples(&mut family, &vec![sample("p1", "x", 1)]));
    }
    assert!(MetricSink::new().is_some());
}

#[test]
fn registering_leaves_the_gauges_alone() {
    let mut sink = MetricSink::new().unwrap();
    assert!(publish_samples(&mut sink.session_types, &vec![sample("p1", "desktop", 4)]));
    assert!(register_metrics(&mut sink));
    let (text, done) = sink.render();
    assert!(done);
    assert!(text.contains("horizon_session_types{pool=\"p1\",type=\"desktop\"} 4"));
}

#[test]
fn samples_are_handed_over_in_order() {
    let mut sink = MetricSink::new().unwrap();
    assert!(register_metrics(&mut sink));
    assert!(publish_samples(
        &mut sink.machine_arch,
        &vec![sample("p1", "bit_64", 1), sample("p2", "bit_64", 2), sample("p1", "bit_64", 7)]
    ));
    let (text, _) = sink.render();
    assert!(text.contains("horizon_machine_os_arch_info{arch=\"bit_64\",pool=\"p1\"} 7"));
    assert!(text.contains("horizon_machine_os_arch_info{arch=\"bit_64\",pool=\"p2\"} 2"));
}

#[test]
fn descriptor_numbers_are_those_of_the_registry() {
    let expected: [(&str, u64); 7] = [
        ("horizon_sessions", 16747988850053057737),
        ("horizon_agent_version_info", 13081260579133580819),
        ("horizon_session_protocols", 6547618761868203158),
        ("horizon_session_types", 16373632691288923634),
        ("horizon_machine_states", 2225412064813298126),
        ("horizon_machine_os_info", 3044711714918632179),
        ("horizon_machine_os_arch_info", 15778780609942734912),
    ];
    for (name, id) in expected {
        let family =
            prometheus::IntGaugeVec::new(prometheus::Opts::new(name, "help"), &["pool", "x"])
                .unwrap();
        let descriptors = prometheus::core::Collector::desc(&family);
        assert_eq!(descriptors.len(), 1);
        assert_eq!(descriptors[0].id, id);
        assert_eq!(descriptors[0].fq_name, name);
    }
}

#[test]
fn fresh_sink_gets_every_metric_registered() {
    let mut sink = MetricSink::new().unwrap();
    assert!(register_metrics(&mut sink));
    let publication_of = |category: &str| vec![sample("p1", category, 1)];
    assert!(publish_samples(&mut sink.sessions, &publication_of("connected")));
    assert!(publish_samples(&mut sink.agent_versions, &publication_of("8.4.0")));
    assert!(publish_samples(&mut sink.session_protocols, &publication_of("blast")));
    assert!(publish_samples(&mut sink.session_types, &publication_of("desktop")));
    assert!(publish_samples(&mut sink.machine_states, &publication_of("available")));
    assert!(publish_samples(&mut sink.machine_os, &publication_of("windows_10")));
    assert!(publish_samples(&mut sink.machine_arch, &publication_of("bit_64")));
    let (text, done) = sink.render();
    assert!(done);
    for name in [
        "horizon_sessions",
        "horizon_agent_version_info",
        "horizon_session_protocols",
        "horizon_session_types",
        "horizon_machine_states",
        "horizon_machine_os_info",
        "horizon_machine_os_arch_info",
    ] {
        assert!(text.contains(&format!("# TYPE {} gauge", name)));
    }
}
