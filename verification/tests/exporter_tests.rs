use horizon_exporter::configuration::{ConfigError, Configuration, HorizonAPIConfig};
use horizon_exporter::data::{DesktopPool, LoginResponse, Machine, Session};
use horizon_exporter::exporter::{Action, CycleError, Event, Exporter, Phase, Publication, Step};
use horizon_exporter::matrix::Sample;

fn config(only: &[&str], skip: &[&str]) -> Configuration {
    Configuration {
        horizon_api: HorizonAPIConfig {
            url: "https://horizon.example".to_string(),
            user: "exporter".to_string(),
            domain: "EXAMPLE".to_string(),
            password: "secret".to_string(),
            insecure_ssl: None,
            ca_file: None,
            timeout: None,
            only_pools: None,
            skip_pools: None,
            pool_uuid_map: None,
            only_pools_set: only.iter().map(|s| s.to_string()).collect(),
            skip_pools_set: skip.iter().map(|s| s.to_string()).collect(),
        },
    }
}

fn pool(id: &str) -> DesktopPool {
    DesktopPool { id: id.to_string(), enabled: true }
}

fn session(id: &str, pool: &str, state: &str) -> Session {
    Session {
        id: id.to_string(),
        user_id: "user".to_string(),
        desktop_pool_id: Some(pool.to_string()),
        agent_version: "8.4.0".to_string(),
        session_type: "DESKTOP".to_string(),
        session_state: state.to_string(),
        session_protocol: Some("BLAST".to_string()),
    }
}

fn machine(id: &str, pool: &str, state: &str) -> Machine {
    Machine {
        id: id.to_string(),
        desktop_pool_id: pool.to_string(),
        operating_system: Some("WINDOWS_10".to_string()),
        operating_system_architecture: Some("BIT_64".to_string()),
        state: state.to_string(),
        mtype: "MANAGED_VIRTUAL_MACHINE".to_string(),
        user_ids: None,
    }
}

fn tokens() -> LoginResponse {
    LoginResponse { access_token: "access".to_string(), refresh_token: "refresh".to_string() }
}

fn count(samples: &[Sample], pool: &str, category: &str) -> Option<i64> {
    samples.iter().find(|s| s.pool == pool && s.category == category).map(|s| s.count)
}

fn all_samples(p: &Publication) -> Vec<&Sample> {
    p.sessions
        .sessions
        .iter()
        .chain(p.sessions.agent_versions.iter())
        .chain(p.sessions.protocols.iter())
        .chain(p.sessions.types.iter())
        .chain(p.machines.states.iter())
        .chain(p.machines.os.iter())
        .chain(p.machines.arch.iter())
        .collect()
}

fn publication(step: Step) -> Publication {
    match step.action {
        Action::Respond(publication) => publication,
        _ => panic!("the cycle is not over"),
    }
}

fn full_cycle(exporter: &mut Exporter, pools: Vec<DesktopPool>, sessions: Vec<Session>, machines: Vec<Machine>) -> Publication {
    exporter.step(Event::Scrape);
    exporter.step(Event::Login(Ok(tokens())));
    exporter.step(Event::Pools(Ok(pools)));
    exporter.step(Event::Sessions(Ok(sessions)));
    exporter.step(Event::Machines(Ok(machines)));
    publication(exporter.step(Event::Logout(Ok(()))))
}

#[test]
fn engine_is_made_for_a_valid_configuration_only() {
    assert!(Exporter::new(config(&[], &[])).is_ok());
    match Exporter::new(config(&["p1", "p2"], &["p2"])) {
        Err(ConfigError::PoolInBoth(pool)) => assert_eq!(pool, "p2"),
        _ => panic!("the configuration was not refused for the pool"),
    }
    let mut cfg = config(&[], &[]);
    cfg.horizon_api.url = String::new();
    assert!(matches!(Exporter::new(cfg), Err(ConfigError::MissingUrl)));
}

#[test]
fn new_engine_is_idle_and_empty() {
    let exporter = Exporter::new(config(&[], &[])).ok().unwrap();
    assert_eq!(exporter.phase, Phase::Idle);
    assert!(exporter.desktop_pools.is_empty());
    assert!(exporter.tokens.is_none());
    assert!(all_samples(&exporter.publish()).is_empty());
}

#[test]
fn cycle_asks_for_each_call_in_turn() {
    let mut exporter = Exporter::new(config(&[], &[])).ok().unwrap();
    match exporter.step(Event::Scrape).action {
        Action::Login(request) => {
            assert_eq!(request.domain, "EXAMPLE");
            assert_eq!(request.password, "secret");
            assert_eq!(request.username, "exporter");
        }
        _ => panic!("no login"),
    }
    assert_eq!(exporter.phase, Phase::LoggingIn);
    match exporter.step(Event::Login(Ok(tokens()))).action {
        Action::FetchPools { access_token } => assert_eq!(access_token, "access"),
        _ => panic!("no fetch of pools"),
    }
    assert_eq!(exporter.phase, Phase::FetchingPools);
    match exporter.step(Event::Pools(Ok(vec![pool("p1")]))).action {
        Action::FetchSessions { access_token } => assert_eq!(access_token, "access"),
        _ => panic!("no fetch of sessions"),
    }
    assert_eq!(exporter.phase, Phase::FetchingSessions);
    assert_eq!(exporter.desktop_pools.len(), 1);
    match exporter.step(Event::Sessions(Ok(Vec::new()))).action {
        Action::FetchMachines { access_token } => assert_eq!(access_token, "access"),
        _ => panic!("no fetch of machines"),
    }
    assert_eq!(exporter.phase, Phase::FetchingMachines);
    match exporter.step(Event::Machines(Ok(Vec::new()))).action {
        Action::Logout(request) => assert_eq!(request.refresh_token, "refresh"),
        _ => panic!("no logout"),
    }
    assert_eq!(exporter.phase, Phase::LoggingOut);
    let last = exporter.step(Event::Logout(Ok(())));
    assert!(last.error.is_none());
    assert!(matches!(last.action, Action::Respond(_)));
    assert_eq!(exporter.phase, Phase::Idle);
}

#[test]
fn skipped_pool_does_not_show_in_the_published_counts() {
    let mut exporter = Exporter::new(config(&[], &["p2"])).ok().unwrap();
    let published = full_cycle(
        &mut exporter,
        vec![pool("p1"), pool("p2")],
        vec![session("s1", "p1", "CONNECTED"), session("s2", "p2", "PENDING")],
        Vec::new(),
    );
    assert_eq!(count(&published.sessions.sessions, "p1", "connected"), Some(1));
    assert_eq!(count(&published.sessions.sessions, "p1", "pending"), Some(0));
    assert!(all_samples(&published).iter().all(|s| s.pool != "p2"));
    assert!(published.sessions.sessions.iter().all(|s| s.category != "pending" || s.count == 0));
}

#[test]
fn weird_machine_state_is_published_with_a_warning() {
    let mut exporter = Exporter::new(config(&[], &[])).ok().unwrap();
    exporter.step(Event::Scrape);
    exporter.step(Event::Login(Ok(tokens())));
    exporter.step(Event::Pools(Ok(vec![pool("P")])));
    exporter.step(Event::Sessions(Ok(Vec::new())));
    let step = exporter.step(Event::Machines(Ok(vec![machine("m1", "P", "WEIRD_STATE")])));
    assert_eq!(step.warnings.len(), 1);
    assert_eq!(step.warnings[0].message(), "skipping unknown state WEIRD_STATE for machine id m1");
    let published = publication(exporter.step(Event::Logout(Ok(()))));
    assert_eq!(count(&published.machines.states, "P", "weird_state"), Some(1));
}

#[test]
fn failed_pool_fetch_publishes_zero_for_every_known_pool() {
    let mut exporter = Exporter::new(config(&[], &[])).ok().unwrap();
    let first = full_cycle(
        &mut exporter,
        vec![pool("p1"), pool("p2")],
        vec![session("s1", "p1", "CONNECTED"), session("s2", "p2", "ODD")],
        vec![machine("m1", "p1", "AVAILABLE")],
    );
    assert_eq!(count(&first.sessions.sessions, "p1", "connected"), Some(1));
    assert_eq!(count(&first.machines.states, "p1", "available"), Some(1));
    let known = all_samples(&first).len();

    exporter.step(Event::Scrape);
    exporter.step(Event::Login(Ok(tokens())));
    let step = exporter.step(Event::Pools(Err("connection refused".to_string())));
    match &step.error {
        Some(CycleError::Pools(text)) => assert_eq!(text, "connection refused"),
        _ => panic!("no failure was reported"),
    }
    assert_eq!(
        step.error.as_ref().unwrap().message(),
        "can't get list of desktop pools: connection refused"
    );
    let published = publication(step);
    assert_eq!(all_samples(&published).len(), known);
    assert!(all_samples(&published).iter().all(|s| s.count == 0));
    assert_eq!(count(&published.sessions.sessions, "p1", "connected"), Some(0));
    assert_eq!(count(&published.sessions.sessions, "p2", "odd"), Some(0));
    assert_eq!(count(&published.machines.states, "p1", "available"), Some(0));
    assert_eq!(exporter.phase, Phase::Idle);
    assert_eq!(exporter.desktop_pools.len(), 2);

    let next = full_cycle(
        &mut exporter,
        vec![pool("p1")],
        vec![session("s3", "p1", "CONNECTED")],
        Vec::new(),
    );
    assert_eq!(count(&next.sessions.sessions, "p1", "connected"), Some(1));
    assert_eq!(exporter.desktop_pools.len(), 1);
}

#[test]
fn failed_login_ends_the_cycle() {
    let mut exporter = Exporter::new(config(&[], &[])).ok().unwrap();
    full_cycle(&mut exporter, vec![pool("p1")], vec![session("s1", "p1", "CONNECTED")], Vec::new());
    exporter.step(Event::Scrape);
    let step = exporter.step(Event::Login(Err("401".to_string())));
    assert_eq!(step.error.as_ref().unwrap().message(), "horizon login failed: 401");
    assert!(!step.error.as_ref().unwrap().is_warning());
    let published = publication(step);
    assert!(all_samples(&published).iter().all(|s| s.count == 0));
    assert_eq!(exporter.phase, Phase::Idle);
}

#[test]
fn failed_session_fetch_publishes_zero_sessions_and_goes_on() {
    let mut exporter = Exporter::new(config(&[], &[])).ok().unwrap();
    full_cycle(
        &mut exporter,
        vec![pool("p1")],
        vec![session("s1", "p1", "CONNECTED"), session("s2", "p1", "CONNECTED")],
        vec![machine("m1", "p1", "AVAILABLE")],
    );
    exporter.step(Event::Scrape);
    exporter.step(Event::Login(Ok(tokens())));
    exporter.step(Event::Pools(Ok(vec![pool("p1")])));
    let step = exporter.step(Event::Sessions(Err("timeout".to_string())));
    assert!(matches!(step.action, Action::FetchMachines { .. }));
    assert_eq!(step.error.as_ref().unwrap().message(), "session metric update failed: timeout");
    exporter.step(Event::Machines(Ok(vec![machine("m1", "p1", "AVAILABLE")])));
    let published = publication(exporter.step(Event::Logout(Ok(()))));
    assert!(published.sessions.sessions.iter().all(|s| s.count == 0));
    assert!(published.sessions.agent_versions.iter().all(|s| s.count == 0));
    assert!(published.sessions.protocols.iter().all(|s| s.count == 0));
    assert!(published.sessions.types.iter().all(|s| s.count == 0));
    assert_eq!(count(&published.sessions.sessions, "p1", "connected"), Some(0));
    assert_eq!(count(&published.machines.states, "p1", "available"), Some(1));
}

#[test]
fn failed_machine_fetch_publishes_zero_machines() {
    let mut exporter = Exporter::new(config(&[], &[])).ok().unwrap();
    full_cycle(&mut exporter, vec![pool("p1")], Vec::new(), vec![machine("m1", "p1", "AVAILABLE")]);
    exporter.step(Event::Scrape);
    exporter.step(Event::Login(Ok(tokens())));
    exporter.step(Event::Pools(Ok(vec![pool("p1")])));
    exporter.step(Event::Sessions(Ok(vec![session("s1", "p1", "CONNECTED")])));
    let step = exporter.step(Event::Machines(Err("boom".to_string())));
    assert!(matches!(step.action, Action::Logout(_)));
    assert_eq!(step.error.as_ref().unwrap().message(), "machine metric update failed: boom");
    let published = publication(exporter.step(Event::Logout(Ok(()))));
    assert!(published.machines.states.iter().all(|s| s.count == 0));
    assert!(published.machines.os.iter().all(|s| s.count == 0));
    assert!(published.machines.arch.iter().all(|s| s.count == 0));
    assert_eq!(count(&published.sessions.sessions, "p1", "connected"), Some(1));
}

#[test]
fn failed_logout_is_a_warning_and_the_counts_are_published() {
    let mut exporter = Exporter::new(config(&[], &[])).ok().unwrap();
    exporter.step(Event::Scrape);
    exporter.step(Event::Login(Ok(tokens())));
    exporter.step(Event::Pools(Ok(vec![pool("p1")])));
    exporter.step(Event::Sessions(Ok(vec![session("s1", "p1", "CONNECTED")])));
    exporter.step(Event::Machines(Ok(Vec::new())));
    let step = exporter.step(Event::Logout(Err("gone".to_string())));
    assert!(step.error.as_ref().unwrap().is_warning());
    assert_eq!(step.error.as_ref().unwrap().message(), "horizon logout failed: gone");
    let published = publication(step);
    assert_eq!(count(&published.sessions.sessions, "p1", "connected"), Some(1));
}

#[test]
fn event_that_is_not_awaited_changes_nothing() {
    let mut exporter = Exporter::new(config(&[], &[])).ok().unwrap();
    let step = exporter.step(Event::Sessions(Ok(vec![session("s1", "p1", "CONNECTED")])));
    assert!(matches!(step.action, Action::Ignore));
    assert!(step.error.is_none());
    assert!(step.warnings.is_empty());
    assert_eq!(exporter.phase, Phase::Idle);
    assert!(all_samples(&exporter.publish()).is_empty());
    exporter.step(Event::Scrape);
    let again = exporter.step(Event::Scrape);
    assert!(matches!(again.action, Action::Ignore));
    assert_eq!(exporter.phase, Phase::LoggingIn);
    let early = exporter.step(Event::Pools(Ok(vec![pool("p1")])));
    assert!(matches!(early.action, Action::Ignore));
    assert!(exporter.desktop_pools.is_empty());
}

#[test]
fn pools_are_replaced_wholesale() {
    let mut exporter = Exporter::new(config(&[], &[])).ok().unwrap();
    full_cycle(&mut exporter, vec![pool("p1"), pool("p2")], Vec::new(), Vec::new());
    full_cycle(&mut exporter, vec![pool("p3")], Vec::new(), Vec::new());
    assert_eq!(exporter.desktop_pools.len(), 1);
    assert_eq!(exporter.desktop_pools[0].id, "p3");
    let published = exporter.publish();
    assert_eq!(count(&published.sessions.sessions, "p1", "connected"), Some(0));
    assert_eq!(count(&published.sessions.sessions, "p3", "connected"), Some(0));
}

#[test]
fn display_names_are_used_at_publication_only() {
    let mut cfg = config(&[], &["uuid-2"]);
    cfg.horizon_api.pool_uuid_map = Some(vec![
        ("uuid-1".to_string(), "Office".to_string()),
        ("uuid-2".to_string(), "Lab".to_string()),
    ]);
    let mut exporter = Exporter::new(cfg).ok().unwrap();
    let published = full_cycle(
        &mut exporter,
        vec![pool("uuid-1"), pool("uuid-2")],
        vec![session("s1", "uuid-1", "CONNECTED"), session("s2", "uuid-2", "CONNECTED")],
        Vec::new(),
    );
    let one = published.sessions.sessions.iter().find(|s| s.category == "connected").unwrap();
    assert_eq!(one.pool, "uuid-1");
    assert_eq!(one.label, "Office");
    assert_eq!(one.count, 1);
    assert!(all_samples(&published).iter().all(|s| s.label != "Lab"));
    assert!(exporter.sessions.pool_sessions.contains_pool("uuid-1"));
    assert!(!exporter.sessions.pool_sessions.contains_pool("Office"));
}
