use horizon_exporter::configuration::{Configuration, HorizonAPIConfig};
use horizon_exporter::http::{client_settings, fixed_payload, route, status_code, Reply, Trust};

fn config() -> Configuration {
    Configuration {
        horizon_api: HorizonAPIConfig {
            url: "https://horizon.example".to_string(),
            user: "exporter".to_string(),
            domain: "EXAMPLE".to_string(),
            password: "secret".to_string(),
            insecure_ssl: None,
            ca_file: None,
            timeout: None,
            only_pools: None,
            skip_pools: None,
            pool_uuid_map: None,
            only_pools_set: Vec::new(),
            skip_pools_set: Vec::new(),
        },
    }
}

#[test]
fn get_is_routed_by_path() {
    assert_eq!(route(true, "/"), Reply::Root);
    assert_eq!(route(true, "/metrics"), Reply::Metrics);
    assert_eq!(route(true, "/metrics/"), Reply::NotFound);
    assert_eq!(route(true, ""), Reply::NotFound);
    assert_eq!(route(true, "/favicon.ico"), Reply::NotFound);
}

#[test]
fn other_methods_are_not_allowed() {
    assert_eq!(route(false, "/"), Reply::MethodNotAllowed);
    assert_eq!(route(false, "/metrics"), Reply::MethodNotAllowed);
    assert_eq!(route(false, "/nowhere"), Reply::MethodNotAllowed);
}

#[test]
fn each_reply_has_its_status() {
    assert_eq!(status_code(Reply::Root), 302);
    assert_eq!(status_code(Reply::Metrics), 200);
    assert_eq!(status_code(Reply::NotFound), 404);
    assert_eq!(status_code(Reply::MethodNotAllowed), 405);
}

#[test]
fn each_reply_but_the_metrics_has_its_body() {
    assert!(fixed_payload(Reply::Root).unwrap().contains("<a href=\"/metrics\">Metrics</a>"));
    assert_eq!(fixed_payload(Reply::NotFound), Some("Not found"));
    assert_eq!(fixed_payload(Reply::MethodNotAllowed), Some("Method not allowed"));
    assert_eq!(fixed_payload(Reply::Metrics), None);
}

#[test]
fn client_defaults() {
    let settings = client_settings(&config());
    assert!(matches!(settings.trust, Trust::System));
    assert_eq!(settings.timeout, 60);
}

#[test]
fn client_takes_timeout_and_authority() {
    let mut cfg = config();
    cfg.horizon_api.timeout = Some(5);
    cfg.horizon_api.ca_file = Some("/etc/ssl/ca.pem".to_string());
    cfg.horizon_api.insecure_ssl = Some(false);
    let settings = client_settings(&cfg);
    assert_eq!(settings.timeout, 5);
    match settings.trust {
        Trust::Authority(file) => assert_eq!(file, "/etc/ssl/ca.pem"),
        _ => panic!("another trust"),
    }
}

#[test]
fn insecure_wins_over_authority() {
    let mut cfg = config();
    cfg.horizon_api.ca_file = Some("/etc/ssl/ca.pem".to_string());
    cfg.horizon_api.insecure_ssl = Some(true);
    assert!(matches!(client_settings(&cfg).trust, Trust::Anything));
}

#[test]
fn empty_authority_file_is_none() {
    let mut cfg = config();
    cfg.horizon_api.ca_file = Some(String::new());
    assert!(matches!(client_settings(&cfg).trust, Trust::System));
}
