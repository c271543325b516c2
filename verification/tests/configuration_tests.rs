use horizon_exporter::configuration::{
    complete_config, contains_id, in_scope, lookup_name, resolve_name, validate_config,
    ConfigError, Configuration, HorizonAPIConfig,
};

fn base() -> Configuration {
    Configuration {
        horizon_api: HorizonAPIConfig {
            url: "https://horizon.example".to_string(),
            user: "exporter".to_string(),
            domain: "EXAMPLE".to_string(),
            password: "secret".to_string(),
            insecure_ssl: None,
            ca_file: None,
            timeout: None,
            only_pools: None,
            skip_pools: None,
            pool_uuid_map: None,
            only_pools_set: Vec::new(),
            skip_pools_set: Vec::new(),
        },
    }
}

fn ids(list: &[&str]) -> Vec<String> {
    list.iter().map(|s| s.to_string()).collect()
}

#[test]
fn valid_configuration_is_accepted() {
    assert!(validate_config(&base()).is_ok());
}

#[test]
fn missing_url_is_refused() {
    let mut cfg = base();
    cfg.horizon_api.url = String::new();
    let e = validate_config(&cfg).unwrap_err();
    assert!(matches!(e, ConfigError::MissingUrl));
    assert_eq!(e.message(), "Missing URL");
}

#[test]
fn missing_user_is_refused() {
    let mut cfg = base();
    cfg.horizon_api.user = String::new();
    let e = validate_config(&cfg).unwrap_err();
    assert!(matches!(e, ConfigError::MissingUser));
    assert_eq!(e.message(), "Missing user for authentication");
}

#[test]
fn missing_password_is_refused() {
    let mut cfg = base();
    cfg.horizon_api.password = String::new();
    let e = validate_config(&cfg).unwrap_err();
    assert!(matches!(e, ConfigError::MissingPassword));
    assert_eq!(e.message(), "Missing password for authentication");
}

#[test]
fn missing_domain_is_refused() {
    let mut cfg = base();
    cfg.horizon_api.domain = String::new();
    let e = validate_config(&cfg).unwrap_err();
    assert!(matches!(e, ConfigError::MissingDomain));
    assert_eq!(e.message(), "Missing login domain for authentication");
}

#[test]
fn first_fault_is_named() {
    let mut cfg = base();
    cfg.horizon_api.url = String::new();
    cfg.horizon_api.password = String::new();
    cfg.horizon_api.only_pools_set = ids(&["p1"]);
    cfg.horizon_api.skip_pools_set = ids(&["p1"]);
    assert!(matches!(validate_config(&cfg).unwrap_err(), ConfigError::MissingUrl));
    cfg.horizon_api.url = "u".to_string();
    assert!(matches!(validate_config(&cfg).unwrap_err(), ConfigError::MissingPassword));
}

#[test]
fn pool_in_both_sets_is_refused() {
    let mut cfg = base();
    cfg.horizon_api.only_pools_set = ids(&["p1", "p2", "p3"]);
    cfg.horizon_api.skip_pools_set = ids(&["p9", "p3", "p2"]);
    match validate_config(&cfg).unwrap_err() {
        ConfigError::PoolInBoth(pool) => assert_eq!(pool, "p2"),
        _ => panic!("another fault was named"),
    }
    let e = validate_config(&cfg).unwrap_err();
    assert_eq!(e.message(), "pool p2 is in only_pools and skip_pools");
}

#[test]
fn disjoint_sets_are_accepted() {
    let mut cfg = base();
    cfg.horizon_api.only_pools_set = ids(&["p1", "p2"]);
    cfg.horizon_api.skip_pools_set = ids(&["p3"]);
    assert!(validate_config(&cfg).is_ok());
}

#[test]
fn complete_config_fills_the_sets() {
    let mut cfg = base();
    cfg.horizon_api.only_pools = Some(ids(&["p1", "p2"]));
    cfg.horizon_api.skip_pools = Some(ids(&["p3"]));
    cfg.horizon_api.only_pools_set = ids(&["stale"]);
    let (done, checked) = complete_config(cfg);
    assert!(checked.is_ok());
    assert_eq!(done.horizon_api.only_pools_set, ids(&["p1", "p2"]));
    assert_eq!(done.horizon_api.skip_pools_set, ids(&["p3"]));
    assert_eq!(done.horizon_api.url, "https://horizon.example");
    assert_eq!(done.horizon_api.only_pools, Some(ids(&["p1", "p2"])));
}

#[test]
fn complete_config_without_lists_gives_empty_sets() {
    let (done, checked) = complete_config(base());
    assert!(checked.is_ok());
    assert!(done.horizon_api.only_pools_set.is_empty());
    assert!(done.horizon_api.skip_pools_set.is_empty());
}

#[test]
fn complete_config_refuses_a_pool_in_both_lists() {
    let mut cfg = base();
    cfg.horizon_api.only_pools = Some(ids(&["p1"]));
    cfg.horizon_api.skip_pools = Some(ids(&["p1"]));
    let (_, checked) = complete_config(cfg);
    match checked.unwrap_err() {
        ConfigError::PoolInBoth(pool) => assert_eq!(pool, "p1"),
        _ => panic!("another fault was named"),
    }
}

#[test]
fn skipped_pool_is_out_of_scope() {
    assert!(!in_scope("p2", &ids(&[]), &ids(&["p2"])));
    assert!(!in_scope("p2", &ids(&["p2"]), &ids(&["p2"])));
    assert!(!in_scope("p2", &ids(&["p1"]), &ids(&["p2"])));
}

#[test]
fn unlisted_pool_is_out_of_scope() {
    assert!(!in_scope("p3", &ids(&["p1", "p2"]), &ids(&[])));
    assert!(in_scope("p2", &ids(&["p1", "p2"]), &ids(&[])));
}

#[test]
fn every_pool_is_in_scope_without_lists() {
    assert!(in_scope("p1", &ids(&[]), &ids(&[])));
    assert!(in_scope("", &ids(&[]), &ids(&[])));
    assert!(in_scope("p1", &ids(&[]), &ids(&["p2"])));
}

#[test]
fn contains_id_finds_what_is_listed() {
    let list = ids(&["a", "b"]);
    assert!(contains_id(&list, &"b".to_string()));
    assert!(!contains_id(&list, &"c".to_string()));
    assert!(!contains_id(&ids(&[]), &"a".to_string()));
}

#[test]
fn resolve_gives_the_mapped_name() {
    let mut cfg = base();
    cfg.horizon_api.pool_uuid_map = Some(vec![
        ("uuid-1".to_string(), "Office".to_string()),
        ("uuid-2".to_string(), "Lab".to_string()),
    ]);
    assert_eq!(cfg.horizon_api.clone().user_defined_pool_uuid_resolve("uuid-2"), "Lab");
    assert_eq!(cfg.horizon_api.clone().user_defined_pool_uuid_resolve("uuid-1"), "Office");
    assert_eq!(cfg.horizon_api.clone().user_defined_pool_uuid_resolve("uuid-3"), "uuid-3");
}

#[test]
fn resolve_without_a_table_gives_the_identifier() {
    assert_eq!(base().horizon_api.user_defined_pool_uuid_resolve("uuid-1"), "uuid-1");
    assert_eq!(resolve_name(&None, &"x".to_string()), "x");
}

#[test]
fn first_pair_counts_in_the_table() {
    let pairs = vec![
        ("a".to_string(), "first".to_string()),
        ("a".to_string(), "second".to_string()),
    ];
    assert_eq!(lookup_name(&pairs, &"a".to_string()), Some("first".to_string()));
    assert_eq!(lookup_name(&pairs, &"b".to_string()), None);
    assert_eq!(resolve_name(&Some(pairs), &"a".to_string()), "first");
}
