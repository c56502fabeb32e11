use node_supervisor::config::{
    check_config, has_duplicate, metrics_identity_list, ConfigError, LogLevel, LoggerConfig,
    MetricsConfig, NodeConfig,
};
use node_supervisor::metrics::{metrics_file_name, metrics_tasks};

fn config(full: &[&str], validator: Option<&str>, enabled: bool) -> NodeConfig {
    NodeConfig {
        logger: LoggerConfig { chan_size: 16, is_async: false, level: LogLevel::Debug },
        metrics: MetricsConfig {
            enabled,
            dir: "out".to_string(),
            collection_interval_ms: 250,
        },
        full_node_networks: full.iter().map(|s| s.to_string()).collect(),
        validator_network: validator.map(|s| s.to_string()),
    }
}

#[test]
fn valid_config_is_returned_unchanged() {
    let c = check_config(config(&["A", "B"], Some("V"), true)).unwrap();
    assert_eq!(c.logger, LoggerConfig { chan_size: 16, is_async: false, level: LogLevel::Debug });
    assert!(c.metrics.enabled);
    assert_eq!(c.metrics.dir, "out");
    assert_eq!(c.metrics.collection_interval_ms, 250);
    assert_eq!(c.full_node_networks, vec!["A".to_string(), "B".to_string()]);
    assert_eq!(c.validator_network, Some("V".to_string()));
}

#[test]
fn duplicate_full_nodes_are_refused() {
    let r = check_config(config(&["A", "B", "A"], None, true));
    assert_eq!(r.err(), Some(ConfigError::DuplicateIdentity));
}

#[test]
fn validator_sharing_a_full_node_identity_is_refused() {
    let r = check_config(config(&["A", "B"], Some("B"), true));
    assert_eq!(r.err(), Some(ConfigError::DuplicateIdentity));
}

#[test]
fn duplicates_are_accepted_when_metrics_are_disabled() {
    assert!(check_config(config(&["A", "A"], Some("A"), false)).is_ok());
}

#[test]
fn identity_list_puts_validator_last() {
    let ids = metrics_identity_list(&config(&["x", "y"], Some("v"), true));
    assert_eq!(ids, vec!["x".to_string(), "y".to_string(), "v".to_string()]);
    assert!(metrics_identity_list(&config(&["x"], Some("v"), false)).is_empty());
}

#[test]
fn duplicate_detection() {
    assert!(!has_duplicate(&vec![]));
    assert!(!has_duplicate(&vec!["a".to_string()]));
    assert!(!has_duplicate(&vec!["a".to_string(), "b".to_string()]));
    assert!(has_duplicate(&vec!["a".to_string(), "b".to_string(), "a".to_string()]));
    assert!(has_duplicate(&vec!["b".to_string(), "b".to_string()]));
}

#[test]
fn file_name_appends_suffix() {
    assert_eq!(metrics_file_name(&"0123abcd".to_string()), "0123abcd.metrics");
    assert_eq!(metrics_file_name(&String::new()), ".metrics");
}

#[test]
fn tasks_follow_configuration() {
    let tasks = metrics_tasks(&config(&["p", "q"], Some("v"), true));
    let names: Vec<&str> = tasks.iter().map(|t| t.file_name.as_str()).collect();
    assert_eq!(names, vec!["p.metrics", "q.metrics", "v.metrics"]);
    assert!(tasks.iter().all(|t| t.dir == "out" && t.interval_ms == 250));
    assert!(metrics_tasks(&config(&["p"], Some("v"), false)).is_empty());
}
