use node_supervisor::config::{LogLevel, LoggerConfig, MetricsConfig, NodeConfig};
use node_supervisor::supervisor::{Action, Event, Phase, Supervisor, EXIT_FAILURE, EXIT_SUCCESS};

fn config(full: &[&str], validator: Option<&str>, enabled: bool, interval: u64) -> NodeConfig {
    NodeConfig {
        logger: LoggerConfig { chan_size: 256, is_async: true, level: LogLevel::Info },
        metrics: MetricsConfig {
            enabled,
            dir: "/var/metrics".to_string(),
            collection_interval_ms: interval,
        },
        full_node_networks: full.iter().map(|s| s.to_string()).collect(),
        validator_network: validator.map(|s| s.to_string()),
    }
}

/// Runs the startup of `c` to the first reading of the termination flag and
/// returns every action asked for on the way, the metrics tasks' file names
/// and the supervisor.
fn start(c: NodeConfig, no_logging: bool) -> (Vec<Action>, Vec<String>, Supervisor) {
    let mut s = Supervisor::new(no_logging);
    let mut actions = vec![s.pending()];
    let mut files = Vec::new();
    let mut a = s.step(Event::ConfigLoaded(c));
    while a != Action::CheckTermination {
        actions.push(a);
        if let Action::StartMetricsTask(i) = a {
            files.push(s.metrics_task(i).unwrap().file_name.clone());
        }
        if let Action::Exit(_) = a {
            break;
        }
        a = s.step(Event::StepDone);
    }
    actions.push(a);
    (actions, files, s)
}

fn is_logging(a: &Action) -> bool {
    matches!(a, Action::InitLogger(_) | Action::InitStructuredLog | Action::EmitStartupRecord)
}

#[test]
fn two_full_nodes_without_logging_start_two_tasks_and_park() {
    let c = config(&["A", "B"], None, true, 1000);
    let (actions, files, mut s) = start(c, true);
    assert_eq!(
        actions,
        vec![
            Action::LoadConfig,
            Action::InstallCrashHandler,
            Action::StartMetricsTask(0),
            Action::StartMetricsTask(1),
            Action::SetupEnvironment,
            Action::CheckTermination,
        ]
    );
    assert!(!actions.iter().any(is_logging));
    assert_eq!(files, vec!["A.metrics".to_string(), "B.metrics".to_string()]);
    let t = s.metrics_task(0).unwrap();
    assert_eq!(t.dir, "/var/metrics");
    assert_eq!(t.interval_ms, 1000);
    assert!(s.metrics_task(2).is_none());
    assert_eq!(actions.iter().filter(|a| **a == Action::SetupEnvironment).count(), 1);
    for _ in 0..3 {
        assert_eq!(s.step(Event::Flag(false)), Action::Park);
        assert_eq!(s.phase(), Phase::Parked);
        assert_eq!(s.step(Event::StepDone), Action::CheckTermination);
    }
    assert_eq!(s.step(Event::Flag(true)), Action::Exit(EXIT_SUCCESS));
    assert_eq!(s.step(Event::StepDone), Action::Exit(EXIT_SUCCESS));
    assert_eq!(s.step(Event::Flag(false)), Action::Exit(EXIT_SUCCESS));
    assert_eq!(s.phase(), Phase::Exited(0));
}

#[test]
fn missing_config_exits_with_failure_and_starts_nothing() {
    let mut s = Supervisor::new(false);
    assert_eq!(s.pending(), Action::LoadConfig);
    assert_eq!(s.step(Event::ConfigFailed), Action::Exit(EXIT_FAILURE));
    assert_ne!(EXIT_FAILURE, 0);
    for e in [Event::StepDone, Event::Flag(true), Event::StepFailed] {
        assert_eq!(s.step(e), Action::Exit(EXIT_FAILURE));
    }
    assert_eq!(
        s.step(Event::ConfigLoaded(config(&["A"], None, true, 10))),
        Action::Exit(EXIT_FAILURE)
    );
    assert!(s.metrics_task(0).is_none());
}

#[test]
fn logging_steps_come_once_before_metrics() {
    let c = config(&["A"], Some("V"), true, 500);
    let (actions, files, _) = start(c, false);
    assert_eq!(
        actions,
        vec![
            Action::LoadConfig,
            Action::InstallCrashHandler,
            Action::InitLogger(LoggerConfig { chan_size: 256, is_async: true, level: LogLevel::Info }),
            Action::InitStructuredLog,
            Action::EmitStartupRecord,
            Action::StartMetricsTask(0),
            Action::StartMetricsTask(1),
            Action::SetupEnvironment,
            Action::CheckTermination,
        ]
    );
    assert_eq!(files, vec!["A.metrics".to_string(), "V.metrics".to_string()]);
}

#[test]
fn validator_adds_one_task() {
    let (_, files, _) = start(config(&["a", "b", "c"], Some("v"), true, 1), true);
    assert_eq!(files, vec!["a.metrics", "b.metrics", "c.metrics", "v.metrics"]);
}

#[test]
fn disabled_metrics_start_no_task() {
    let (actions, files, s) = start(config(&["a", "b"], Some("v"), false, 1), true);
    assert!(files.is_empty());
    assert!(!actions.iter().any(|a| matches!(a, Action::StartMetricsTask(_))));
    assert!(s.metrics_task(0).is_none());
}

#[test]
fn enabled_metrics_without_networks_start_no_task() {
    let (actions, files, _) = start(config(&[], None, true, 1), true);
    assert!(files.is_empty());
    assert_eq!(
        actions,
        vec![
            Action::LoadConfig,
            Action::InstallCrashHandler,
            Action::SetupEnvironment,
            Action::CheckTermination,
        ]
    );
}

#[test]
fn duplicate_identity_exits_with_failure() {
    let (actions, files, s) = start(config(&["A", "A"], None, true, 1), true);
    assert_eq!(
        actions,
        vec![Action::LoadConfig, Action::Exit(EXIT_FAILURE), Action::Exit(EXIT_FAILURE)]
    );
    assert!(files.is_empty());
    assert_eq!(s.phase(), Phase::Exited(EXIT_FAILURE));
}

#[test]
fn failed_step_exits_with_failure() {
    let mut s = Supervisor::new(false);
    s.step(Event::ConfigLoaded(config(&["A"], None, true, 1)));
    assert_eq!(s.step(Event::StepDone), Action::InitLogger(LoggerConfig {
        chan_size: 256,
        is_async: true,
        level: LogLevel::Info,
    }));
    assert_eq!(s.step(Event::StepDone), Action::InitStructuredLog);
    assert_eq!(s.step(Event::StepFailed), Action::Exit(EXIT_FAILURE));
    assert_eq!(s.step(Event::StepDone), Action::Exit(EXIT_FAILURE));
}

#[test]
fn unrelated_reports_are_ignored() {
    let mut s = Supervisor::new(true);
    assert_eq!(s.step(Event::StepDone), Action::LoadConfig);
    assert_eq!(s.step(Event::Flag(true)), Action::LoadConfig);
    assert_eq!(s.step(Event::ConfigLoaded(config(&["A"], None, false, 1))), Action::InstallCrashHandler);
    assert_eq!(s.step(Event::Flag(true)), Action::InstallCrashHandler);
    assert_eq!(s.step(Event::StepDone), Action::SetupEnvironment);
    assert_eq!(s.step(Event::StepDone), Action::CheckTermination);
    assert_eq!(s.step(Event::StepDone), Action::CheckTermination);
}
