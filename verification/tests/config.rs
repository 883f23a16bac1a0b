use replicante::components::discovery::Config as DiscoveryConfig;
use replicante::components::discovery::EmissionTracker;
use replicante::components::discovery::ErrorKind as DiscoveryErrorKind;
use replicante::components::workers::configure_worker;
use replicante::components::workers::registration_failed;
use replicante::components::workers::TaskWorkers;
use replicante::components::workers::WorkerSetup;
use replicante::components::workers::Workers;
use replicante::config::events::StreamConfig;
use replicante::config::EventsConfig;
use replicante::config::LoggingConfig;
use replicante::config::LoggingLevel;
use replicante::config::SnapshotsConfig;
use replicante::config::TimeoutsConfig;
use replicante::interfaces::api::flag;
use replicante::interfaces::api::recent_events_options;
use replicante::interfaces::api::APIRoot;
use replicante::models::api::Version;
use replicante::tasks::ReplicanteQueues;
use replicante::Config;
use replicante::ErrorKind;

#[test]
fn defaults() {
    assert_eq!(SnapshotsConfig::default(), SnapshotsConfig { enabled: true, frequency: 60 });
    assert!(SnapshotsConfig::default_enabled());
    assert_eq!(SnapshotsConfig::default_frequency(), 60);
    assert_eq!(EventsConfig::default().stream, StreamConfig::Store);
    assert_eq!(DiscoveryConfig::default().interval, 60);
    assert_eq!(DiscoveryConfig::default_interval(), 60);
    assert_eq!(TimeoutsConfig::default().agents_api, 15);
    let config = Config::default();
    assert_eq!(config.logging.level, LoggingLevel::Info);
    assert!(!config.logging.verbose);
    assert!(config.task_workers.cluster_refresh());
}

#[test]
fn debug_applies_to_the_control_plane_unless_verbose() {
    let mut config = Config::default();
    config.logging.level = LoggingLevel::Debug;
    config.logging.modules.push(("hyper".into(), LoggingLevel::Warning));
    let out = config.transform();
    assert_eq!(out.logging.level, LoggingLevel::Info);
    assert_eq!(
        out.logging.modules,
        vec![
            ("hyper".to_string(), LoggingLevel::Warning),
            ("replicante".to_string(), LoggingLevel::Debug)
        ]
    );
    // A level that is set for the control plane stays.
    let logging = LoggingConfig {
        level: LoggingLevel::Debug,
        modules: vec![("replicante".into(), LoggingLevel::Error)],
        verbose: false,
    };
    let out = logging.transform();
    assert_eq!(out.level, LoggingLevel::Info);
    assert_eq!(out.modules, vec![("replicante".to_string(), LoggingLevel::Error)]);
    // Verbose debug is left alone, and so is any other level.
    let logging = LoggingConfig { level: LoggingLevel::Debug, modules: vec![], verbose: true };
    assert_eq!(logging.transform(), LoggingConfig { level: LoggingLevel::Debug, modules: vec![], verbose: true });
    let logging = LoggingConfig { level: LoggingLevel::Warning, modules: vec![], verbose: false };
    assert_eq!(logging.transform().level, LoggingLevel::Warning);
    assert_eq!(Config::default().transform(), Config::default());
}

#[test]
fn api_roots() {
    assert_eq!(APIRoot::UnstableAPI.prefix(), "/api/unstable");
    assert_eq!(APIRoot::UnstableIntrospect.prefix(), "/api/unstable/introspect");
    assert_eq!(APIRoot::UnstableWebUI.prefix(), "/api/unstable/webui");
    let none: Vec<(String, bool)> = vec![];
    let roots = [APIRoot::UnstableAPI, APIRoot::UnstableIntrospect, APIRoot::UnstableWebUI];
    for root in roots {
        assert!(root.enabled(&none));
    }
    let unstable_off = vec![("unstable".to_string(), false)];
    for root in roots {
        assert!(!root.enabled(&unstable_off));
    }
    let introspect_off = vec![("unstable".to_string(), true), ("introspect".to_string(), false)];
    assert!(APIRoot::UnstableAPI.enabled(&introspect_off));
    assert!(!APIRoot::UnstableIntrospect.enabled(&introspect_off));
    assert!(APIRoot::UnstableWebUI.enabled(&introspect_off));
    // The flag counts as off even if introspection is asked for.
    let both = vec![("introspect".to_string(), true), ("unstable".to_string(), false)];
    assert!(!APIRoot::UnstableIntrospect.enabled(&both));
    // The first flag of a name counts.
    let twice = vec![("unstable".to_string(), false), ("unstable".to_string(), true)];
    assert_eq!(flag(&twice, "unstable"), Some(false));
    assert_eq!(flag(&twice, "introspect"), None);
    let options = recent_events_options();
    assert_eq!(options.limit, Some(100));
    assert!(options.reverse);
}

#[test]
fn workers_follow_the_configuration() {
    assert!(TaskWorkers::default().cluster_refresh());
    assert!(!TaskWorkers { default: false, cluster_refresh: None }.cluster_refresh());
    assert!(TaskWorkers { default: false, cluster_refresh: Some(true) }.cluster_refresh());
    assert!(!TaskWorkers { default: true, cluster_refresh: Some(false) }.cluster_refresh());
    assert_eq!(
        configure_worker(ReplicanteQueues::ClusterRefresh, true),
        (WorkerSetup::Register, true)
    );
    assert_eq!(
        configure_worker(ReplicanteQueues::ClusterRefresh, false),
        (WorkerSetup::Skip, false)
    );
    let error = registration_failed(ReplicanteQueues::ClusterRefresh, "no broker");
    assert_eq!(error.kind(), &ErrorKind::TaskWorkerRegistration("cluster_refresh".into()));
    assert!(error.kind().is_fatal());
    assert_eq!(error.cause(), Some("no broker".to_string()));
    let mut workers = Workers::new(TaskWorkers::default());
    assert_eq!(workers.queues(), vec![ReplicanteQueues::ClusterRefresh]);
    workers.run().unwrap();
    let error = workers.run().unwrap_err();
    assert_eq!(error.kind(), &ErrorKind::ComponentAlreadyRunning("workers"));
    assert!(error.kind().is_fatal());
    assert!(!ErrorKind::Coordination.is_fatal());
    let idle = Workers::new(TaskWorkers { default: false, cluster_refresh: None });
    assert!(idle.queues().is_empty());
}

#[test]
fn snapshots_are_due_once_per_frequency() {
    let mut tracker = EmissionTracker::new(3);
    let due: Vec<bool> = (0..7).map(|_| tracker.snapshot("c1")).collect();
    assert_eq!(due, vec![false, false, true, false, false, true, false]);
    // Each cluster is counted on its own.
    assert!(!tracker.snapshot("c2"));
    assert!(!tracker.snapshot("c1"));
    assert!(tracker.snapshot("c1"));
    let mut always = EmissionTracker::new(1);
    assert!(always.snapshot("c1") && always.snapshot("c1"));
    let mut zero = EmissionTracker::new(0);
    assert!(zero.snapshot("c1") && zero.snapshot("c1"));
}

#[test]
fn error_kinds_have_names() {
    assert_eq!(DiscoveryErrorKind::Io("/a".into()).kind_name(), Some("Io"));
    assert_eq!(DiscoveryErrorKind::YamlFile("/a".into()).kind_name(), Some("YamlFile"));
    assert_eq!(ErrorKind::ClusterRefresh.kind_name(), Some("ClusterRefresh"));
    assert_eq!(ErrorKind::Deserialize("a", "b").kind_name(), Some("Deserialize"));
    assert_eq!(ErrorKind::ModelNotFound("Node", "n1".into()).kind_name(), Some("ModelNotFound"));
}

#[test]
fn version_holds_its_parts() {
    let version = Version::new("abc123", "clean", "0.3.0");
    assert_eq!(version.commit, "abc123");
    assert_eq!(version.taint, "clean");
    assert_eq!(version.version, "0.3.0");
    assert_eq!(version.clone(), version);
}
