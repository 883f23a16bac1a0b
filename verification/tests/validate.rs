use replicante::coordinator::Error as CoordinatorError;
use replicante::coordinator::ErrorKind as CoordinatorErrorKind;
use replicante::validate::config::check_discovery_file;
use replicante::validate::config::DiscoveryFile;
use replicante::validate::outcome::Error;
use replicante::validate::outcome::ValidationResult;
use replicante::validate::outcome::Verdict;
use replicante::validate::outcome::Warning;
use replicante::validate::store::consume_results;
use replicante::validate::store::data;
use replicante::validate::store::scan_collection;
use replicante::validate::store::schema;
use replicante::validate::store::CollectionScan;
use replicante::validate::store::DataScans;
use replicante::validate::store::ScanItem;
use replicante::validate::Outcomes;

fn clean() -> CollectionScan {
    CollectionScan { count: Ok(2), items: Ok(vec![ScanItem::Valid, ScanItem::Valid]) }
}

fn scans() -> DataScans {
    DataScans {
        agents: clean(),
        agents_info: clean(),
        clusters_meta: clean(),
        cluster_discoveries: clean(),
        events: clean(),
        nodes: clean(),
        shards: clean(),
    }
}

#[test]
fn outcomes_collect_errors_and_warnings() {
    let mut outcomes = Outcomes::new();
    assert_eq!(outcomes.verdict(), Verdict::Passed);
    assert_eq!(outcomes.exit_code(), 0);
    assert!(!outcomes.has_errors() && !outcomes.has_warnings());
    outcomes.warn(Warning::BelowThreshold("low".into(), 1, 2));
    assert_eq!(outcomes.verdict(), Verdict::PassedWithWarnings);
    // A warning alone leaves the exit code at zero.
    assert_eq!(outcomes.exit_code(), 0);
    outcomes.error(Error::GenericError("boom".into()));
    assert_eq!(outcomes.verdict(), Verdict::Failed);
    assert_eq!(outcomes.exit_code(), 1);
    let mut other = Outcomes::new();
    other.error(Error::GenericError("second".into()));
    other.warn(Warning::BelowThreshold("lower".into(), 0, 2));
    outcomes.extend(other);
    assert_eq!(
        outcomes.errors(),
        &vec![Error::GenericError("boom".into()), Error::GenericError("second".into())]
    );
    assert_eq!(
        outcomes.warnings(),
        &vec![
            Warning::BelowThreshold("low".into(), 1, 2),
            Warning::BelowThreshold("lower".into(), 0, 2)
        ]
    );
}

#[test]
fn data_check_needs_confirmation() {
    let report = data(false, &scans());
    assert_eq!(report.result, Err("Operation aborded by the user"));
    assert_eq!(report.outcomes.verdict(), Verdict::Passed);
}

#[test]
fn data_check_passes_on_clean_collections() {
    let report = data(true, &scans());
    assert_eq!(report.result, Ok(()));
    assert!(report.outcomes.errors().is_empty());
    assert!(report.outcomes.warnings().is_empty());
}

#[test]
fn data_check_sorts_what_it_finds_by_model() {
    let mut scans = scans();
    scans.agents = CollectionScan { count: Err("count failed".into()), items: Ok(vec![ScanItem::Failed("unseen".into())]) };
    scans.clusters_meta = CollectionScan { count: Ok(1), items: Err("cursor failed".into()) };
    scans.nodes = CollectionScan {
        count: Ok(3),
        items: Ok(vec![
            ScanItem::Valid,
            ScanItem::Unparsable { id: "id-1".into(), message: "missing field".into() },
            ScanItem::Failed("read failed".into()),
        ]),
    };
    scans.shards = CollectionScan {
        count: Ok(1),
        items: Ok(vec![ScanItem::Unparsable { id: "id-2".into(), message: "bad role".into() }]),
    };
    let report = data(true, &scans);
    assert_eq!(report.result, Err("Store data checks failed"));
    assert_eq!(
        report.outcomes.errors(),
        &vec![
            Error::GenericError("count failed".into()),
            Error::GenericError("cursor failed".into()),
            Error::UnableToParseModel("Node".into(), "id-1".into(), "missing field".into()),
            Error::GenericError("read failed".into()),
            Error::UnableToParseModel("Shard".into(), "id-2".into(), "bad role".into()),
        ]
    );
    assert_eq!(report.outcomes.exit_code(), 1);
}

#[test]
fn scan_of_one_collection() {
    let mut outcomes = Outcomes::new();
    outcomes.error(Error::GenericError("earlier".into()));
    scan_collection(&clean(), "Agent", &mut outcomes);
    assert_eq!(outcomes.errors().len(), 1);
    let bad = CollectionScan {
        count: Ok(1),
        items: Ok(vec![ScanItem::Unparsable { id: "x".into(), message: "m".into() }]),
    };
    scan_collection(&bad, "Event", &mut outcomes);
    assert_eq!(
        outcomes.errors()[1],
        Error::UnableToParseModel("Event".into(), "x".into(), "m".into())
    );
}

#[test]
fn schema_findings_are_errors_or_warnings() {
    let error = ValidationResult::error("nodes", "index missing", "index");
    let warning = ValidationResult::result("old", "collection is no longer used", "removed");
    assert!(error.error && !warning.error);
    let mut outcomes = Outcomes::new();
    consume_results(vec![warning.clone(), error.clone(), warning.clone()], &mut outcomes);
    assert_eq!(outcomes.errors(), &vec![Error::StoreValidationError(error.clone())]);
    assert_eq!(
        outcomes.warnings(),
        &vec![
            Warning::StoreValidationWarning(warning.clone()),
            Warning::StoreValidationWarning(warning.clone())
        ]
    );
    let report = schema(Ok(vec![]), Ok(vec![warning.clone()]), Ok(vec![]));
    assert_eq!(report.result, Ok(()));
    assert_eq!(report.outcomes.verdict(), Verdict::PassedWithWarnings);
    assert_eq!(report.outcomes.exit_code(), 0);
    let report = schema(Ok(vec![error.clone()]), Err("no connection".into()), Err("gone".into()));
    assert_eq!(report.result, Err("Store schema checks failed"));
    assert_eq!(
        report.outcomes.errors(),
        &vec![
            Error::StoreValidationError(error),
            Error::GenericError("Failed to validate store indexes: no connection".into()),
            Error::GenericError(
                "Failed to check for removed collections or indexes: gone".into()
            ),
        ]
    );
    let report = schema(Err("x".into()), Ok(vec![]), Ok(vec![]));
    assert_eq!(
        report.outcomes.errors(),
        &vec![Error::GenericError("Failed to validate store schema: x".into())]
    );
}

#[test]
fn config_check_warns_below_the_threshold() {
    let report = replicante::validate::config::run(14, &vec![]);
    assert_eq!(report.result, Ok(()));
    assert_eq!(
        report.outcomes.warnings(),
        &vec![Warning::BelowThreshold("'discovery.interval' is very frequent".into(), 14, 15)]
    );
    assert_eq!(report.outcomes.exit_code(), 0);
    let report = replicante::validate::config::run(15, &vec![]);
    assert_eq!(report.outcomes.verdict(), Verdict::Passed);
    let report = replicante::validate::config::run(0, &vec![DiscoveryFile::Valid]);
    assert_eq!(report.outcomes.verdict(), Verdict::PassedWithWarnings);
}

#[test]
fn config_check_reports_discovery_files() {
    let files = vec![
        DiscoveryFile::Valid,
        DiscoveryFile::Unopenable("/etc/a.yaml".into()),
        DiscoveryFile::Unparsable("/etc/b.yaml".into()),
    ];
    let report = replicante::validate::config::run(60, &files);
    assert_eq!(report.result, Err("configuration checks failed"));
    assert_eq!(
        report.outcomes.errors(),
        &vec![
            Error::GenericError("failed to open file discovery unit: /etc/a.yaml".into()),
            Error::UnableToParseModel(
                "DiscoveryFile".into(),
                "/etc/b.yaml".into(),
                "unable to parse model".into()
            ),
        ]
    );
    let mut outcomes = Outcomes::new();
    check_discovery_file(&DiscoveryFile::Valid, &mut outcomes);
    assert!(!outcomes.has_errors());
}

#[test]
fn coordinator_check_turns_failures_into_generic_errors() {
    let mut outcomes = Outcomes::new();
    let fine: Result<u8, CoordinatorError> = Ok(1);
    replicante::validate::coordinator::check_item(&fine, &mut outcomes);
    assert!(!outcomes.has_errors());
    let bad: Result<u8, CoordinatorError> =
        Err(CoordinatorError::caused_by(CoordinatorErrorKind::Decode("node info"), "not json"));
    replicante::validate::coordinator::check_item(&bad, &mut outcomes);
    let bare: Result<u8, CoordinatorError> =
        Err(CoordinatorError::new(CoordinatorErrorKind::Backend("node read")));
    replicante::validate::coordinator::check_item(&bare, &mut outcomes);
    assert_eq!(
        outcomes.errors(),
        &vec![Error::GenericError("Decode: not json".into()), Error::GenericError("Backend".into())]
    );
    let report = replicante::validate::coordinator::run(true, outcomes);
    assert_eq!(report.result, Err("coordinator data checks failed"));
    let report = replicante::validate::coordinator::run(true, Outcomes::new());
    assert_eq!(report.result, Ok(()));
    let report = replicante::validate::coordinator::run(false, Outcomes::new());
    assert_eq!(report.result, Err("operation aborded by the user"));
}
