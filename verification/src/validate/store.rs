//! Checks of the primary store: that every record can be read, and that the
//! schema is as this version expects it.
use crate::text::concat3;
use crate::validate::outcome::Error;
use crate::validate::outcome::ErrorView;
use crate::validate::outcome::Outcomes;
use crate::validate::outcome::OutcomesView;
use crate::validate::outcome::ValidationResult;
use crate::validate::outcome::ValidationResultView;
use crate::validate::outcome::Warning;
use crate::validate::outcome::WarningView;
use vstd::prelude::*;

verus! {

pub const MODEL_AGENT: &'static str = "Agent";

pub const MODEL_AGENT_INFO: &'static str = "AgentInfo";

pub const MODEL_CLUSTER_META: &'static str = "ClusterMeta";

pub const MODEL_CLUSTER_DISCOVERY: &'static str = "ClusterDiscovery";

pub const MODEL_EVENT: &'static str = "Event";

pub const MODEL_NODE: &'static str = "Node";

pub const MODEL_SHARD: &'static str = "Shard";

/// What came of reading one record during a scan.
#[derive(Debug, PartialEq, Eq)]
pub enum ScanItem {
    /// The record was read and decoded.
    Valid,
    /// The record cannot be decoded: its identifier and the text that says why.
    Unparsable { id: String, message: String },
    /// Reading failed; the text says how.
    Failed(String),
}

/// What a `ScanItem` holds.
pub enum ScanItemView {
    Valid,
    Unparsable { id: Seq<char>, message: Seq<char> },
    Failed(Seq<char>),
}

impl View for ScanItem {
    type V = ScanItemView;

    open spec fn view(&self) -> ScanItemView {
        match self {
            ScanItem::Valid => ScanItemView::Valid,
            ScanItem::Unparsable { id, message } => ScanItemView::Unparsable {
                id: id@,
                message: message@,
            },
            ScanItem::Failed(message) => ScanItemView::Failed(message@),
        }
    }
}

impl DeepView for ScanItem {
    type V = ScanItemView;

    open spec fn deep_view(&self) -> ScanItemView {
        self@
    }
}

/// What came of scanning one collection: how many records it holds, and what
/// came of reading each. Either can fail as a whole, with the text that says
/// how.
#[derive(Debug, PartialEq, Eq)]
pub struct CollectionScan {
    pub count: core::result::Result<u64, String>,
    pub items: core::result::Result<Vec<ScanItem>, String>,
}

/// What a `CollectionScan` holds.
pub struct CollectionScanView {
    pub count: core::result::Result<u64, Seq<char>>,
    pub items: core::result::Result<Seq<ScanItemView>, Seq<char>>,
}

impl View for CollectionScan {
    type V = CollectionScanView;

    open spec fn view(&self) -> CollectionScanView {
        CollectionScanView {
            count: match self.count {
                Ok(count) => Ok(count),
                Err(message) => Err(message@),
            },
            items: crate::text::result_view(self.items),
        }
    }
}

/// The errors that the records of a collection give rise to: one for each
/// record that cannot be decoded and one for each read that failed. Records
/// that were read and decoded give rise to nothing.
pub open spec fn item_errors(items: Seq<ScanItemView>, collection: Seq<char>) -> Seq<ErrorView>
    decreases items.len(),
{
    if items.len() == 0 {
        Seq::empty()
    } else {
        let rest = item_errors(items.drop_last(), collection);
        match items.last() {
            ScanItemView::Valid => rest,
            ScanItemView::Unparsable { id, message } => rest.push(
                ErrorView::UnableToParseModel(collection, id, message),
            ),
            ScanItemView::Failed(message) => rest.push(ErrorView::GenericError(message)),
        }
    }
}

/// The errors that the scan of a collection gives rise to: a single one if
/// the records could not be counted or walked over at all, and else the
/// errors of the records.
pub open spec fn scan_errors(scan: CollectionScanView, collection: Seq<char>) -> Seq<ErrorView> {
    match scan.count {
        Err(message) => seq![ErrorView::GenericError(message)],
        Ok(_) => match scan.items {
            Err(message) => seq![ErrorView::GenericError(message)],
            Ok(items) => item_errors(items, collection),
        },
    }
}

/// Record what the scan of the collection `collection` found.
pub fn scan_collection(scan: &CollectionScan, collection: &str, outcomes: &mut Outcomes)
    ensures
        final(outcomes)@ == (OutcomesView {
            errors: old(outcomes)@.errors + scan_errors(scan@, collection@),
            ..old(outcomes)@
        }),
{
    let ghost before = outcomes@;
    match &scan.count {
        Ok(_) => {},
        Err(message) => {
            outcomes.error(Error::GenericError(message.clone()));
            assert(outcomes@.errors =~= before.errors + scan_errors(scan@, collection@));
            return ;
        },
    }
    let items = match &scan.items {
        Ok(items) => items,
        Err(message) => {
            outcomes.error(Error::GenericError(message.clone()));
            assert(outcomes@.errors =~= before.errors + scan_errors(scan@, collection@));
            return ;
        },
    };
    let ghost all = items.deep_view();
    let mut i: usize = 0;
    assert(all.take(0) =~= Seq::<ScanItemView>::empty());
    assert(outcomes@.errors =~= before.errors + item_errors(all.take(0), collection@));
    while i < items.len()
        invariant
            i <= items.len(),
            all == items.deep_view(),
            outcomes@.warnings == before.warnings,
            outcomes@.errors == before.errors + item_errors(all.take(i as int), collection@),
        decreases items.len() - i,
    {
        proof {
            assert(all.take(i + 1).drop_last() =~= all.take(i as int));
            assert(all.take(i + 1).last() == items[i as int]@);
        }
        let ghost shown = outcomes@.errors;
        match &items[i] {
            ScanItem::Valid => {},
            ScanItem::Unparsable { id, message } => {
                outcomes.error(
                    Error::UnableToParseModel(collection.to_owned(), id.clone(), message.clone()),
                );
                assert(outcomes@.errors =~= before.errors + item_errors(
                    all.take(i + 1),
                    collection@,
                ));
            },
            ScanItem::Failed(message) => {
                outcomes.error(Error::GenericError(message.clone()));
                assert(outcomes@.errors =~= before.errors + item_errors(
                    all.take(i + 1),
                    collection@,
                ));
            },
        }
        i += 1;
    }
    assert(all.take(items.len() as int) =~= all);
}

/// The scans of all the collections of the store.
#[derive(Debug, PartialEq, Eq)]
pub struct DataScans {
    pub agents: CollectionScan,
    pub agents_info: CollectionScan,
    pub clusters_meta: CollectionScan,
    pub cluster_discoveries: CollectionScan,
    pub events: CollectionScan,
    pub nodes: CollectionScan,
    pub shards: CollectionScan,
}

/// The errors that the scans of all the collections give rise to, model by model.
pub open spec fn data_errors(scans: &DataScans) -> Seq<ErrorView> {
    scan_errors(scans.agents@, MODEL_AGENT@) + scan_errors(scans.agents_info@, MODEL_AGENT_INFO@)
        + scan_errors(scans.clusters_meta@, MODEL_CLUSTER_META@) + scan_errors(
        scans.cluster_discoveries@,
        MODEL_CLUSTER_DISCOVERY@,
    ) + scan_errors(scans.events@, MODEL_EVENT@) + scan_errors(scans.nodes@, MODEL_NODE@)
        + scan_errors(scans.shards@, MODEL_SHARD@)
}

/// What a check reports: everything it found, and whether it passed. A
/// check fails exactly when it found an error; the text says which check.
pub struct Report {
    pub outcomes: Outcomes,
    pub result: core::result::Result<(), &'static str>,
}

/// Check ALL primary store content for compatibility with this version.
///
/// Each record of each model was loaded and decoded, and `scans` holds what
/// came of it. The scan touches everything the store holds, so the user must
/// have confirmed it: without the confirmation nothing is checked.
pub fn data(confirmed: bool, scans: &DataScans) -> (report: Report)
    ensures
        !confirmed ==> report.result == Err::<(), &'static str>("Operation aborded by the user")
            && report.outcomes@ == (OutcomesView { errors: Seq::empty(), warnings: Seq::empty() }),
        confirmed ==> report.outcomes@ == (OutcomesView {
            errors: data_errors(scans),
            warnings: Seq::empty(),
        }),
        confirmed && data_errors(scans).len() == 0 ==> report.result == Ok::<(), &'static str>(()),
        confirmed && data_errors(scans).len() > 0 ==> report.result == Err::<(), &'static str>(
            "Store data checks failed",
        ),
{
    let mut outcomes = Outcomes::new();
    if !confirmed {
        return Report { outcomes, result: Err("Operation aborded by the user") };
    }
    scan_collection(&scans.agents, MODEL_AGENT, &mut outcomes);
    scan_collection(&scans.agents_info, MODEL_AGENT_INFO, &mut outcomes);
    scan_collection(&scans.clusters_meta, MODEL_CLUSTER_META, &mut outcomes);
    scan_collection(&scans.cluster_discoveries, MODEL_CLUSTER_DISCOVERY, &mut outcomes);
    scan_collection(&scans.events, MODEL_EVENT, &mut outcomes);
    scan_collection(&scans.nodes, MODEL_NODE, &mut outcomes);
    scan_collection(&scans.shards, MODEL_SHARD, &mut outcomes);
    assert(outcomes@.errors =~= data_errors(scans));
    let result = if outcomes.has_errors() {
        Err("Store data checks failed")
    } else {
        Ok(())
    };
    Report { outcomes, result }
}

/// What was found after the findings `results` of the store were sorted: a
/// finding that is an error is recorded as an error, any other as a warning.
pub open spec fn consumed(outcomes: OutcomesView, results: Seq<ValidationResultView>)
    -> OutcomesView
    decreases results.len(),
{
    if results.len() == 0 {
        outcomes
    } else {
        let before = consumed(outcomes, results.drop_last());
        if results.last().error {
            OutcomesView {
                errors: before.errors.push(ErrorView::StoreValidationError(results.last())),
                ..before
            }
        } else {
            OutcomesView {
                warnings: before.warnings.push(
                    WarningView::StoreValidationWarning(results.last()),
                ),
                ..before
            }
        }
    }
}

/// Sort the findings of the store into errors and warnings.
pub fn consume_results(results: Vec<ValidationResult>, outcomes: &mut Outcomes)
    ensures
        final(outcomes)@ == consumed(old(outcomes)@, results.deep_view()),
{
    let ghost all = results.deep_view();
    let ghost before = outcomes@;
    let mut i: usize = 0;
    assert(all.take(0) =~= Seq::<ValidationResultView>::empty());
    while i < results.len()
        invariant
            i <= results.len(),
            all == results.deep_view(),
            outcomes@ == consumed(before, all.take(i as int)),
        decreases results.len() - i,
    {
        proof {
            assert(all.take(i + 1).drop_last() =~= all.take(i as int));
            assert(all.take(i + 1).last() == results[i as int]@);
        }
        let result = results[i].clone();
        if result.error {
            outcomes.error(Error::StoreValidationError(result));
        } else {
            outcomes.warn(Warning::StoreValidationWarning(result));
        }
        i += 1;
    }
    assert(all.take(results.len() as int) =~= all);
}

/// What was found after one part of the schema check: the findings of the
/// store sorted into errors and warnings, or a single error if the check
/// itself failed, made of `failure` and the text that says how it failed.
pub open spec fn checked(
    outcomes: OutcomesView,
    check: core::result::Result<Seq<ValidationResultView>, Seq<char>>,
    failure: Seq<char>,
) -> OutcomesView {
    match check {
        Ok(results) => consumed(outcomes, results),
        Err(cause) => OutcomesView {
            errors: outcomes.errors.push(ErrorView::GenericError(failure + ": "@ + cause)),
            ..outcomes
        },
    }
}

fn check_part(
    check: core::result::Result<Vec<ValidationResult>, String>,
    failure: &'static str,
    outcomes: &mut Outcomes,
)
    ensures
        final(outcomes)@ == checked(old(outcomes)@, crate::text::result_view(check), failure@),
{
    match check {
        Ok(results) => consume_results(results, outcomes),
        Err(cause) => {
            outcomes.error(Error::GenericError(concat3(failure, ": ", cause.as_str())));
        },
    }
}

/// Check the primary store schema compatibility with this version.
///
/// The store checked that all needed collections exist with the right
/// schema, that all needed and advised indexes exist, and that nothing that
/// was removed is left; the arguments hold what came of each.
pub fn schema(
    collections: core::result::Result<Vec<ValidationResult>, String>,
    indexes: core::result::Result<Vec<ValidationResult>, String>,
    removed: core::result::Result<Vec<ValidationResult>, String>,
) -> (report: Report)
    ensures
        report.outcomes@ == checked(
            checked(
                checked(
                    OutcomesView { errors: Seq::empty(), warnings: Seq::empty() },
                    crate::text::result_view(collections),
                    "Failed to validate store schema"@,
                ),
                crate::text::result_view(indexes),
                "Failed to validate store indexes"@,
            ),
            crate::text::result_view(removed),
            "Failed to check for removed collections or indexes"@,
        ),
        report.outcomes@.errors.len() == 0 ==> report.result == Ok::<(), &'static str>(()),
        report.outcomes@.errors.len() > 0 ==> report.result == Err::<(), &'static str>(
            "Store schema checks failed",
        ),
{
    let mut outcomes = Outcomes::new();
    check_part(collections, "Failed to validate store schema", &mut outcomes);
    check_part(indexes, "Failed to validate store indexes", &mut outcomes);
    check_part(removed, "Failed to check for removed collections or indexes", &mut outcomes);
    let result = if outcomes.has_errors() {
        Err("Store schema checks failed")
    } else {
        Ok(())
    };
    Report { outcomes, result }
}

} // verus!
