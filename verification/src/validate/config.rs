//! Checks of the configuration.
use crate::text::concat2;
use crate::validate::outcome::Error;
use crate::validate::outcome::ErrorView;
use crate::validate::outcome::Outcomes;
use crate::validate::outcome::OutcomesView;
use crate::validate::outcome::Warning;
use crate::validate::outcome::WarningView;
use crate::validate::store::Report;
use vstd::prelude::*;

verus! {

/// The least seconds between two discovery runs that give rise to no warning.
pub const DISCOVERY_INTERVAL_THRESHOLD: u64 = 15;

/// What came of loading one file of discovered clusters.
#[derive(Debug, PartialEq, Eq)]
pub enum DiscoveryFile {
    /// The file was opened and decoded.
    Valid,
    /// The file at this path could not be opened.
    Unopenable(String),
    /// The file at this path was opened but cannot be decoded.
    Unparsable(String),
}

/// What a `DiscoveryFile` holds.
pub enum DiscoveryFileView {
    Valid,
    Unopenable(Seq<char>),
    Unparsable(Seq<char>),
}

impl View for DiscoveryFile {
    type V = DiscoveryFileView;

    open spec fn view(&self) -> DiscoveryFileView {
        match self {
            DiscoveryFile::Valid => DiscoveryFileView::Valid,
            DiscoveryFile::Unopenable(path) => DiscoveryFileView::Unopenable(path@),
            DiscoveryFile::Unparsable(path) => DiscoveryFileView::Unparsable(path@),
        }
    }
}

impl DeepView for DiscoveryFile {
    type V = DiscoveryFileView;

    open spec fn deep_view(&self) -> DiscoveryFileView {
        self@
    }
}

/// The warnings that the configuration itself gives rise to: one if the
/// discovery runs more often than is advised.
pub open spec fn config_warnings(discovery_interval: u64) -> Seq<WarningView> {
    if discovery_interval < DISCOVERY_INTERVAL_THRESHOLD {
        seq![
            WarningView::BelowThreshold(
                "'discovery.interval' is very frequent"@,
                discovery_interval,
                DISCOVERY_INTERVAL_THRESHOLD,
            ),
        ]
    } else {
        Seq::empty()
    }
}

/// The error that one file of discovered clusters gives rise to, if any.
pub open spec fn file_error(file: DiscoveryFileView) -> Option<ErrorView> {
    match file {
        DiscoveryFileView::Valid => None,
        DiscoveryFileView::Unopenable(path) => Some(
            ErrorView::GenericError("failed to open file discovery unit: "@ + path),
        ),
        DiscoveryFileView::Unparsable(path) => Some(
            ErrorView::UnableToParseModel("DiscoveryFile"@, path, "unable to parse model"@),
        ),
    }
}

/// The errors that the files of discovered clusters give rise to: one for
/// each file that could not be opened or decoded.
pub open spec fn file_errors(files: Seq<DiscoveryFileView>) -> Seq<ErrorView>
    decreases files.len(),
{
    if files.len() == 0 {
        Seq::empty()
    } else {
        let rest = file_errors(files.drop_last());
        match file_error(files.last()) {
            Some(error) => rest.push(error),
            None => rest,
        }
    }
}

/// Record what came of loading one file of discovered clusters.
pub fn check_discovery_file(file: &DiscoveryFile, outcomes: &mut Outcomes)
    ensures
        final(outcomes)@ == match file_error(file@) {
            Some(error) => OutcomesView {
                errors: old(outcomes)@.errors.push(error),
                ..old(outcomes)@
            },
            None => old(outcomes)@,
        },
{
    match file {
        DiscoveryFile::Valid => {},
        DiscoveryFile::Unopenable(path) => {
            outcomes.error(
                Error::GenericError(concat2("failed to open file discovery unit: ", path.as_str())),
            );
        },
        DiscoveryFile::Unparsable(path) => {
            outcomes.error(
                Error::UnableToParseModel(
                    "DiscoveryFile".to_owned(),
                    path.clone(),
                    "unable to parse model".to_owned(),
                ),
            );
        },
    }
}

/// Check the configuration for errors.
///
/// The configuration was loaded, and `files` holds what came of loading each
/// file of discovered clusters that it names. A discovery that runs more
/// often than every `DISCOVERY_INTERVAL_THRESHOLD` seconds gives a warning.
pub fn run(discovery_interval: u64, files: &Vec<DiscoveryFile>) -> (report: Report)
    ensures
        report.outcomes@ == (OutcomesView {
            errors: file_errors(files.deep_view()),
            warnings: config_warnings(discovery_interval),
        }),
        report.result == if file_errors(files.deep_view()).len() > 0 {
            Err::<(), &'static str>("configuration checks failed")
        } else {
            Ok::<(), &'static str>(())
        },
{
    let mut outcomes = Outcomes::new();
    if discovery_interval < DISCOVERY_INTERVAL_THRESHOLD {
        outcomes.warn(
            Warning::BelowThreshold(
                "'discovery.interval' is very frequent".to_owned(),
                discovery_interval,
                DISCOVERY_INTERVAL_THRESHOLD,
            ),
        );
    }
    assert(outcomes@.warnings =~= config_warnings(discovery_interval));
    let ghost all = files.deep_view();
    let mut i: usize = 0;
    assert(all.take(0) =~= Seq::<DiscoveryFileView>::empty());
    assert(outcomes@.errors =~= file_errors(all.take(0)));
    while i < files.len()
        invariant
            i <= files.len(),
            all == files.deep_view(),
            outcomes@.warnings == config_warnings(discovery_interval),
            outcomes@.errors == file_errors(all.take(i as int)),
        decreases files.len() - i,
    {
        proof {
            assert(all.take(i + 1).drop_last() =~= all.take(i as int));
            assert(all.take(i + 1).last() == files[i as int]@);
        }
        check_discovery_file(&files[i], &mut outcomes);
        i += 1;
    }
    assert(all.take(files.len() as int) =~= all);
    let result = if outcomes.has_errors() {
        Err("configuration checks failed")
    } else {
        Ok(())
    };
    Report { outcomes, result }
}

} // verus!
