//! Checks of what the coordinator keeps: that every node and every lock can
//! be read.
use crate::coordinator::error::Error as CoordinatorError;
use crate::validate::outcome::Error;
use crate::validate::outcome::ErrorView;
use crate::validate::outcome::Outcomes;
use crate::validate::outcome::OutcomesView;
use crate::validate::store::Report;
use vstd::prelude::*;

verus! {

/// Record what a walk over the coordinator yielded for one entry: an entry
/// that could not be read or decoded becomes a single generic error, and an
/// entry that was read is passed over in silence.
pub fn check_item<T>(item: &core::result::Result<T, CoordinatorError>, outcomes: &mut Outcomes)
    ensures
        final(outcomes)@ == match item {
            Ok(_) => old(outcomes)@,
            Err(error) => OutcomesView {
                errors: old(outcomes)@.errors.push(ErrorView::GenericError(error@.display())),
                ..old(outcomes)@
            },
        },
{
    match item {
        Ok(_) => {},
        Err(error) => {
            outcomes.error(Error::GenericError(error.display()));
        },
    }
}

/// How the check of the coordinator ends, given whether the user confirmed
/// it and what was found: without the confirmation the check is refused, and
/// with it the check fails exactly when an error was found.
pub fn run(confirmed: bool, outcomes: Outcomes) -> (report: Report)
    ensures
        report.outcomes@ == outcomes@,
        report.result == if !confirmed {
            Err::<(), &'static str>("operation aborded by the user")
        } else if outcomes@.errors.len() > 0 {
            Err::<(), &'static str>("coordinator data checks failed")
        } else {
            Ok::<(), &'static str>(())
        },
{
    let result = if !confirmed {
        Err("operation aborded by the user")
    } else if outcomes.has_errors() {
        Err("coordinator data checks failed")
    } else {
        Ok(())
    };
    Report { outcomes, result }
}

} // verus!
