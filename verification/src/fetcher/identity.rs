//! Every node of a cluster must report the identity of that cluster.
use crate::fetcher::error::Error;
use crate::fetcher::error::ErrorKind;
use crate::fetcher::error::ErrorKindView;
use crate::fetcher::error::ErrorView;
use crate::text::clone_opt_string;
use vstd::prelude::*;

verus! {

/// Checks what each node reports of its cluster against what is expected.
///
/// The identifier is known from discovery. The display name may be known from
/// discovery too; where it is not, the first node that reports one sets it
/// and the later nodes must report the same.
pub struct ClusterIdentityChecker {
    display_name: Option<String>,
    id: String,
}

/// What a `ClusterIdentityChecker` holds.
pub struct ClusterIdentityCheckerView {
    pub display_name: Option<Seq<char>>,
    pub id: Seq<char>,
}

impl ClusterIdentityCheckerView {
    /// The outcome of checking the cluster identifier that a node reports.
    pub open spec fn id_outcome(self, id: Seq<char>, node_id: Seq<char>) -> core::result::Result<
        (),
        ErrorView,
    > {
        if self.id == id {
            Ok(())
        } else {
            Err(
                ErrorView {
                    kind: ErrorKindView::ClusterIdDoesNotMatch(self.id, id, node_id),
                    cause: None,
                },
            )
        }
    }

    /// The outcome of checking the display name that a node reports.
    pub open spec fn display_name_outcome(self, display_name: Seq<char>, node_id: Seq<char>)
        -> core::result::Result<(), ErrorView> {
        match self.display_name {
            Some(current) if current != display_name => Err(
                ErrorView {
                    kind: ErrorKindView::ClusterDisplayNameDoesNotMatch(
                        current,
                        display_name,
                        node_id,
                    ),
                    cause: None,
                },
            ),
            _ => Ok(()),
        }
    }

    /// The checker after a node reported `display_name`: a checker without a
    /// display name takes the reported one, any other stays as it is.
    pub open spec fn with_display_name(self, display_name: Seq<char>) -> Self {
        match self.display_name {
            Some(_) => self,
            None => ClusterIdentityCheckerView { display_name: Some(display_name), ..self },
        }
    }
}

impl View for ClusterIdentityChecker {
    type V = ClusterIdentityCheckerView;

    closed spec fn view(&self) -> ClusterIdentityCheckerView {
        ClusterIdentityCheckerView { display_name: self.display_name.deep_view(), id: self.id@ }
    }
}

impl Clone for ClusterIdentityChecker {
    fn clone(&self) -> (out: Self)
        ensures
            out@ == self@,
    {
        ClusterIdentityChecker {
            display_name: clone_opt_string(&self.display_name),
            id: self.id.clone(),
        }
    }
}

/// The outcome as plain values, for contracts.
pub open spec fn outcome_view(outcome: core::result::Result<(), Error>) -> core::result::Result<
    (),
    ErrorView,
> {
    match outcome {
        Ok(_) => Ok(()),
        Err(error) => Err(error@),
    }
}

impl ClusterIdentityChecker {
    /// A checker for the cluster `id`, with the display name where it is known.
    pub fn new(id: String, display_name: Option<String>) -> (checker: ClusterIdentityChecker)
        ensures
            checker@ == (ClusterIdentityCheckerView {
                display_name: display_name.deep_view(),
                id: id@,
            }),
    {
        ClusterIdentityChecker { display_name, id }
    }

    /// Check the display name that the node `node_id` reports, or take it as
    /// the name of the cluster where none is known yet.
    pub fn check_or_set_display_name(&mut self, display_name: &str, node_id: &str) -> (outcome:
        core::result::Result<(), Error>)
        ensures
            outcome_view(outcome) == old(self)@.display_name_outcome(display_name@, node_id@),
            final(self)@ == old(self)@.with_display_name(display_name@),
    {
        match &self.display_name {
            None => {
                self.display_name = Some(display_name.to_owned());
                Ok(())
            },
            Some(current) => {
                if crate::text::str_eq(current.as_str(), display_name) {
                    return Ok(());
                }
                Err(
                    Error::new(
                        ErrorKind::ClusterDisplayNameDoesNotMatch(
                            current.clone(),
                            display_name.to_owned(),
                            node_id.to_owned(),
                        ),
                    ),
                )
            },
        }
    }

    /// Check the cluster identifier that the node `node_id` reports.
    pub fn check_id(&mut self, id: &str, node_id: &str) -> (outcome: core::result::Result<
        (),
        Error,
    >)
        ensures
            outcome_view(outcome) == old(self)@.id_outcome(id@, node_id@),
            final(self)@ == old(self)@,
    {
        if crate::text::str_eq(self.id.as_str(), id) {
            return Ok(());
        }
        Err(
            Error::new(
                ErrorKind::ClusterIdDoesNotMatch(
                    self.id.clone(),
                    id.to_owned(),
                    node_id.to_owned(),
                ),
            ),
        )
    }
}

} // verus!
