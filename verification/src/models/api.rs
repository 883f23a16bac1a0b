//! Models served by the API surface.
use vstd::prelude::*;

verus! {

/// Version information of a running control plane.
#[derive(Debug, PartialEq, Eq)]
pub struct Version {
    pub commit: String,
    pub taint: String,
    pub version: String,
}

/// What a `Version` holds.
pub struct VersionView {
    pub commit: Seq<char>,
    pub taint: Seq<char>,
    pub version: Seq<char>,
}

impl View for Version {
    type V = VersionView;

    open spec fn view(&self) -> VersionView {
        VersionView { commit: self.commit@, taint: self.taint@, version: self.version@ }
    }
}

impl Clone for Version {
    fn clone(&self) -> (out: Self)
        ensures
            out@ == self@,
    {
        Version {
            commit: self.commit.clone(),
            taint: self.taint.clone(),
            version: self.version.clone(),
        }
    }
}

impl Version {
    /// Version information from its three parts.
    pub fn new(commit: &str, taint: &str, version: &str) -> (out: Version)
        ensures
            out@ == (VersionView { commit: commit@, taint: taint@, version: version@ }),
    {
        Version { commit: commit.to_owned(), taint: taint.to_owned(), version: version.to_owned() }
    }
}

} // verus!
