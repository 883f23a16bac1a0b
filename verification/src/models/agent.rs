//! Agent level models: the sidecar process that runs beside each node.
use vstd::prelude::*;

verus! {

/// What a refresh found of an agent and of the node behind it.
#[derive(Debug, PartialEq, Eq)]
pub enum AgentStatus {
    /// The agent and its node answer.
    Up,
    /// The agent cannot be used; the text says why.
    AgentDown(String),
    /// The agent answers but the node behind it does not; the text says why.
    NodeDown(String),
}

/// What an `AgentStatus` holds.
pub enum AgentStatusView {
    Up,
    AgentDown(Seq<char>),
    NodeDown(Seq<char>),
}

impl View for AgentStatus {
    type V = AgentStatusView;

    open spec fn view(&self) -> AgentStatusView {
        match self {
            AgentStatus::Up => AgentStatusView::Up,
            AgentStatus::AgentDown(message) => AgentStatusView::AgentDown(message@),
            AgentStatus::NodeDown(message) => AgentStatusView::NodeDown(message@),
        }
    }
}

impl DeepView for AgentStatus {
    type V = AgentStatusView;

    open spec fn deep_view(&self) -> AgentStatusView {
        self@
    }
}

impl Clone for AgentStatus {
    fn clone(&self) -> (out: Self)
        ensures
            out@ == self@,
    {
        match self {
            AgentStatus::Up => AgentStatus::Up,
            AgentStatus::AgentDown(message) => AgentStatus::AgentDown(message.clone()),
            AgentStatus::NodeDown(message) => AgentStatus::NodeDown(message.clone()),
        }
    }
}

impl AgentStatus {
    /// Whether both hold the same status and text.
    pub fn same(&self, other: &AgentStatus) -> (same: bool)
        ensures
            same == (self@ == other@),
    {
        match (self, other) {
            (AgentStatus::Up, AgentStatus::Up) => true,
            (AgentStatus::AgentDown(a), AgentStatus::AgentDown(b)) => *a == *b,
            (AgentStatus::NodeDown(a), AgentStatus::NodeDown(b)) => *a == *b,
            _ => false,
        }
    }
}

/// The record of one discovered agent. Its natural key is the cluster and the
/// host; every refresh overwrites it.
#[derive(Debug, PartialEq, Eq)]
pub struct Agent {
    pub cluster_id: String,
    pub host: String,
    pub status: AgentStatus,
}

/// What an `Agent` holds.
pub struct AgentView {
    pub cluster_id: Seq<char>,
    pub host: Seq<char>,
    pub status: AgentStatusView,
}

impl View for Agent {
    type V = AgentView;

    open spec fn view(&self) -> AgentView {
        AgentView { cluster_id: self.cluster_id@, host: self.host@, status: self.status@ }
    }
}

impl DeepView for Agent {
    type V = AgentView;

    open spec fn deep_view(&self) -> AgentView {
        self@
    }
}

impl Clone for Agent {
    fn clone(&self) -> (out: Self)
        ensures
            out@ == self@,
    {
        Agent {
            cluster_id: self.cluster_id.clone(),
            host: self.host.clone(),
            status: self.status.clone(),
        }
    }
}

impl Agent {
    /// The record of the agent at `host` in `cluster_id`.
    pub fn new(cluster_id: &str, host: &str, status: AgentStatus) -> (out: Agent)
        ensures
            out@ == (AgentView { cluster_id: cluster_id@, host: host@, status: status@ }),
    {
        Agent { cluster_id: cluster_id.to_owned(), host: host.to_owned(), status }
    }

    /// Whether both records hold the same values.
    pub fn same(&self, other: &Agent) -> (same: bool)
        ensures
            same == (self@ == other@),
    {
        self.cluster_id == other.cluster_id && self.host == other.host && self.status.same(
            &other.status,
        )
    }
}

/// Build information as an agent reports it.
#[derive(Debug, PartialEq, Eq)]
pub struct AgentVersion {
    pub checkout: String,
    pub number: String,
    pub taint: String,
}

/// What an `AgentVersion` holds.
pub struct AgentVersionView {
    pub checkout: Seq<char>,
    pub number: Seq<char>,
    pub taint: Seq<char>,
}

impl View for AgentVersion {
    type V = AgentVersionView;

    open spec fn view(&self) -> AgentVersionView {
        AgentVersionView { checkout: self.checkout@, number: self.number@, taint: self.taint@ }
    }
}

impl DeepView for AgentVersion {
    type V = AgentVersionView;

    open spec fn deep_view(&self) -> AgentVersionView {
        self@
    }
}

impl Clone for AgentVersion {
    fn clone(&self) -> (out: Self)
        ensures
            out@ == self@,
    {
        AgentVersion {
            checkout: self.checkout.clone(),
            number: self.number.clone(),
            taint: self.taint.clone(),
        }
    }
}

impl AgentVersion {
    /// Build information from its three parts.
    pub fn new(checkout: &str, number: &str, taint: &str) -> (out: AgentVersion)
        ensures
            out@ == (AgentVersionView { checkout: checkout@, number: number@, taint: taint@ }),
    {
        AgentVersion {
            checkout: checkout.to_owned(),
            number: number.to_owned(),
            taint: taint.to_owned(),
        }
    }
}

/// The build of an agent, keyed by cluster and host.
#[derive(Debug, PartialEq, Eq)]
pub struct AgentInfo {
    pub cluster_id: String,
    pub host: String,
    pub version_checkout: String,
    pub version_number: String,
    pub version_taint: String,
}

/// What an `AgentInfo` holds.
pub struct AgentInfoView {
    pub cluster_id: Seq<char>,
    pub host: Seq<char>,
    pub version_checkout: Seq<char>,
    pub version_number: Seq<char>,
    pub version_taint: Seq<char>,
}

impl View for AgentInfo {
    type V = AgentInfoView;

    open spec fn view(&self) -> AgentInfoView {
        AgentInfoView {
            cluster_id: self.cluster_id@,
            host: self.host@,
            version_checkout: self.version_checkout@,
            version_number: self.version_number@,
            version_taint: self.version_taint@,
        }
    }
}

impl DeepView for AgentInfo {
    type V = AgentInfoView;

    open spec fn deep_view(&self) -> AgentInfoView {
        self@
    }
}

impl Clone for AgentInfo {
    fn clone(&self) -> (out: Self)
        ensures
            out@ == self@,
    {
        AgentInfo {
            cluster_id: self.cluster_id.clone(),
            host: self.host.clone(),
            version_checkout: self.version_checkout.clone(),
            version_number: self.version_number.clone(),
            version_taint: self.version_taint.clone(),
        }
    }
}

impl AgentInfo {
    /// The record of the build that the agent at `host` in `cluster_id` reported.
    pub fn new(cluster_id: &str, host: &str, version: AgentVersion) -> (out: AgentInfo)
        ensures
            out@ == (AgentInfoView {
                cluster_id: cluster_id@,
                host: host@,
                version_checkout: version@.checkout,
                version_number: version@.number,
                version_taint: version@.taint,
            }),
    {
        AgentInfo {
            cluster_id: cluster_id.to_owned(),
            host: host.to_owned(),
            version_checkout: version.checkout,
            version_number: version.number,
            version_taint: version.taint,
        }
    }

    /// Whether both records hold the same values.
    pub fn same(&self, other: &AgentInfo) -> (same: bool)
        ensures
            same == (self@ == other@),
    {
        self.cluster_id == other.cluster_id && self.host == other.host && self.version_checkout
            == other.version_checkout && self.version_number == other.version_number
            && self.version_taint == other.version_taint
    }
}

} // verus!
