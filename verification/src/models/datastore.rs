//! Data-store level models: nodes and the shards they hold.
use crate::text::clone_opt_string;
use vstd::prelude::*;

verus! {

/// The unit in which a commit offset is counted.
#[derive(Debug, PartialEq, Eq)]
pub enum CommitUnit {
    Seconds,
    Unit(String),
}

/// What a `CommitUnit` holds.
pub enum CommitUnitView {
    Seconds,
    Unit(Seq<char>),
}

impl View for CommitUnit {
    type V = CommitUnitView;

    open spec fn view(&self) -> CommitUnitView {
        match self {
            CommitUnit::Seconds => CommitUnitView::Seconds,
            CommitUnit::Unit(name) => CommitUnitView::Unit(name@),
        }
    }
}

impl Clone for CommitUnit {
    fn clone(&self) -> (out: Self)
        ensures
            out@ == self@,
    {
        match self {
            CommitUnit::Seconds => CommitUnit::Seconds,
            CommitUnit::Unit(name) => CommitUnit::Unit(name.clone()),
        }
    }
}

impl CommitUnit {
    /// Whether both hold the same unit.
    pub fn same(&self, other: &CommitUnit) -> (same: bool)
        ensures
            same == (self@ == other@),
    {
        match (self, other) {
            (CommitUnit::Seconds, CommitUnit::Seconds) => true,
            (CommitUnit::Unit(a), CommitUnit::Unit(b)) => *a == *b,
            _ => false,
        }
    }
}

/// How far a shard has committed, or how far it lags behind.
#[derive(Debug, PartialEq, Eq)]
pub struct CommitOffset {
    pub unit: CommitUnit,
    pub value: i64,
}

/// What a `CommitOffset` holds.
pub struct CommitOffsetView {
    pub unit: CommitUnitView,
    pub value: int,
}

impl View for CommitOffset {
    type V = CommitOffsetView;

    open spec fn view(&self) -> CommitOffsetView {
        CommitOffsetView { unit: self.unit@, value: self.value as int }
    }
}

impl DeepView for CommitOffset {
    type V = CommitOffsetView;

    open spec fn deep_view(&self) -> CommitOffsetView {
        self@
    }
}

impl Clone for CommitOffset {
    fn clone(&self) -> (out: Self)
        ensures
            out@ == self@,
    {
        CommitOffset { unit: self.unit.clone(), value: self.value }
    }
}

impl CommitOffset {
    /// An offset of `value` seconds.
    pub fn seconds(value: i64) -> (out: CommitOffset)
        ensures
            out@ == (CommitOffsetView { unit: CommitUnitView::Seconds, value: value as int }),
    {
        CommitOffset { unit: CommitUnit::Seconds, value }
    }

    /// An offset of `value` in a unit named `unit`.
    pub fn unit(unit: &str, value: i64) -> (out: CommitOffset)
        ensures
            out@ == (CommitOffsetView { unit: CommitUnitView::Unit(unit@), value: value as int }),
    {
        CommitOffset { unit: CommitUnit::Unit(unit.to_owned()), value }
    }

    /// Whether both hold the same unit and value.
    pub fn same(&self, other: &CommitOffset) -> (same: bool)
        ensures
            same == (self@ == other@),
    {
        self.unit.same(&other.unit) && self.value == other.value
    }
}

/// A copy of an optional offset.
pub fn clone_opt_offset(item: &Option<CommitOffset>) -> (out: Option<CommitOffset>)
    ensures
        out.deep_view() == item.deep_view(),
{
    match item {
        Some(offset) => Some(offset.clone()),
        None => None,
    }
}

/// Whether two optional offsets are both absent or hold the same offset.
pub fn same_opt_offset(a: &Option<CommitOffset>, b: &Option<CommitOffset>) -> (same: bool)
    ensures
        same == (a.deep_view() == b.deep_view()),
{
    match (a, b) {
        (Some(x), Some(y)) => x.same(y),
        (None, None) => true,
        _ => false,
    }
}

/// The part a node plays for a shard.
#[derive(Debug, PartialEq, Eq)]
pub enum ShardRole {
    Primary,
    Secondary,
    Unknown(String),
}

/// What a `ShardRole` holds.
pub enum ShardRoleView {
    Primary,
    Secondary,
    Unknown(Seq<char>),
}

impl View for ShardRole {
    type V = ShardRoleView;

    open spec fn view(&self) -> ShardRoleView {
        match self {
            ShardRole::Primary => ShardRoleView::Primary,
            ShardRole::Secondary => ShardRoleView::Secondary,
            ShardRole::Unknown(name) => ShardRoleView::Unknown(name@),
        }
    }
}

impl Clone for ShardRole {
    fn clone(&self) -> (out: Self)
        ensures
            out@ == self@,
    {
        match self {
            ShardRole::Primary => ShardRole::Primary,
            ShardRole::Secondary => ShardRole::Secondary,
            ShardRole::Unknown(name) => ShardRole::Unknown(name.clone()),
        }
    }
}

impl ShardRole {
    /// Whether both hold the same role.
    pub fn same(&self, other: &ShardRole) -> (same: bool)
        ensures
            same == (self@ == other@),
    {
        match (self, other) {
            (ShardRole::Primary, ShardRole::Primary) => true,
            (ShardRole::Secondary, ShardRole::Secondary) => true,
            (ShardRole::Unknown(a), ShardRole::Unknown(b)) => *a == *b,
            _ => false,
        }
    }

    /// Whether the role is `Primary`.
    pub fn is_primary(&self) -> (primary: bool)
        ensures
            primary == (self@ == ShardRoleView::Primary),
    {
        match self {
            ShardRole::Primary => true,
            _ => false,
        }
    }
}

/// The identity of a data-store node as its agent reports it.
#[derive(Debug, PartialEq, Eq)]
pub struct WireNode {
    pub cluster_display_name: Option<String>,
    pub cluster_id: String,
    pub kind: String,
    pub id: String,
    pub version: String,
}

/// What a `WireNode` holds.
pub struct WireNodeView {
    pub cluster_display_name: Option<Seq<char>>,
    pub cluster_id: Seq<char>,
    pub kind: Seq<char>,
    pub id: Seq<char>,
    pub version: Seq<char>,
}

impl View for WireNode {
    type V = WireNodeView;

    open spec fn view(&self) -> WireNodeView {
        WireNodeView {
            cluster_display_name: self.cluster_display_name.deep_view(),
            cluster_id: self.cluster_id@,
            kind: self.kind@,
            id: self.id@,
            version: self.version@,
        }
    }
}

impl DeepView for WireNode {
    type V = WireNodeView;

    open spec fn deep_view(&self) -> WireNodeView {
        self@
    }
}

impl Clone for WireNode {
    fn clone(&self) -> (out: Self)
        ensures
            out@ == self@,
    {
        WireNode {
            cluster_display_name: clone_opt_string(&self.cluster_display_name),
            cluster_id: self.cluster_id.clone(),
            kind: self.kind.clone(),
            id: self.id.clone(),
            version: self.version.clone(),
        }
    }
}

impl WireNode {
    /// A node's identity from its parts.
    pub fn new(
        cluster_display_name: Option<String>,
        cluster_id: &str,
        kind: &str,
        id: &str,
        version: &str,
    ) -> (out: WireNode)
        ensures
            out@ == (WireNodeView {
                cluster_display_name: cluster_display_name.deep_view(),
                cluster_id: cluster_id@,
                kind: kind@,
                id: id@,
                version: version@,
            }),
    {
        WireNode {
            cluster_display_name,
            cluster_id: cluster_id.to_owned(),
            kind: kind.to_owned(),
            id: id.to_owned(),
            version: version.to_owned(),
        }
    }
}

/// The identity of a data-store node. Its natural key is the cluster and the
/// node's identifier.
#[derive(Debug, PartialEq, Eq)]
pub struct Node {
    pub cluster_display_name: String,
    pub cluster_id: String,
    pub kind: String,
    pub node_id: String,
    pub version: String,
}

/// What a `Node` holds.
pub struct NodeView {
    pub cluster_display_name: Seq<char>,
    pub cluster_id: Seq<char>,
    pub kind: Seq<char>,
    pub node_id: Seq<char>,
    pub version: Seq<char>,
}

impl View for Node {
    type V = NodeView;

    open spec fn view(&self) -> NodeView {
        NodeView {
            cluster_display_name: self.cluster_display_name@,
            cluster_id: self.cluster_id@,
            kind: self.kind@,
            node_id: self.node_id@,
            version: self.version@,
        }
    }
}

impl DeepView for Node {
    type V = NodeView;

    open spec fn deep_view(&self) -> NodeView {
        self@
    }
}

impl Clone for Node {
    fn clone(&self) -> (out: Self)
        ensures
            out@ == self@,
    {
        Node {
            cluster_display_name: self.cluster_display_name.clone(),
            cluster_id: self.cluster_id.clone(),
            kind: self.kind.clone(),
            node_id: self.node_id.clone(),
            version: self.version.clone(),
        }
    }
}

/// The node record that stands for what an agent reported: the display name of
/// the cluster falls back to the cluster's identifier.
pub open spec fn node_of(wire: WireNodeView) -> NodeView {
    NodeView {
        cluster_display_name: match wire.cluster_display_name {
            Some(name) => name,
            None => wire.cluster_id,
        },
        cluster_id: wire.cluster_id,
        kind: wire.kind,
        node_id: wire.id,
        version: wire.version,
    }
}

impl Node {
    /// The node record for what an agent reported.
    pub fn new(node: WireNode) -> (out: Node)
        ensures
            out@ == node_of(node@),
    {
        let cluster_display_name = match node.cluster_display_name {
            Some(cluster_display_name) => cluster_display_name,
            None => node.cluster_id.clone(),
        };
        Node {
            cluster_display_name,
            cluster_id: node.cluster_id,
            kind: node.kind,
            node_id: node.id,
            version: node.version,
        }
    }

    /// Whether both records hold the same values.
    pub fn same(&self, other: &Node) -> (same: bool)
        ensures
            same == (self@ == other@),
    {
        self.cluster_display_name == other.cluster_display_name && self.cluster_id
            == other.cluster_id && self.kind == other.kind && self.node_id == other.node_id
            && self.version == other.version
    }
}

/// A shard on a node as the node's agent reports it.
#[derive(Debug, PartialEq, Eq)]
pub struct WireShard {
    pub id: String,
    pub role: ShardRole,
    pub commit_offset: Option<CommitOffset>,
    pub lag: Option<CommitOffset>,
}

/// What a `WireShard` holds.
pub struct WireShardView {
    pub id: Seq<char>,
    pub role: ShardRoleView,
    pub commit_offset: Option<CommitOffsetView>,
    pub lag: Option<CommitOffsetView>,
}

impl View for WireShard {
    type V = WireShardView;

    open spec fn view(&self) -> WireShardView {
        WireShardView {
            id: self.id@,
            role: self.role@,
            commit_offset: self.commit_offset.deep_view(),
            lag: self.lag.deep_view(),
        }
    }
}

impl DeepView for WireShard {
    type V = WireShardView;

    open spec fn deep_view(&self) -> WireShardView {
        self@
    }
}

impl Clone for WireShard {
    fn clone(&self) -> (out: Self)
        ensures
            out@ == self@,
    {
        WireShard {
            id: self.id.clone(),
            role: self.role.clone(),
            commit_offset: clone_opt_offset(&self.commit_offset),
            lag: clone_opt_offset(&self.lag),
        }
    }
}

impl WireShard {
    /// A reported shard from its parts.
    pub fn new(
        id: &str,
        role: ShardRole,
        commit_offset: Option<CommitOffset>,
        lag: Option<CommitOffset>,
    ) -> (out: WireShard)
        ensures
            out@ == (WireShardView {
                id: id@,
                role: role@,
                commit_offset: commit_offset.deep_view(),
                lag: lag.deep_view(),
            }),
    {
        WireShard { id: id.to_owned(), role, commit_offset, lag }
    }
}

/// A shard on a node. Its natural key is the cluster, the node and the shard's
/// identifier.
#[derive(Debug, PartialEq, Eq)]
pub struct Shard {
    pub cluster_id: String,
    pub commit_offset: Option<CommitOffset>,
    pub lag: Option<CommitOffset>,
    pub node_id: String,
    pub role: ShardRole,
    pub shard_id: String,
}

/// What a `Shard` holds.
pub struct ShardView {
    pub cluster_id: Seq<char>,
    pub commit_offset: Option<CommitOffsetView>,
    pub lag: Option<CommitOffsetView>,
    pub node_id: Seq<char>,
    pub role: ShardRoleView,
    pub shard_id: Seq<char>,
}

impl ShardView {
    /// Whether an attribute that is expected to stay the same between two
    /// refreshes differs: the role, or one of the identifiers. The commit
    /// offset and the lag are expected to move and do not count.
    pub open spec fn stable_differs(self, old: ShardView) -> bool {
        self.cluster_id != old.cluster_id || self.shard_id != old.shard_id || self.node_id
            != old.node_id || self.role != old.role
    }
}

impl View for Shard {
    type V = ShardView;

    open spec fn view(&self) -> ShardView {
        ShardView {
            cluster_id: self.cluster_id@,
            commit_offset: self.commit_offset.deep_view(),
            lag: self.lag.deep_view(),
            node_id: self.node_id@,
            role: self.role@,
            shard_id: self.shard_id@,
        }
    }
}

impl DeepView for Shard {
    type V = ShardView;

    open spec fn deep_view(&self) -> ShardView {
        self@
    }
}

impl Clone for Shard {
    fn clone(&self) -> (out: Self)
        ensures
            out@ == self@,
    {
        Shard {
            cluster_id: self.cluster_id.clone(),
            commit_offset: clone_opt_offset(&self.commit_offset),
            lag: clone_opt_offset(&self.lag),
            node_id: self.node_id.clone(),
            role: self.role.clone(),
            shard_id: self.shard_id.clone(),
        }
    }
}

/// The shard record that stands for what the agent of `node_id` in
/// `cluster_id` reported.
pub open spec fn shard_of(cluster_id: Seq<char>, node_id: Seq<char>, wire: WireShardView)
    -> ShardView {
    ShardView {
        cluster_id,
        commit_offset: wire.commit_offset,
        lag: wire.lag,
        node_id,
        role: wire.role,
        shard_id: wire.id,
    }
}

impl Shard {
    /// The shard record for what the agent of `node_id` in `cluster_id` reported.
    pub fn new(cluster_id: &str, node_id: &str, shard: WireShard) -> (out: Shard)
        ensures
            out@ == shard_of(cluster_id@, node_id@, shard@),
    {
        Shard {
            cluster_id: cluster_id.to_owned(),
            commit_offset: shard.commit_offset,
            lag: shard.lag,
            node_id: node_id.to_owned(),
            role: shard.role,
            shard_id: shard.id,
        }
    }

    /// Whether both records hold the same values.
    pub fn same(&self, other: &Shard) -> (same: bool)
        ensures
            same == (self@ == other@),
    {
        self.cluster_id == other.cluster_id && same_opt_offset(
            &self.commit_offset,
            &other.commit_offset,
        ) && same_opt_offset(&self.lag, &other.lag) && self.node_id == other.node_id
            && self.role.same(&other.role) && self.shard_id == other.shard_id
    }
}

} // verus!
