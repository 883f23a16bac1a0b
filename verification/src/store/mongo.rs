//! What the primary store asks of a MongoDB database.
//!
//! Nothing here talks to the database. Each operation is described as a plain
//! value: the collection, the filter that selects the records, and how the
//! records are ordered and limited. Every model is written under the filter
//! that holds its natural key, with an upsert, so that the database keeps at
//! most one record for each key.
use crate::models::agent::Agent;
use crate::models::agent::AgentInfo;
use crate::models::cluster::ClusterDiscovery;
use crate::models::cluster::ClusterMeta;
use crate::models::datastore::Node;
use crate::models::datastore::Shard;
use crate::store::error::Error;
use crate::store::error::ErrorKind;
use vstd::prelude::*;

verus! {

pub const COLLECTION_AGENTS: &'static str = "agents";

pub const COLLECTION_AGENTS_INFO: &'static str = "agents_info";

pub const COLLECTION_CLUSTER_META: &'static str = "clusters_meta";

pub const COLLECTION_DISCOVERIES: &'static str = "discoveries";

pub const COLLECTION_EVENTS: &'static str = "events";

pub const COLLECTION_NODES: &'static str = "nodes";

pub const COLLECTION_SHARDS: &'static str = "shards";

/// The most clusters that the list of the largest clusters holds.
pub const TOP_CLUSTERS_LIMIT: u32 = 10;

/// The identifier that stands for a record that has none.
pub const NO_ID: &'static str = "<NO ID>";

/// Whether a character has a meaning of its own in a regular expression.
pub open spec fn is_meta_character(c: char) -> bool {
    c == '\\' || c == '.' || c == '+' || c == '*' || c == '?' || c == '(' || c == ')' || c == '|'
        || c == '[' || c == ']' || c == '{' || c == '}' || c == '^' || c == '$' || c == '#' || c
        == '&' || c == '-' || c == '~'
}

/// `text` with a backslash before each character that has a meaning of its
/// own in a regular expression.
pub open spec fn escaped(text: Seq<char>) -> Seq<char>
    decreases text.len(),
{
    if text.len() == 0 {
        Seq::empty()
    } else if is_meta_character(text.last()) {
        escaped(text.drop_last()).push('\\').push(text.last())
    } else {
        escaped(text.drop_last()).push(text.last())
    }
}

/// Trusted: `regex::escape`.
///
/// The crate goes over the characters of the text in order and copies each
/// to the result, after a backslash if `regex_syntax::is_meta_character`
/// holds of it. That function holds of exactly the eighteen characters that
/// `is_meta_character` lists here.
#[verifier::external_body]
fn regex_escape(text: &str) -> (out: String)
    ensures
        out@ == escaped(text@),
{
    regex::escape(text)
}

/// What a filter asks of one field.
#[derive(Debug, PartialEq, Eq)]
pub enum Condition {
    /// The field holds this text.
    Equals(String),
    /// The field holds this flag.
    Flag(bool),
    /// The field matches this regular expression, under these options.
    Regex { pattern: String, options: String },
}

/// What a `Condition` holds.
pub enum ConditionView {
    Equals(Seq<char>),
    Flag(bool),
    Regex { pattern: Seq<char>, options: Seq<char> },
}

impl View for Condition {
    type V = ConditionView;

    open spec fn view(&self) -> ConditionView {
        match self {
            Condition::Equals(text) => ConditionView::Equals(text@),
            Condition::Flag(flag) => ConditionView::Flag(*flag),
            Condition::Regex { pattern, options } => ConditionView::Regex {
                pattern: pattern@,
                options: options@,
            },
        }
    }
}

impl DeepView for Condition {
    type V = ConditionView;

    open spec fn deep_view(&self) -> ConditionView {
        self@
    }
}

/// How records are ordered by one field.
#[derive(Clone, Copy, Debug, PartialEq, Eq, Structural)]
pub enum Direction {
    Ascending,
    Descending,
}

impl View for Direction {
    type V = Direction;

    open spec fn view(&self) -> Direction {
        *self
    }
}

impl DeepView for Direction {
    type V = Direction;

    open spec fn deep_view(&self) -> Direction {
        *self
    }
}

/// A query: the collection, the conditions that a record must meet, field by
/// field, the fields by which the records are ordered, and the most records
/// to return.
#[derive(Debug, PartialEq, Eq)]
pub struct Query {
    pub collection: String,
    pub filter: Vec<(String, Condition)>,
    pub sort: Vec<(String, Direction)>,
    pub limit: Option<i64>,
}

/// What a `Query` holds.
pub struct QueryView {
    pub collection: Seq<char>,
    pub filter: Seq<(Seq<char>, ConditionView)>,
    pub sort: Seq<(Seq<char>, Direction)>,
    pub limit: Option<i64>,
}

impl View for Query {
    type V = QueryView;

    open spec fn view(&self) -> QueryView {
        QueryView {
            collection: self.collection@,
            filter: self.filter.deep_view(),
            sort: self.sort.deep_view(),
            limit: self.limit,
        }
    }
}

/// The query for the records of `collection` whose fields hold the given texts.
pub open spec fn keyed(collection: Seq<char>, key: Seq<(Seq<char>, Seq<char>)>) -> QueryView {
    QueryView {
        collection,
        filter: Seq::new(key.len(), |i: int| (key[i].0, ConditionView::Equals(key[i].1))),
        sort: Seq::empty(),
        limit: None,
    }
}

fn by_one(collection: &str, field: &str, value: &String) -> (query: Query)
    ensures
        query@ == keyed(collection@, seq![(field@, value@)]),
{
    let mut filter: Vec<(String, Condition)> = Vec::new();
    filter.push((field.to_owned(), Condition::Equals(value.clone())));
    let sort: Vec<(String, Direction)> = Vec::new();
    assert(sort.deep_view() =~= Seq::empty());
    let query = Query { collection: collection.to_owned(), filter, sort, limit: None };
    assert(query@.filter =~= keyed(collection@, seq![(field@, value@)]).filter);
    query
}

fn by_two(collection: &str, first: &str, a: &String, second: &str, b: &String) -> (query: Query)
    ensures
        query@ == keyed(collection@, seq![(first@, a@), (second@, b@)]),
{
    let mut filter: Vec<(String, Condition)> = Vec::new();
    filter.push((first.to_owned(), Condition::Equals(a.clone())));
    filter.push((second.to_owned(), Condition::Equals(b.clone())));
    let sort: Vec<(String, Direction)> = Vec::new();
    assert(sort.deep_view() =~= Seq::empty());
    let query = Query { collection: collection.to_owned(), filter, sort, limit: None };
    assert(query@.filter =~= keyed(collection@, seq![(first@, a@), (second@, b@)]).filter);
    query
}

fn by_three(
    collection: &str,
    first: &str,
    a: &String,
    second: &str,
    b: &String,
    third: &str,
    c: &String,
) -> (query: Query)
    ensures
        query@ == keyed(collection@, seq![(first@, a@), (second@, b@), (third@, c@)]),
{
    let mut filter: Vec<(String, Condition)> = Vec::new();
    filter.push((first.to_owned(), Condition::Equals(a.clone())));
    filter.push((second.to_owned(), Condition::Equals(b.clone())));
    filter.push((third.to_owned(), Condition::Equals(c.clone())));
    let sort: Vec<(String, Direction)> = Vec::new();
    assert(sort.deep_view() =~= Seq::empty());
    let query = Query { collection: collection.to_owned(), filter, sort, limit: None };
    assert(query@.filter =~= keyed(
        collection@,
        seq![(first@, a@), (second@, b@), (third@, c@)],
    ).filter);
    query
}

/// Persistence operations on a MongoDB database: under which natural key
/// each model is written. Every write replaces the record under the key or
/// inserts one.
pub struct Persist {
    db: String,
}

impl Persist {
    /// The name of the database.
    pub closed spec fn db(&self) -> Seq<char> {
        self.db@
    }

    /// The persistence operations on the database `db`.
    pub fn new(db: String) -> (persist: Persist)
        ensures
            persist.db() == db@,
    {
        Persist { db }
    }

    /// Where and under which key the record of an agent is written.
    pub fn agent(&self, agent: &Agent) -> (query: Query)
        ensures
            query@ == keyed(
                COLLECTION_AGENTS@,
                seq![("cluster_id"@, agent@.cluster_id), ("host"@, agent@.host)],
            ),
    {
        by_two(COLLECTION_AGENTS, "cluster_id", &agent.cluster_id, "host", &agent.host)
    }

    /// Where and under which key the record of the build of an agent is written.
    pub fn agent_info(&self, agent: &AgentInfo) -> (query: Query)
        ensures
            query@ == keyed(
                COLLECTION_AGENTS_INFO@,
                seq![("cluster_id"@, agent@.cluster_id), ("host"@, agent@.host)],
            ),
    {
        by_two(COLLECTION_AGENTS_INFO, "cluster_id", &agent.cluster_id, "host", &agent.host)
    }

    /// Where and under which key the discovery record of a cluster is written.
    pub fn cluster_discovery(&self, discovery: &ClusterDiscovery) -> (query: Query)
        ensures
            query@ == keyed(COLLECTION_DISCOVERIES@, seq![("cluster_id"@, discovery@.cluster_id)]),
    {
        by_one(COLLECTION_DISCOVERIES, "cluster_id", &discovery.cluster_id)
    }

    /// Where and under which key the metadata of a cluster is written.
    pub fn cluster_meta(&self, meta: &ClusterMeta) -> (query: Query)
        ensures
            query@ == keyed(COLLECTION_CLUSTER_META@, seq![("cluster_id"@, meta@.cluster_id)]),
    {
        by_one(COLLECTION_CLUSTER_META, "cluster_id", &meta.cluster_id)
    }

    /// Where and under which key the record of a node is written.
    pub fn node(&self, node: &Node) -> (query: Query)
        ensures
            query@ == keyed(
                COLLECTION_NODES@,
                seq![("cluster_id"@, node@.cluster_id), ("node_id"@, node@.node_id)],
            ),
    {
        by_two(COLLECTION_NODES, "cluster_id", &node.cluster_id, "node_id", &node.node_id)
    }

    /// Where and under which key the record of a shard is written.
    pub fn shard(&self, shard: &Shard) -> (query: Query)
        ensures
            query@ == keyed(
                COLLECTION_SHARDS@,
                seq![
                    ("cluster_id"@, shard@.cluster_id),
                    ("node_id"@, shard@.node_id),
                    ("shard_id"@, shard@.shard_id),
                ],
            ),
    {
        by_three(
            COLLECTION_SHARDS,
            "cluster_id",
            &shard.cluster_id,
            "node_id",
            &shard.node_id,
            "shard_id",
            &shard.shard_id,
        )
    }
}

/// The query that walks over every record of `collection` in the order of
/// the identifiers that the database gave them.
pub open spec fn scan_of(collection: Seq<char>) -> QueryView {
    QueryView {
        collection,
        filter: Seq::empty(),
        sort: seq![("_id"@, Direction::Ascending)],
        limit: None,
    }
}

/// Scan all documents in a collection.
///
/// Intended for data validation purposes.
pub fn scan_collection(collection: &str) -> (query: Query)
    ensures
        query@ == scan_of(collection@),
{
    let filter: Vec<(String, Condition)> = Vec::new();
    let mut sort: Vec<(String, Direction)> = Vec::new();
    sort.push(("_id".to_owned(), Direction::Ascending));
    let query = Query { collection: collection.to_owned(), filter, sort, limit: None };
    assert(query@.filter =~= scan_of(collection@).filter);
    assert(query@.sort =~= scan_of(collection@).sort);
    query
}

/// Data admin operations on a MongoDB database.
pub struct Data {
    db: String,
}

impl Data {
    /// The name of the database.
    pub closed spec fn db(&self) -> Seq<char> {
        self.db@
    }

    /// The data admin operations on the database `db`.
    pub fn new(db: String) -> (data: Data)
        ensures
            data.db() == db@,
    {
        Data { db }
    }

    /// The walk over all agents.
    pub fn agents(&self) -> (query: Query)
        ensures
            query@ == scan_of(COLLECTION_AGENTS@),
    {
        scan_collection(COLLECTION_AGENTS)
    }

    /// The walk over the builds of all agents.
    pub fn agents_info(&self) -> (query: Query)
        ensures
            query@ == scan_of(COLLECTION_AGENTS_INFO@),
    {
        scan_collection(COLLECTION_AGENTS_INFO)
    }

    /// The walk over all discovery records.
    pub fn cluster_discoveries(&self) -> (query: Query)
        ensures
            query@ == scan_of(COLLECTION_DISCOVERIES@),
    {
        scan_collection(COLLECTION_DISCOVERIES)
    }

    /// The walk over the metadata of all clusters.
    pub fn clusters_meta(&self) -> (query: Query)
        ensures
            query@ == scan_of(COLLECTION_CLUSTER_META@),
    {
        scan_collection(COLLECTION_CLUSTER_META)
    }

    /// The walk over all events.
    pub fn events(&self) -> (query: Query)
        ensures
            query@ == scan_of(COLLECTION_EVENTS@),
    {
        scan_collection(COLLECTION_EVENTS)
    }

    /// The walk over all nodes.
    pub fn nodes(&self) -> (query: Query)
        ensures
            query@ == scan_of(COLLECTION_NODES@),
    {
        scan_collection(COLLECTION_NODES)
    }

    /// The walk over all shards.
    pub fn shards(&self) -> (query: Query)
        ensures
            query@ == scan_of(COLLECTION_SHARDS@),
    {
        scan_collection(COLLECTION_SHARDS)
    }
}

/// The query for up to `limit` clusters whose identifier holds `escaped_search`,
/// which is the text that was searched for with its special characters
/// escaped, in upper or lower case.
pub open spec fn clusters_matching(escaped_search: Seq<char>, limit: u8) -> QueryView {
    QueryView {
        collection: COLLECTION_CLUSTER_META@,
        filter: seq![
            (
                "cluster_id"@,
                ConditionView::Regex { pattern: escaped_search, options: "i"@ },
            ),
        ],
        sort: Seq::empty(),
        limit: Some(limit as i64),
    }
}

/// The query for the largest clusters: most nodes first, and by identifier
/// among clusters with the same number of nodes.
pub open spec fn largest_clusters() -> QueryView {
    QueryView {
        collection: COLLECTION_CLUSTER_META@,
        filter: Seq::empty(),
        sort: seq![("nodes"@, Direction::Descending), ("cluster_id"@, Direction::Ascending)],
        limit: Some(TOP_CLUSTERS_LIMIT as i64),
    }
}

/// Subset of the store operations that deals with clusters.
pub struct ClusterStore {
    db: String,
}

impl ClusterStore {
    /// The name of the database.
    pub closed spec fn db(&self) -> Seq<char> {
        self.db@
    }

    /// The cluster operations on the database `db`.
    pub fn new(db: String) -> (store: ClusterStore)
        ensures
            store.db() == db@,
    {
        ClusterStore { db }
    }

    /// The query for the discovery record of `cluster`.
    pub fn cluster_discovery(&self, cluster: &String) -> (query: Query)
        ensures
            query@ == keyed(COLLECTION_DISCOVERIES@, seq![("cluster_id"@, cluster@)]),
    {
        by_one(COLLECTION_DISCOVERIES, "cluster_id", cluster)
    }

    /// The query for the metadata of `cluster`.
    pub fn cluster_meta(&self, cluster: &String) -> (query: Query)
        ensures
            query@ == keyed(COLLECTION_CLUSTER_META@, seq![("cluster_id"@, cluster@)]),
    {
        by_one(COLLECTION_CLUSTER_META, "cluster_id", cluster)
    }

    /// The query for up to `limit` clusters whose identifier holds the text
    /// that was searched for and already escaped.
    pub fn find_escaped(&self, escaped_search: String, limit: u8) -> (query: Query)
        ensures
            query@ == clusters_matching(escaped_search@, limit),
    {
        let mut filter: Vec<(String, Condition)> = Vec::new();
        filter.push(
            (
                "cluster_id".to_owned(),
                Condition::Regex { pattern: escaped_search, options: "i".to_owned() },
            ),
        );
        let sort: Vec<(String, Direction)> = Vec::new();
        let query = Query {
            collection: COLLECTION_CLUSTER_META.to_owned(),
            filter,
            sort,
            limit: Some(limit as i64),
        };
        assert(query@.filter =~= clusters_matching(escaped_search@, limit).filter);
        assert(query@.sort =~= clusters_matching(escaped_search@, limit).sort);
        query
    }

    /// The query for up to `limit` clusters whose identifier holds `search`,
    /// in upper or lower case. The text is matched as it stands: characters
    /// that have a meaning of their own in a regular expression are escaped.
    pub fn find_clusters(&self, search: &str, limit: u8) -> (query: Query)
        ensures
            query@ == clusters_matching(escaped(search@), limit),
    {
        let search = regex_escape(search);
        self.find_escaped(search, limit)
    }

    /// The query for the largest clusters.
    pub fn top_clusters(&self) -> (query: Query)
        ensures
            query@ == largest_clusters(),
    {
        let filter: Vec<(String, Condition)> = Vec::new();
        let mut sort: Vec<(String, Direction)> = Vec::new();
        sort.push(("nodes".to_owned(), Direction::Descending));
        sort.push(("cluster_id".to_owned(), Direction::Ascending));
        let query = Query {
            collection: COLLECTION_CLUSTER_META.to_owned(),
            filter,
            sort,
            limit: Some(TOP_CLUSTERS_LIMIT as i64),
        };
        assert(query@.filter =~= largest_clusters().filter);
        assert(query@.sort =~= largest_clusters().sort);
        query
    }

    /// Where and under which key the metadata of a cluster is written.
    pub fn persist_cluster_meta(&self, meta: &ClusterMeta) -> (query: Query)
        ensures
            query@ == keyed(COLLECTION_CLUSTER_META@, seq![("cluster_id"@, meta@.cluster_id)]),
    {
        by_one(COLLECTION_CLUSTER_META, "cluster_id", &meta.cluster_id)
    }

    /// Where and under which key the discovery record of a cluster is written.
    pub fn persist_discovery(&self, cluster: &ClusterDiscovery) -> (query: Query)
        ensures
            query@ == keyed(COLLECTION_DISCOVERIES@, seq![("cluster_id"@, cluster@.cluster_id)]),
    {
        by_one(COLLECTION_DISCOVERIES, "cluster_id", &cluster.cluster_id)
    }
}

/// The query for the shards of `cluster_id` that are not stale: the records
/// that the counts of the cluster are made of.
pub open spec fn fresh_shards(cluster_id: Seq<char>) -> QueryView {
    QueryView {
        collection: COLLECTION_SHARDS@,
        filter: seq![
            ("cluster_id"@, ConditionView::Equals(cluster_id)),
            ("stale"@, ConditionView::Flag(false)),
        ],
        sort: Seq::empty(),
        limit: None,
    }
}

/// Shards operations on a MongoDB database.
pub struct Shards {
    db: String,
}

impl Shards {
    /// The name of the database.
    pub closed spec fn db(&self) -> Seq<char> {
        self.db@
    }

    /// The shards operations on the database `db`.
    pub fn new(db: String) -> (shards: Shards)
        ensures
            shards.db() == db@,
    {
        Shards { db }
    }

    /// The query for the records that the counts of a cluster are made of:
    /// its shards that are not stale. The database counts each shard once
    /// across all nodes, and once more if any node is its primary.
    pub fn counts(&self, attrs: &crate::store::shards::ShardsAttribures) -> (query: Query)
        ensures
            query@ == fresh_shards(attrs.cluster_id@),
    {
        let mut filter: Vec<(String, Condition)> = Vec::new();
        filter.push(("cluster_id".to_owned(), Condition::Equals(attrs.cluster_id.clone())));
        filter.push(("stale".to_owned(), Condition::Flag(false)));
        let sort: Vec<(String, Direction)> = Vec::new();
        let query = Query { collection: COLLECTION_SHARDS.to_owned(), filter, sort, limit: None };
        assert(query@.filter =~= fresh_shards(attrs.cluster_id@).filter);
        assert(query@.sort =~= fresh_shards(attrs.cluster_id@).sort);
        query
    }

    /// The query for all the shards of a cluster.
    pub fn iter(&self, attrs: &crate::store::shards::ShardsAttribures) -> (query: Query)
        ensures
            query@ == keyed(COLLECTION_SHARDS@, seq![("cluster_id"@, attrs.cluster_id@)]),
    {
        by_one(COLLECTION_SHARDS, "cluster_id", &attrs.cluster_id)
    }
}

/// The identifier by which a record is named in errors: the one that the
/// database gave it, or a text that says that it has none.
pub fn record_id(id: Option<String>) -> (name: String)
    ensures
        name@ == match id {
            Some(id) => id@,
            None => NO_ID@,
        },
{
    match id {
        Some(id) => id,
        None => NO_ID.to_owned(),
    }
}

/// What a lookup of one record gives, from what the database answered: no
/// record, the record, or the error for a record that cannot be decoded,
/// which names the record.
pub fn find_one<T>(document: Option<(Option<String>, core::result::Result<T, String>)>)
    -> (outcome: core::result::Result<Option<T>, Error>)
    ensures
        match document {
            None => outcome == Ok::<Option<T>, Error>(None),
            Some((_, Ok(record))) => outcome == Ok::<Option<T>, Error>(Some(record)),
            Some((id, Err(cause))) => outcome matches Err(error) && (error.spec_kind()
                matches ErrorKind::InvalidRecord(name) && name@ == match id {
                Some(id) => id@,
                None => NO_ID@,
            }) && error.spec_cause() == Some(cause@),
        },
{
    match document {
        None => Ok(None),
        Some((_, Ok(record))) => Ok(Some(record)),
        Some((id, Err(cause))) => Err(
            Error::caused_by(ErrorKind::InvalidRecord(record_id(id)), cause.as_str()),
        ),
    }
}

} // verus!
