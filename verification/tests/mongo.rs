use replicante::models::agent::Agent;
use replicante::models::agent::AgentInfo;
use replicante::models::agent::AgentStatus;
use replicante::models::agent::AgentVersion;
use replicante::models::cluster::ClusterDiscovery;
use replicante::models::cluster::ClusterMeta;
use replicante::models::datastore::Node;
use replicante::models::datastore::Shard;
use replicante::models::datastore::ShardRole;
use replicante::models::datastore::WireNode;
use replicante::models::datastore::WireShard;
use replicante::store::mongo::find_one;
use replicante::store::mongo::record_id;
use replicante::store::mongo::scan_collection;
use replicante::store::mongo::ClusterStore;
use replicante::store::mongo::Condition;
use replicante::store::mongo::Data;
use replicante::store::mongo::Direction;
use replicante::store::mongo::Persist;
use replicante::store::mongo::Query;
use replicante::store::mongo::Shards;
use replicante::store::shards::ShardsAttribures;
use replicante::store::ErrorKind;

fn equals(name: &str, value: &str) -> (String, Condition) {
    (name.to_string(), Condition::Equals(value.to_string()))
}

fn keyed(collection: &str, key: Vec<(String, Condition)>) -> Query {
    Query { collection: collection.to_string(), filter: key, sort: vec![], limit: None }
}

#[test]
fn models_are_written_under_their_natural_key() {
    let persist = Persist::new("replicante".into());
    let agent = Agent::new("c1", "http://a", AgentStatus::Up);
    assert_eq!(
        persist.agent(&agent),
        keyed("agents", vec![equals("cluster_id", "c1"), equals("host", "http://a")])
    );
    let info = AgentInfo::new("c1", "http://a", AgentVersion::new("abc", "1.0.0", "clean"));
    assert_eq!(
        persist.agent_info(&info),
        keyed("agents_info", vec![equals("cluster_id", "c1"), equals("host", "http://a")])
    );
    let discovery = ClusterDiscovery::new("c1", vec![]);
    assert_eq!(
        persist.cluster_discovery(&discovery),
        keyed("discoveries", vec![equals("cluster_id", "c1")])
    );
    let meta = ClusterMeta::new("c1", "DB", 1);
    assert_eq!(persist.cluster_meta(&meta), keyed("clusters_meta", vec![equals("cluster_id", "c1")]));
    let node = Node::new(WireNode::new(None, "c1", "DB", "n1", "1"));
    assert_eq!(
        persist.node(&node),
        keyed("nodes", vec![equals("cluster_id", "c1"), equals("node_id", "n1")])
    );
    let shard = Shard::new("c1", "n1", WireShard::new("s1", ShardRole::Primary, None, None));
    assert_eq!(
        persist.shard(&shard),
        keyed(
            "shards",
            vec![equals("cluster_id", "c1"), equals("node_id", "n1"), equals("shard_id", "s1")]
        )
    );
    let store = ClusterStore::new("replicante".into());
    assert_eq!(store.persist_cluster_meta(&meta), persist.cluster_meta(&meta));
    assert_eq!(store.persist_discovery(&discovery), persist.cluster_discovery(&discovery));
    assert_eq!(store.cluster_meta(&"c1".to_string()), persist.cluster_meta(&meta));
    assert_eq!(store.cluster_discovery(&"c1".to_string()), persist.cluster_discovery(&discovery));
}

#[test]
fn find_clusters_escapes_the_search() {
    let store = ClusterStore::new("replicante".into());
    let query = store.find_clusters("a.b*(c)-[d]", 7);
    assert_eq!(
        query,
        Query {
            collection: "clusters_meta".into(),
            filter: vec![(
                "cluster_id".to_string(),
                Condition::Regex {
                    pattern: "a\\.b\\*\\(c\\)\\-\\[d\\]".to_string(),
                    options: "i".to_string()
                }
            )],
            sort: vec![],
            limit: Some(7),
        }
    );
    // Every character with a meaning of its own is escaped.
    let query = store.find_clusters("\\.+*?()|[]{}^$#&-~", 1);
    match &query.filter[0].1 {
        Condition::Regex { pattern, .. } => {
            assert_eq!(pattern, "\\\\\\.\\+\\*\\?\\(\\)\\|\\[\\]\\{\\}\\^\\$\\#\\&\\-\\~")
        }
        other => panic!("unexpected condition: {:?}", other),
    }
    // Any other character is left as it is.
    let query = store.find_clusters("plain_text %/!\"e 9", 255);
    match &query.filter[0].1 {
        Condition::Regex { pattern, options } => {
            assert_eq!(pattern, "plain_text %/!\"e 9");
            assert_eq!(options, "i");
        }
        other => panic!("unexpected condition: {:?}", other),
    }
    assert_eq!(query.limit, Some(255));
    assert_eq!(store.find_escaped("x".into(), 0).limit, Some(0));
}

#[test]
fn top_clusters_orders_by_size() {
    let store = ClusterStore::new("replicante".into());
    assert_eq!(
        store.top_clusters(),
        Query {
            collection: "clusters_meta".into(),
            filter: vec![],
            sort: vec![
                ("nodes".to_string(), Direction::Descending),
                ("cluster_id".to_string(), Direction::Ascending)
            ],
            limit: Some(10),
        }
    );
}

#[test]
fn scans_walk_each_collection_by_identifier() {
    let data = Data::new("replicante".into());
    let scan = |collection: &str| Query {
        collection: collection.to_string(),
        filter: vec![],
        sort: vec![("_id".to_string(), Direction::Ascending)],
        limit: None,
    };
    assert_eq!(data.agents(), scan("agents"));
    assert_eq!(data.agents_info(), scan("agents_info"));
    assert_eq!(data.cluster_discoveries(), scan("discoveries"));
    assert_eq!(data.clusters_meta(), scan("clusters_meta"));
    assert_eq!(data.events(), scan("events"));
    assert_eq!(data.nodes(), scan("nodes"));
    assert_eq!(data.shards(), scan("shards"));
    assert_eq!(scan_collection("anything"), scan("anything"));
}

#[test]
fn shards_of_a_cluster() {
    let shards = Shards::new("replicante".into());
    let attrs = ShardsAttribures { cluster_id: "c1".into() };
    assert_eq!(
        shards.counts(&attrs),
        Query {
            collection: "shards".into(),
            filter: vec![
                equals("cluster_id", "c1"),
                ("stale".to_string(), Condition::Flag(false))
            ],
            sort: vec![],
            limit: None,
        }
    );
    assert_eq!(shards.iter(&attrs), keyed("shards", vec![equals("cluster_id", "c1")]));
}

#[test]
fn lookup_of_one_record() {
    let none: Option<(Option<String>, Result<u8, String>)> = None;
    assert_eq!(find_one(none).unwrap(), None);
    assert_eq!(find_one(Some((Some("id".to_string()), Ok(4u8)))).unwrap(), Some(4));
    let bad: Option<(Option<String>, Result<u8, String>)> =
        Some((Some("5d1b".to_string()), Err("missing field".to_string())));
    let error = find_one(bad).unwrap_err();
    assert_eq!(error.kind(), &ErrorKind::InvalidRecord("5d1b".into()));
    assert_eq!(error.cause(), Some("missing field".to_string()));
    let nameless: Option<(Option<String>, Result<u8, String>)> =
        Some((None, Err("missing field".to_string())));
    assert_eq!(find_one(nameless).unwrap_err().kind(), &ErrorKind::InvalidRecord("<NO ID>".into()));
    assert_eq!(record_id(None), "<NO ID>");
    assert_eq!(record_id(Some("x".into())), "x");
}
