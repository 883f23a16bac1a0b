use replicante::models::agent::Agent;
use replicante::models::agent::AgentInfo;
use replicante::models::agent::AgentStatus;
use replicante::models::agent::AgentVersion;
use replicante::models::cluster::ClusterDiscovery;
use replicante::models::cluster::ClusterMeta;
use replicante::models::datastore::Node;
use replicante::models::datastore::Shard;
use replicante::models::datastore::ShardRole;
use replicante::models::datastore::WireNode;
use replicante::models::datastore::WireShard;
use replicante::models::events::Event;
use replicante::store::admin::Data;
use replicante::store::agents::AgentsAttribures;
use replicante::store::agents::AgentsCounts;
use replicante::store::agents::NodesAttribures;
use replicante::store::cluster::Cluster;
use replicante::store::cluster::ClusterAttribures;
use replicante::store::mock::MockStore;
use replicante::store::shard::Shard as ShardHandle;
use replicante::store::shard::ShardAttribures;
use replicante::store::mock::StoreMock;
use replicante::store::mock::StoreOp;
use replicante::store::shards::counts_from_rows;
use replicante::store::shards::ShardsAttribures;
use replicante::store::shards::ShardsCounts;
use replicante::store::table::RecordKey;
use replicante::store::ErrorKind;

#[test]
fn get() {
    let mut mock = MockStore::new();
    let agent = Agent::new("test", "node", AgentStatus::Up);
    let key = (String::from("test"), String::from("node"));
    mock.agents.upsert(RecordKey::pair(&key.0, &key.1), agent.clone());
    let stored = mock.agent(&key.0, &key.1).unwrap().unwrap();
    assert_eq!(stored, agent);
}

#[test]
fn mock_persist() {
    // An agent.
    let mut mock = MockStore::new();
    let agent = Agent::new("test", "node", AgentStatus::Up);
    mock.persist_agent(agent.clone()).unwrap();
    let stored = mock.agents.get(&RecordKey::pair("test", "node")).cloned().expect("Agent not found");
    assert_eq!(agent, stored);

    // The build of an agent.
    let mut mock = MockStore::new();
    let info = AgentInfo {
        cluster_id: "test".into(),
        host: "node".into(),
        version_checkout: "commit".into(),
        version_number: "1.2.3".into(),
        version_taint: "yep".into(),
    };
    mock.persist_agent_info(info.clone()).unwrap();
    let stored =
        mock.agents_info.get(&RecordKey::pair("test", "node")).cloned().expect("Agent not found");
    assert_eq!(info, stored);

    // The metadata of a cluster.
    let mut mock = MockStore::new();
    let meta = ClusterMeta::new("test", "Redis", 44);
    mock.persist_cluster_meta(meta.clone()).unwrap();
    let stored =
        mock.clusters_meta.get(&RecordKey::cluster("test")).cloned().expect("Cluster not found");
    assert_eq!(meta, stored);

    // A discovery record.
    let cluster = ClusterDiscovery::new("test", vec!["test".into()]);
    let mut mock = MockStore::new();
    mock.persist_discovery(cluster.clone()).unwrap();
    let stored =
        mock.discoveries.get(&RecordKey::cluster("test")).cloned().expect("Cluster not found");
    assert_eq!(cluster, stored);

    // An event.
    let mut mock = MockStore::new();
    let cluster = ClusterDiscovery::new("test", vec!["test".into()]);
    let event = Event::builder().cluster().new(cluster);
    mock.persist_event(event.clone()).unwrap();
    let stored = mock.events.clone();
    assert_eq!(vec![event], stored);

    // A node.
    let mut mock = MockStore::new();
    let node = Node::new(WireNode::new(None, "cluster", "kind", "name", "version"));
    mock.persist_node(node.clone()).unwrap();
    let stored =
        mock.nodes.get(&RecordKey::pair("cluster", "name")).cloned().expect("Cluster not found");
    assert_eq!(node, stored);

    // A shard.
    let mut mock = MockStore::new();
    let shard = Shard::new("cluster", "node", WireShard::new("id", ShardRole::Primary, None, None));
    mock.persist_shard(shard.clone()).unwrap();
    let stored = mock
        .shards
        .get(&RecordKey::triple("cluster", "node", "id"))
        .cloned()
        .expect("Shard not found");
    assert_eq!(shard, stored)
}

#[test]
fn find_clusters() {
    let mut mock = MockStore::new();
    let cluster1 = ClusterMeta::new("cluster1", "Redis", 44);
    let cluster2 = ClusterMeta::new("cluster2", "Redis", 44);
    mock.clusters_meta.upsert(RecordKey::cluster("cluster1"), cluster1.clone());
    mock.clusters_meta.upsert(RecordKey::cluster("cluster2"), cluster2.clone());
    let results = mock.find_clusters("2", 33).unwrap();
    assert_eq!(results, vec![cluster2]);
}

#[test]
fn find_clusters_stops_at_the_limit() {
    let mut mock = MockStore::new();
    for name in ["a1", "a2", "b", "a3"] {
        mock.persist_cluster_meta(ClusterMeta::new(name, "Redis", 1)).unwrap();
    }
    let results = mock.find_clusters("a", 2).unwrap();
    let names: Vec<String> = results.into_iter().map(|meta| meta.cluster_id).collect();
    assert_eq!(names, vec!["a1".to_string(), "a2".to_string()]);
    let all = mock.find_clusters("a", 200).unwrap();
    assert_eq!(all.len(), 3);
    assert!(mock.find_clusters("zzz", 200).unwrap().is_empty());
    // The empty text occurs in every identifier.
    assert_eq!(mock.find_clusters("", 200).unwrap().len(), 4);
}

#[test]
fn found_meta() {
    let mut mock = MockStore::new();
    let meta = ClusterMeta::new("test", "Redis", 44);
    mock.clusters_meta.upsert(RecordKey::cluster("test"), meta.clone());
    let found = mock.cluster_meta("test").unwrap().unwrap();
    assert_eq!(found, meta);
}

#[test]
fn missing_meta() {
    let mock = MockStore::new();
    assert!(mock.cluster_meta("test").unwrap().is_none());
}

#[test]
fn top_clusters() {
    let mut mock = MockStore::new();
    let cluster1 = ClusterMeta::new("cluster1", "Redis", 44);
    let cluster2 = ClusterMeta::new("cluster2", "Redis", 4);
    mock.clusters_meta.upsert(RecordKey::cluster("cluster1"), cluster1.clone());
    mock.clusters_meta.upsert(RecordKey::cluster("cluster2"), cluster2.clone());
    let results = mock.top_clusters().unwrap();
    assert_eq!(results, vec![cluster2, cluster1]);
}

#[test]
fn top_clusters_keeps_the_order_of_equal_sizes() {
    let mut mock = MockStore::new();
    for (name, nodes) in [("c", 3), ("a", 1), ("d", 3), ("b", 1), ("e", 2)] {
        mock.persist_cluster_meta(ClusterMeta::new(name, "Redis", nodes)).unwrap();
    }
    let names: Vec<String> =
        mock.top_clusters().unwrap().into_iter().map(|meta| meta.cluster_id).collect();
    assert_eq!(names, vec!["a", "b", "e", "c", "d"]);
    let mut newer = StoreMock::new();
    newer.state = mock;
    let names: Vec<String> =
        newer.top_clusters().unwrap().into_iter().map(|meta| meta.cluster_id).collect();
    assert_eq!(names, vec!["d", "c", "e", "b", "a"]);
}

#[test]
fn found_discovery() {
    let cluster = ClusterDiscovery::new("test", vec!["test".into()]);
    let mut mock = MockStore::new();
    mock.discoveries.upsert(RecordKey::cluster("test"), cluster.clone());
    let found = mock.cluster_discovery("test").unwrap().unwrap();
    assert_eq!(found, cluster);
}

#[test]
fn missing_discovery() {
    let mock = MockStore::new();
    assert!(mock.cluster_discovery("test").unwrap().is_none());
}

#[test]
fn persist_then_read_gives_the_agent_back() {
    let mut mock = MockStore::new();
    let agent = Agent::new("c1", "http://a", AgentStatus::AgentDown("gone".into()));
    mock.persist_agent(agent.clone()).unwrap();
    assert_eq!(mock.agent("c1", "http://a").unwrap(), Some(agent));
    assert_eq!(mock.agent("c1", "http://b").unwrap(), None);
    assert_eq!(mock.agent("c2", "http://a").unwrap(), None);
}

#[test]
fn a_key_holds_one_record_however_often_it_is_written() {
    let mut mock = MockStore::new();
    for role in [ShardRole::Primary, ShardRole::Secondary, ShardRole::Unknown("x".into())] {
        let shard = Shard::new("c1", "n1", WireShard::new("s1", role, None, None));
        mock.persist_shard(shard).unwrap();
    }
    mock.persist_shard(Shard::new("c1", "n2", WireShard::new("s1", ShardRole::Primary, None, None)))
        .unwrap();
    assert_eq!(mock.shards.len(), 2);
    let stored = mock.shard("c1", "n1", "s1").unwrap().unwrap();
    assert_eq!(stored.role, ShardRole::Unknown("x".into()));
    // The first key written stays first: the record was replaced in place.
    assert_eq!(mock.shards.key_at(0), &RecordKey::triple("c1", "n1", "s1"));
    assert_eq!(mock.shards.position(&RecordKey::triple("c1", "n2", "s1")), Some(1));
    assert_eq!(mock.shards.position(&RecordKey::triple("c1", "n3", "s1")), None);
}

#[test]
fn mark_stale_marks_one_cluster_and_a_write_clears_the_mark() {
    let mut mock = MockStore::new();
    let node = |cluster: &str, id: &str| Node::new(WireNode::new(None, cluster, "DB", id, "1"));
    mock.persist_node(node("c1", "n1")).unwrap();
    mock.persist_node(node("c1", "n2")).unwrap();
    mock.persist_node(node("c2", "n1")).unwrap();
    mock.persist_agent(Agent::new("c1", "a", AgentStatus::Up)).unwrap();
    mock.persist_agent_info(AgentInfo::new("c1", "a", AgentVersion::new("c", "1", "no")))
        .unwrap();
    mock.mark_stale("c1").unwrap();
    assert_eq!(mock.nodes.is_stale(&RecordKey::pair("c1", "n1")), Some(true));
    assert_eq!(mock.nodes.is_stale(&RecordKey::pair("c1", "n2")), Some(true));
    assert_eq!(mock.nodes.is_stale(&RecordKey::pair("c2", "n1")), Some(false));
    assert_eq!(mock.agents_info.is_stale(&RecordKey::pair("c1", "a")), Some(true));
    // Agents do not go stale.
    assert_eq!(mock.agents.is_stale(&RecordKey::pair("c1", "a")), Some(false));
    assert_eq!(mock.nodes.is_stale(&RecordKey::pair("c9", "n1")), None);
    // Stale records are still there, but they are not fresh.
    assert!(mock.node("c1", "n1").unwrap().is_some());
    assert!(mock.nodes.fresh("c1").is_empty());
    mock.persist_node(node("c1", "n2")).unwrap();
    assert_eq!(mock.nodes.is_stale(&RecordKey::pair("c1", "n2")), Some(false));
    assert_eq!(mock.nodes.is_stale(&RecordKey::pair("c1", "n1")), Some(true));
    assert_eq!(mock.nodes.fresh("c1").len(), 1);
}

#[test]
fn an_operation_told_to_fail_fails_and_changes_nothing() {
    let mut mock = MockStore::new();
    mock.fail_on(StoreOp::PersistNode);
    let node = Node::new(WireNode::new(None, "c1", "DB", "n1", "1"));
    let error = mock.persist_node(node).unwrap_err();
    assert_eq!(error.kind(), &ErrorKind::MongoDBOperation("replaceOne"));
    assert_eq!(error.kind().kind_name(), Some("MongoDBOperation"));
    assert_eq!(error.cause(), None);
    assert_eq!(mock.nodes.len(), 0);
    // The other operations still work.
    mock.persist_agent(Agent::new("c1", "a", AgentStatus::Up)).unwrap();
    assert!(mock.node("c1", "n1").unwrap().is_none());
    mock.fail_on(StoreOp::Node);
    assert_eq!(
        mock.node("c1", "n1").unwrap_err().kind(),
        &ErrorKind::MongoDBOperation("findOne")
    );
    mock.fail_on(StoreOp::MarkStale);
    assert_eq!(
        mock.mark_stale("c1").unwrap_err().kind(),
        &ErrorKind::MongoDBOperation("updateMany")
    );
    mock.fail_on(StoreOp::FindClusters);
    assert!(mock.find_clusters("c", 1).is_err());
    mock.fail_on(StoreOp::TopClusters);
    assert!(mock.top_clusters().is_err());
    mock.fail_on(StoreOp::PersistEvent);
    let event = Event::builder().cluster().new(ClusterDiscovery::new("c1", vec![]));
    assert_eq!(
        mock.persist_event(event).unwrap_err().kind(),
        &ErrorKind::MongoDBOperation("insertOne")
    );
}

#[test]
fn shards_counts_count_each_shard_once() {
    let mut mock = MockStore::new();
    let shard = |node: &str, id: &str, role: ShardRole| {
        Shard::new("c1", node, WireShard::new(id, role, None, None))
    };
    mock.persist_shard(shard("n1", "s1", ShardRole::Primary)).unwrap();
    mock.persist_shard(shard("n2", "s1", ShardRole::Secondary)).unwrap();
    mock.persist_shard(shard("n3", "s1", ShardRole::Primary)).unwrap();
    mock.persist_shard(shard("n1", "s2", ShardRole::Secondary)).unwrap();
    mock.persist_shard(shard("n2", "s2", ShardRole::Unknown("recovering".into()))).unwrap();
    mock.persist_shard(shard("n1", "s3", ShardRole::Primary)).unwrap();
    mock.persist_shard(Shard::new(
        "c2",
        "n1",
        WireShard::new("s9", ShardRole::Primary, None, None),
    ))
    .unwrap();
    let attrs = ShardsAttribures { cluster_id: "c1".into() };
    assert_eq!(mock.shards_counts(&attrs), ShardsCounts { shards: 3, primaries: 2 });
    let other = ShardsAttribures { cluster_id: "c2".into() };
    assert_eq!(mock.shards_counts(&other), ShardsCounts { shards: 1, primaries: 1 });
    let none = ShardsAttribures { cluster_id: "c3".into() };
    assert_eq!(mock.shards_counts(&none), ShardsCounts { shards: 0, primaries: 0 });
    // Stale shards do not count.
    mock.mark_stale("c1").unwrap();
    assert_eq!(mock.shards_counts(&attrs), ShardsCounts { shards: 0, primaries: 0 });
    mock.persist_shard(shard("n2", "s2", ShardRole::Primary)).unwrap();
    assert_eq!(mock.shards_counts(&attrs), ShardsCounts { shards: 1, primaries: 1 });
    assert_eq!(mock.shards("c1").len(), 1);
}

#[test]
fn counts_come_from_exactly_one_row() {
    let attrs = ShardsAttribures { cluster_id: "c1".into() };
    assert_eq!(
        counts_from_rows(&vec![], &attrs).unwrap(),
        ShardsCounts { shards: 0, primaries: 0 }
    );
    let row = ShardsCounts { shards: 7, primaries: 5 };
    assert_eq!(counts_from_rows(&vec![Ok(row)], &attrs).unwrap(), row);
    let error = counts_from_rows(&vec![Ok(row), Ok(row)], &attrs).unwrap_err();
    assert_eq!(error.kind(), &ErrorKind::DuplicateRecord("ShardsCounts", "c1".into()));
    let error = counts_from_rows(&vec![Err("bad row".into()), Ok(row)], &attrs).unwrap_err();
    assert_eq!(error.kind(), &ErrorKind::MongoDBCursor("aggregate"));
    assert_eq!(error.cause(), Some("bad row".to_string()));
}

#[test]
fn agents_counts_by_status() {
    let mut mock = MockStore::new();
    mock.persist_agent(Agent::new("c1", "a", AgentStatus::Up)).unwrap();
    mock.persist_agent(Agent::new("c1", "b", AgentStatus::AgentDown("x".into()))).unwrap();
    mock.persist_agent(Agent::new("c1", "c", AgentStatus::NodeDown("y".into()))).unwrap();
    mock.persist_agent(Agent::new("c1", "d", AgentStatus::NodeDown("z".into()))).unwrap();
    mock.persist_agent(Agent::new("c2", "a", AgentStatus::AgentDown("x".into()))).unwrap();
    let counts = mock.agents_counts(&AgentsAttribures { cluster_id: "c1".into() });
    assert_eq!(counts, AgentsCounts { agents_down: 1, nodes: 4, nodes_down: 2 });
    let counts = mock.agents_counts(&AgentsAttribures { cluster_id: "c3".into() });
    assert_eq!(counts, AgentsCounts { agents_down: 0, nodes: 0, nodes_down: 0 });
}

#[test]
fn nodes_kinds_lists_each_kind_once() {
    let mut mock = MockStore::new();
    for (id, kind) in [("n1", "DB"), ("n2", "Cache"), ("n3", "DB")] {
        mock.persist_node(Node::new(WireNode::new(None, "c1", kind, id, "1"))).unwrap();
    }
    mock.persist_node(Node::new(WireNode::new(None, "c2", "Queue", "n1", "1"))).unwrap();
    let attrs = NodesAttribures { cluster_id: "c1".into() };
    assert_eq!(mock.nodes_kinds(&attrs), vec!["DB".to_string(), "Cache".to_string()]);
    assert_eq!(mock.nodes_of(&attrs).len(), 3);
    mock.mark_stale("c1").unwrap();
    assert!(mock.nodes_kinds(&attrs).is_empty());
}

#[test]
fn handles_on_one_cluster_and_one_shard() {
    let mut mock = MockStore::new();
    let discovery = ClusterDiscovery::new("c1", vec!["a".into()]);
    mock.persist_discovery(discovery.clone()).unwrap();
    let shard = Shard::new("c1", "n1", WireShard::new("s1", ShardRole::Primary, None, None));
    mock.persist_shard(shard.clone()).unwrap();
    let cluster = Cluster::new(ClusterAttribures { cluster_id: "c1".into(), namespace: "default".into() });
    assert_eq!(cluster.discovery(&mock).unwrap(), Some(discovery));
    cluster.mark_stale(&mut mock).unwrap();
    assert_eq!(mock.shards.is_stale(&RecordKey::triple("c1", "n1", "s1")), Some(true));
    let handle = ShardHandle::new(ShardAttribures {
        cluster_id: "c1".into(),
        node_id: "n1".into(),
        shard_id: "s1".into(),
    });
    assert_eq!(handle.get(&mock).unwrap(), Some(shard));
    let data = Data::new(mock);
    assert_eq!(data.shards().len(), 1);
    assert_eq!(data.cluster_discoveries().len(), 1);
    assert!(data.agents().is_empty() && data.agents_info().is_empty());
    assert!(data.clusters_meta().is_empty() && data.nodes().is_empty() && data.events().is_empty());
}
