use replicante::aggregator::aggregate;
use replicante::aggregator::Aggregator;
use replicante::aggregator::Request as AggregateRequest;
use replicante::aggregator::Response as AggregateResponse;
use replicante::clock::Timestamp;
use replicante::components::discovery::process;
use replicante::fetcher::agent::classify;
use replicante::fetcher::agent::AgentFailure;
use replicante::fetcher::fetch::FetchRun;
use replicante::fetcher::fetch::Fetcher;
use replicante::fetcher::fetch::Outcome;
use replicante::fetcher::identity::ClusterIdentityChecker;
use replicante::fetcher::node::process_node;
use replicante::fetcher::protocol::Request;
use replicante::fetcher::protocol::Response;
use replicante::fetcher::shard::process_shard;
use replicante::fetcher::shard::shard_changed;
use replicante::fetcher::shard::ShardFetcher;
use replicante::fetcher::shard::ShardPlan;
use replicante::fetcher::Error;
use replicante::fetcher::ErrorKind;
use replicante::models::agent::AgentStatus;
use replicante::models::agent::AgentVersion;
use replicante::models::cluster::ClusterDiscovery;
use replicante::models::cluster::ClusterMeta;
use replicante::models::datastore::CommitOffset;
use replicante::models::datastore::Node;
use replicante::models::datastore::Shard;
use replicante::models::datastore::ShardRole;
use replicante::models::datastore::WireNode;
use replicante::models::datastore::WireShard;
use replicante::models::events::EventPayload;
use replicante::models::tasks::ClusterRefreshPayload;

fn at(secs: i64) -> Timestamp {
    Timestamp::new(secs, 0)
}

fn shard(node: &str, role: ShardRole, offset: Option<i64>) -> Shard {
    Shard::new("c1", node, WireShard::new("s1", role, offset.map(CommitOffset::seconds), None))
}

fn plan_event(plan: &ShardPlan) -> Option<&'static str> {
    plan.event.as_ref().map(|event| event.payload.code())
}

#[test]
fn error_messages() {
    let cases = vec![
        (ErrorKind::AgentConnect("http://a".into()), "AgentConnect", "error connecting to agent http://a"),
        (
            ErrorKind::AgentDown("info", "http://a".into()),
            "AgentDown",
            "error fetching/sending info from/to agent http://a",
        ),
        (
            ErrorKind::DatastoreDown("shards", "http://a".into()),
            "DatastoreDown",
            "error fetching/sending shards from/to agent http://a",
        ),
        (
            ErrorKind::ClusterDisplayNameDoesNotMatch("A".into(), "B".into(), "n".into()),
            "ClusterDisplayNameDoesNotMatch",
            "expected cluster display name 'A' but found 'B' for node with ID 'n'",
        ),
        (
            ErrorKind::ClusterIdDoesNotMatch("c1".into(), "c2".into(), "n".into()),
            "ClusterIdDoesNotMatch",
            "expected cluster ID 'c1' but found 'c2' for node with ID 'n'",
        ),
        (ErrorKind::EventEmit("NODE_NEW"), "EventEmit", "error emitting NODE_NEW event"),
        (
            ErrorKind::PrimaryStoreRead("node"),
            "PrimaryStoreRead",
            "error fetching node from the primary store",
        ),
        (
            ErrorKind::PrimaryStoreWrite("node"),
            "PrimaryStoreWrite",
            "error persisting node to the primary store",
        ),
        (ErrorKind::ViewStoreRead("events"), "ViewStoreRead", "error fetching events from the view store"),
        (
            ErrorKind::ViewStoreWrite("events"),
            "ViewStoreWrite",
            "error persisting events to the view store",
        ),
    ];
    for (kind, name, message) in cases {
        assert_eq!(kind.kind_name(), Some(name));
        assert_eq!(kind.message(), message);
        assert_eq!(kind.clone(), kind);
        let error = Error::new(kind);
        assert_eq!(error.name(), Some(name));
        assert_eq!(error.display(), message);
    }
}

#[test]
fn errors_of_agents_become_their_status() {
    let down = |kind: ErrorKind| Error::new(kind).agent_status();
    assert_eq!(
        down(ErrorKind::AgentConnect("u".into())),
        Some(AgentStatus::AgentDown("error connecting to agent u".into()))
    );
    assert_eq!(
        down(ErrorKind::AgentDown("info", "u".into())),
        Some(AgentStatus::AgentDown("error fetching/sending info from/to agent u".into()))
    );
    assert_eq!(
        down(ErrorKind::DatastoreDown("status", "u".into())),
        Some(AgentStatus::NodeDown("error fetching/sending status from/to agent u".into()))
    );
    assert!(matches!(
        down(ErrorKind::ClusterIdDoesNotMatch("a".into(), "b".into(), "n".into())),
        Some(AgentStatus::AgentDown(_))
    ));
    assert!(matches!(
        down(ErrorKind::ClusterDisplayNameDoesNotMatch("a".into(), "b".into(), "n".into())),
        Some(AgentStatus::AgentDown(_))
    ));
    // Errors of the control plane say nothing about the agent.
    assert_eq!(down(ErrorKind::PrimaryStoreRead("node")), None);
    assert_eq!(down(ErrorKind::PrimaryStoreWrite("node")), None);
    assert_eq!(down(ErrorKind::ViewStoreRead("x")), None);
    assert_eq!(down(ErrorKind::ViewStoreWrite("x")), None);
    assert_eq!(down(ErrorKind::EventEmit("NODE_NEW")), None);
    let caused = Error::caused_by(ErrorKind::AgentConnect("u".into()), "timed out");
    assert_eq!(caused.display(), "error connecting to agent u: timed out");
    assert_eq!(caused.kind(), &ErrorKind::AgentConnect("u".into()));
}

#[test]
fn failures_are_classified_by_what_failed() {
    let error = classify(&AgentFailure::Connect("refused".into()), "info", "http://a");
    assert_eq!(error.kind(), &ErrorKind::AgentConnect("http://a".into()));
    let error = classify(&AgentFailure::Invalid("bad json".into()), "status", "http://a");
    assert_eq!(error.kind(), &ErrorKind::AgentDown("status", "http://a".into()));
    assert_eq!(error.display(), "error fetching/sending status from/to agent http://a: bad json");
    let error = classify(&AgentFailure::Datastore("down".into()), "shards", "http://a");
    assert_eq!(error.kind(), &ErrorKind::DatastoreDown("shards", "http://a".into()));
}

#[test]
fn identity_checker() {
    let mut checker = ClusterIdentityChecker::new("c1".into(), None);
    checker.check_id("c1", "n1").unwrap();
    let error = checker.check_id("c2", "n1").unwrap_err();
    assert_eq!(error.kind(), &ErrorKind::ClusterIdDoesNotMatch("c1".into(), "c2".into(), "n1".into()));
    // The first display name is taken, the later ones are checked against it.
    checker.check_or_set_display_name("First", "n1").unwrap();
    checker.check_or_set_display_name("First", "n2").unwrap();
    let error = checker.check_or_set_display_name("Second", "n3").unwrap_err();
    assert_eq!(
        error.kind(),
        &ErrorKind::ClusterDisplayNameDoesNotMatch("First".into(), "Second".into(), "n3".into())
    );
    // A mismatch does not change what is expected.
    checker.check_or_set_display_name("First", "n4").unwrap();
    let mut known = ClusterIdentityChecker::new("c1".into(), Some("Known".into()));
    assert!(known.check_or_set_display_name("Other", "n1").is_err());
    known.check_or_set_display_name("Known", "n1").unwrap();
    // The empty name is a name like any other.
    let mut empty = ClusterIdentityChecker::new("".into(), None);
    empty.check_id("", "n").unwrap();
    empty.check_or_set_display_name("", "n").unwrap();
    assert!(empty.check_or_set_display_name("x", "n").is_err());
}

#[test]
fn shard_plans() {
    let new = shard("n1", ShardRole::Primary, Some(1));
    let plan = process_shard(&new, None, at(9));
    assert_eq!(plan_event(&plan), Some("SHARD_ALLOCATION_NEW"));
    assert!(plan.persist);
    assert_eq!(plan.event.as_ref().unwrap().timestamp, at(9));
    // The same shard: nothing to do.
    let plan = process_shard(&new, Some(new.clone()), at(9));
    assert_eq!(plan_event(&plan), None);
    assert!(!plan.persist);
    // Only the offset moved: persist, no event.
    let moved = shard("n1", ShardRole::Primary, Some(2));
    let plan = process_shard(&moved, Some(new.clone()), at(9));
    assert_eq!(plan_event(&plan), None);
    assert!(plan.persist);
    assert!(!shard_changed(&moved, &new));
    let gone = shard("n1", ShardRole::Primary, None);
    assert!(!shard_changed(&gone, &new));
    assert!(process_shard(&gone, Some(new.clone()), at(9)).persist);
    // The role changed: event, then persist.
    let demoted = shard("n1", ShardRole::Secondary, Some(1));
    let plan = process_shard(&demoted, Some(new.clone()), at(9));
    assert!(plan.persist);
    assert_eq!(
        plan.event.unwrap().payload,
        EventPayload::ShardAllocationChanged { before: new.clone(), after: demoted.clone() }
    );
    assert!(shard_changed(&demoted, &new));
    assert!(shard_changed(&shard("n2", ShardRole::Primary, Some(1)), &new));
    assert!(shard_changed(&shard("n1", ShardRole::Unknown("x".into()), Some(1)), &new));
    assert!(!shard_changed(&new, &new));
    let fetcher = ShardFetcher::new();
    let records = fetcher.process_shards(
        "c1",
        "n1",
        vec![
            WireShard::new("s1", ShardRole::Primary, None, None),
            WireShard::new("s2", ShardRole::Secondary, None, Some(CommitOffset::seconds(3))),
        ],
    );
    assert_eq!(records.len(), 2);
    assert_eq!(records[1].shard_id, "s2");
    assert_eq!(records[1].node_id, "n1");
    assert_eq!(records[1].lag, Some(CommitOffset::seconds(3)));
    assert!(fetcher.process_shard(&new, Some(new.clone()), at(1)).event.is_none());
}

#[test]
fn node_events() {
    let node = Node::new(WireNode::new(None, "c1", "DB", "n1", "1"));
    let event = process_node(&node, None, at(3)).unwrap();
    assert_eq!(event.payload, EventPayload::NodeNew(node.clone()));
    assert_eq!(event.timestamp, at(3));
    assert!(process_node(&node, Some(node.clone()), at(3)).is_none());
    let newer = Node::new(WireNode::new(None, "c1", "DB", "n1", "2"));
    let event = process_node(&newer, Some(node.clone()), at(4)).unwrap();
    assert_eq!(event.payload, EventPayload::NodeChanged { before: node, after: newer });
}

#[test]
fn fetch_follows_the_order_of_the_steps() {
    let fetcher = Fetcher::new(15);
    assert_eq!(fetcher.timeout(), 15);
    let cluster = ClusterDiscovery::new("c1", vec!["http://a".into()]);
    let mut run = fetcher.fetch(cluster);
    let mut asked = Vec::new();
    let answers = vec![
        Response::Done(Ok(())),
        Response::Lock(true),
        Response::Info(Ok(AgentVersion::new("abc", "1", "no"))),
        Response::Done(Ok(())),
        Response::NodeInfo(Ok(WireNode::new(None, "c1", "DB", "n1", "1"))),
        Response::StoredNode(Ok(None)),
        Response::Done(Ok(())),
        Response::Done(Ok(())),
        Response::ShardsList(Ok(vec![
            WireShard::new("s1", ShardRole::Primary, None, None),
            WireShard::new("s2", ShardRole::Secondary, None, None),
        ])),
        Response::StoredShard(Ok(None)),
        Response::Done(Ok(())),
        Response::Done(Ok(())),
        Response::StoredShard(Ok(Some(Shard::new(
            "c1",
            "n1",
            WireShard::new("s2", ShardRole::Secondary, None, None),
        )))),
        Response::Done(Ok(())),
    ];
    for answer in answers {
        let request = run.request().expect("the fetch is not done");
        asked.push(match request {
            Request::MarkStale { .. } => "mark stale",
            Request::InspectLock => "inspect lock",
            Request::AgentInfo { .. } => "agent info",
            Request::DatastoreInfo { .. } => "datastore info",
            Request::Shards { .. } => "shards",
            Request::LoadNode { .. } => "load node",
            Request::LoadShard { .. } => "load shard",
            Request::PersistAgentInfo(_) => "persist agent info",
            Request::PersistNode(_) => "persist node",
            Request::PersistShard(_) => "persist shard",
            Request::PersistAgent(_) => "persist agent",
            Request::Emit(_) => "emit",
        });
        run = run.advance(answer, at(1));
    }
    assert_eq!(
        asked,
        vec![
            "mark stale",
            "inspect lock",
            "agent info",
            "persist agent info",
            "datastore info",
            "load node",
            "emit",
            "persist node",
            "shards",
            "load shard",
            "emit",
            "persist shard",
            "load shard",
            "persist agent",
        ]
    );
    assert_eq!(run.outcome(), Some(Outcome::Completed));
    assert_eq!(run.request(), None);
}

#[test]
fn fetch_ignores_answers_it_does_not_wait_for() {
    let run = FetchRun::start(ClusterDiscovery::new("c1", vec!["http://a".into()]));
    let run = run.advance(Response::Lock(false), at(1));
    assert_eq!(run.request(), Some(Request::MarkStale { cluster_id: "c1".into() }));
    let run = run.advance(Response::StoredNode(Ok(None)), at(1));
    assert_eq!(run.request(), Some(Request::MarkStale { cluster_id: "c1".into() }));
    // A cluster without agents is done once it is marked stale.
    let empty = FetchRun::start(ClusterDiscovery::new("c1", vec![]));
    let empty = empty.advance(Response::Done(Ok(())), at(1));
    assert_eq!(empty.outcome(), Some(Outcome::Completed));
    // A fetch that is done stays done.
    let empty = empty.advance(Response::Done(Err("late".into())), at(2));
    assert_eq!(empty.outcome(), Some(Outcome::Completed));
}

#[test]
fn aggregation_counts_distinct_nodes_and_kinds() {
    let node = |id: &str, kind: &str| Node::new(WireNode::new(None, "c1", kind, id, "1"));
    let discovery = ClusterDiscovery::new("c1", vec![]).with_display_name("Cluster One");
    let nodes =
        vec![node("n1", "DB"), node("n2", "Cache"), node("n1", "DB"), node("n3", "DB"), node("n2", "Queue")];
    let meta = aggregate(&discovery, &nodes);
    assert_eq!(
        meta,
        ClusterMeta {
            cluster_id: "c1".into(),
            display_name: "Cluster One".into(),
            kinds: vec!["DB".into(), "Cache".into(), "Queue".into()],
            nodes: 3,
        }
    );
    let none = aggregate(&ClusterDiscovery::new("c2", vec![]), &vec![]);
    assert_eq!(
        none,
        ClusterMeta { cluster_id: "c2".into(), display_name: "c2".into(), kinds: vec![], nodes: 0 }
    );
}

#[test]
fn aggregation_reads_the_lock_before_each_step() {
    let discovery = ClusterDiscovery::new("c1", vec![]);
    let node = Node::new(WireNode::new(None, "c1", "DB", "n1", "1"));
    let run = Aggregator::new(discovery.clone());
    assert_eq!(run.request(), Some(AggregateRequest::InspectLock));
    let run = run.advance(AggregateResponse::Lock(true));
    assert_eq!(run.request(), Some(AggregateRequest::LoadNodes { cluster_id: "c1".into() }));
    let run = run.advance(AggregateResponse::Nodes(Ok(vec![node.clone()])));
    assert_eq!(run.request(), Some(AggregateRequest::InspectLock));
    let run = run.advance(AggregateResponse::Lock(true));
    assert_eq!(
        run.request(),
        Some(AggregateRequest::PersistMeta(ClusterMeta::new("c1", "DB", 1)))
    );
    let run = run.advance(AggregateResponse::Done(Ok(())));
    assert_eq!(run.outcome(), Some(Outcome::Completed));
    // The lock is lost before the nodes are loaded.
    let lost = Aggregator::new(discovery.clone()).advance(AggregateResponse::Lock(false));
    assert_eq!(lost.outcome(), Some(Outcome::LockLost));
    assert_eq!(lost.request(), None);
    // The lock is lost before the metadata is persisted.
    let lost = Aggregator::new(discovery.clone())
        .advance(AggregateResponse::Lock(true))
        .advance(AggregateResponse::Nodes(Ok(vec![node])))
        .advance(AggregateResponse::Lock(false));
    assert_eq!(lost.outcome(), Some(Outcome::LockLost));
    // The store fails.
    let failed = Aggregator::new(discovery.clone())
        .advance(AggregateResponse::Lock(true))
        .advance(AggregateResponse::Nodes(Err("no connection".into())));
    match failed.outcome() {
        Some(Outcome::Failed(error)) => {
            assert_eq!(error.display(), "error fetching nodes from the primary store: no connection")
        }
        other => panic!("unexpected outcome: {:?}", other),
    }
    let failed = Aggregator::new(discovery)
        .advance(AggregateResponse::Lock(true))
        .advance(AggregateResponse::Nodes(Ok(vec![])))
        .advance(AggregateResponse::Lock(true))
        .advance(AggregateResponse::Done(Err("disk full".into())));
    match failed.outcome() {
        Some(Outcome::Failed(error)) => {
            assert_eq!(error.kind(), &ErrorKind::PrimaryStoreWrite("cluster meta"))
        }
        other => panic!("unexpected outcome: {:?}", other),
    }
}

#[test]
fn discovery_plans() {
    let found = ClusterDiscovery::new("c1", vec!["http://a".into()]);
    let plan = process(found.clone(), None, true, at(5));
    assert_eq!(plan.event.as_ref().map(|e| e.payload.clone()), Some(EventPayload::ClusterNew(found.clone())));
    assert_eq!(plan.event.unwrap().timestamp, at(5));
    assert_eq!(plan.persist, Some(found.clone()));
    assert_eq!(plan.refresh, ClusterRefreshPayload::new(found.clone(), true));
    // The same record again: only the refresh is asked for.
    let plan = process(found.clone(), Some(found.clone()), false, at(6));
    assert!(plan.event.is_none() && plan.persist.is_none());
    assert_eq!(plan.refresh, ClusterRefreshPayload::new(found.clone(), false));
    // An agent was added.
    let grown = ClusterDiscovery::new("c1", vec!["http://a".into(), "http://b".into()]);
    let plan = process(grown.clone(), Some(found.clone()), false, at(7));
    assert_eq!(
        plan.event.unwrap().payload,
        EventPayload::ClusterChanged { before: found, after: grown.clone() }
    );
    assert_eq!(plan.persist, Some(grown));
}
