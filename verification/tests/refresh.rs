use replicante::clock::Timestamp;
use replicante::coordinator::NodeId;
use replicante::error::ErrorKind;
use replicante::fetcher::agent::AgentFailure;
use replicante::fetcher::fetch::FetchRun;
use replicante::fetcher::fetch::Outcome;
use replicante::fetcher::protocol::Request;
use replicante::mock::AgentScript;
use replicante::mock::World;
use replicante::models::agent::Agent;
use replicante::models::agent::AgentStatus;
use replicante::models::agent::AgentVersion;
use replicante::models::cluster::ClusterDiscovery;
use replicante::models::datastore::CommitOffset;
use replicante::models::datastore::Node;
use replicante::models::datastore::Shard;
use replicante::models::datastore::ShardRole;
use replicante::models::datastore::WireNode;
use replicante::models::datastore::WireShard;
use replicante::models::events::EventPayload;
use replicante::models::tasks::ClusterRefreshPayload;
use replicante::store::mock::StoreOp;
use replicante::store::shards::ShardsAttribures;
use replicante::store::shards::ShardsCounts;
use replicante::streams::events::ScanFilters;
use replicante::streams::events::ScanOptions;
use replicante::tasks::cluster_refresh::Event;
use replicante::tasks::cluster_refresh::Handler;
use replicante::tasks::cluster_refresh::Request as HandlerRequest;
use replicante::tasks::cluster_refresh::TaskAck;

const STEPS: usize = 10_000;

fn at(secs: i64) -> Timestamp {
    Timestamp::new(secs, 0)
}

fn world() -> World {
    World::new(NodeId::new("node-1", "core one"))
}

fn script(target: &str, cluster: &str, display_name: &str, node: &str, shards: Vec<WireShard>) -> AgentScript {
    AgentScript {
        target: target.to_string(),
        info: Ok(AgentVersion::new("abc", "1.0.0", "clean")),
        node: Ok(WireNode::new(Some(display_name.to_string()), cluster, "DB", node, "1")),
        shards: Ok(shards),
    }
}

fn discovery(targets: &[&str]) -> ClusterDiscovery {
    ClusterDiscovery::new("c1", targets.iter().map(|t| t.to_string()).collect())
        .with_display_name("C1")
}

fn payload(targets: &[&str]) -> Result<ClusterRefreshPayload, String> {
    Ok(ClusterRefreshPayload::new(discovery(targets), false))
}

fn codes(world: &World) -> Vec<&'static str> {
    world
        .events
        .scan(&ScanFilters::all(), ScanOptions::default())
        .iter()
        .map(|event| event.payload.code())
        .collect()
}

#[test]
fn single_node_happy_path() {
    let mut world = world();
    world.agents.push(script(
        "http://a",
        "c1",
        "C1",
        "n1",
        vec![WireShard::new("s1", ShardRole::Primary, None, None)],
    ));
    // Discovery finds the cluster for the first time.
    let plan = replicante::components::discovery::process(
        discovery(&["http://a"]),
        world.store.cluster_discovery("c1").unwrap(),
        false,
        at(99),
    );
    world.events.emit(plan.event.expect("a new cluster gives an event")).unwrap();
    world.store.persist_discovery(plan.persist.expect("a new cluster is persisted")).unwrap();
    // The refresh that discovery asked for.
    let end = world.handle(Handler::new(), &Ok(plan.refresh), at(100), STEPS);
    assert_eq!(end.ack(), Some(TaskAck::Success));
    assert!(end.error().is_none());
    assert!(!end.is_skipped());

    assert_eq!(world.store.agents.len(), 1);
    assert_eq!(
        world.store.agent("c1", "http://a").unwrap(),
        Some(Agent::new("c1", "http://a", AgentStatus::Up))
    );
    assert_eq!(world.store.nodes.len(), 1);
    assert_eq!(
        world.store.node("c1", "n1").unwrap(),
        Some(Node::new(WireNode::new(Some("C1".into()), "c1", "DB", "n1", "1")))
    );
    assert_eq!(world.store.shards.len(), 1);
    assert_eq!(
        world.store.shard("c1", "n1", "s1").unwrap(),
        Some(Shard::new("c1", "n1", WireShard::new("s1", ShardRole::Primary, None, None)))
    );
    let meta = world.store.cluster_meta("c1").unwrap().expect("the metadata is persisted");
    assert_eq!(meta.nodes, 1);
    assert_eq!(meta.kinds, vec!["DB".to_string()]);
    assert_eq!(meta.display_name, "C1");
    assert_eq!(codes(&world), vec!["CLUSTER_NEW", "NODE_NEW", "SHARD_ALLOCATION_NEW"]);
    // The lock is released at the end.
    assert!(world.coordinator.non_blocking_locks().is_empty());
    let counts = world.store.shards_counts(&ShardsAttribures { cluster_id: "c1".into() });
    assert_eq!(counts, ShardsCounts { shards: 1, primaries: 1 });
}

#[test]
fn identity_mismatch() {
    let mut world = world();
    world.agents.push(script("http://a", "c1", "C1", "n1", vec![]));
    world.agents.push(script(
        "http://b",
        "c2",
        "C1",
        "n2",
        vec![WireShard::new("s1", ShardRole::Primary, None, None)],
    ));
    let end = world.handle(Handler::new(), &payload(&["http://a", "http://b"]), at(100), STEPS);
    assert_eq!(end.ack(), Some(TaskAck::Success));
    assert_eq!(
        world.store.agent("c1", "http://a").unwrap(),
        Some(Agent::new("c1", "http://a", AgentStatus::Up))
    );
    assert!(world.store.node("c1", "n1").unwrap().is_some());
    let second = world.store.agent("c1", "http://b").unwrap().expect("the agent is persisted");
    assert_eq!(
        second.status,
        AgentStatus::AgentDown(
            "expected cluster ID 'c1' but found 'c2' for node with ID 'n2'".to_string()
        )
    );
    // Nothing is persisted of the node behind the second agent.
    assert_eq!(world.store.nodes.len(), 1);
    assert_eq!(world.store.shards.len(), 0);
    assert!(world.store.node("c1", "n2").unwrap().is_none());
    assert!(world.store.node("c2", "n2").unwrap().is_none());
}

#[test]
fn display_name_mismatch() {
    let mut world = world();
    world.agents.push(script("http://a", "c1", "C1", "n1", vec![]));
    world.agents.push(script("http://b", "c1", "Other", "n2", vec![]));
    world.handle(Handler::new(), &payload(&["http://a", "http://b"]), at(100), STEPS);
    let second = world.store.agent("c1", "http://b").unwrap().unwrap();
    assert_eq!(
        second.status,
        AgentStatus::AgentDown(
            "expected cluster display name 'C1' but found 'Other' for node with ID 'n2'"
                .to_string()
        )
    );
    assert_eq!(world.store.nodes.len(), 1);
}

#[test]
fn first_node_sets_the_display_name() {
    let mut world = world();
    world.agents.push(script("http://a", "c1", "First", "n1", vec![]));
    world.agents.push(script("http://b", "c1", "Second", "n2", vec![]));
    world.agents.push(script("http://c", "c1", "First", "n3", vec![]));
    // The discovery record has no display name.
    let cluster = ClusterDiscovery::new(
        "c1",
        vec!["http://a".into(), "http://b".into(), "http://c".into()],
    );
    let task = Ok(ClusterRefreshPayload::new(cluster, false));
    world.handle(Handler::new(), &task, at(100), STEPS);
    assert_eq!(world.store.agent("c1", "http://a").unwrap().unwrap().status, AgentStatus::Up);
    assert!(matches!(
        world.store.agent("c1", "http://b").unwrap().unwrap().status,
        AgentStatus::AgentDown(_)
    ));
    assert_eq!(world.store.agent("c1", "http://c").unwrap().unwrap().status, AgentStatus::Up);
    assert_eq!(world.store.nodes.len(), 2);
    // The metadata takes the identifier where the discovery has no name.
    assert_eq!(world.store.cluster_meta("c1").unwrap().unwrap().display_name, "c1");
}

#[test]
fn lock_held() {
    let mut world = world();
    world.agents.push(script("http://a", "c1", "C1", "n1", vec![]));
    let task = payload(&["http://a"]);
    // The first handler gets as far as the fetch.
    let mut first = Handler::new();
    for _ in 0..2 {
        let request = first.request().unwrap();
        let event = world.answer_handler(request, &task, at(100), STEPS).unwrap();
        first = first.handle(event, at(100));
    }
    assert!(matches!(first.request(), Some(HandlerRequest::Fetch { .. })));
    assert_eq!(first.ack(), None);
    // The second handler finds the cluster locked.
    let second = world.handle(Handler::new(), &task, at(101), STEPS);
    assert!(second.is_skipped());
    assert_eq!(second.ack(), Some(TaskAck::Success));
    assert!(second.error().is_none());
    assert_eq!(second.request(), None);
    // It touched nothing.
    assert_eq!(world.store.agents.len(), 0);
    assert_eq!(world.coordinator.non_blocking_locks().len(), 1);
    // The first goes on and ends.
    let first = world.handle(first, &task, at(102), STEPS);
    assert_eq!(first.ack(), Some(TaskAck::Success));
    assert!(!first.is_skipped());
    assert_eq!(world.store.agents.len(), 1);
    assert!(world.coordinator.non_blocking_locks().is_empty());
    // Now the cluster can be refreshed again.
    let third = world.handle(Handler::new(), &task, at(103), STEPS);
    assert!(!third.is_skipped());
    assert_eq!(third.ack(), Some(TaskAck::Success));
}

#[test]
fn lock_lost_mid_refresh() {
    let mut world = world();
    world.agents.push(script("http://a", "c1", "C1", "n1", vec![]));
    world.agents.push(script("http://b", "c1", "C1", "n2", vec![]));
    let owner = NodeId::new("node-1", "core one");
    world.coordinator.acquire("cluster_refresh/c1", &owner).unwrap();
    let mut run = FetchRun::start(discovery(&["http://a", "http://b"]));
    let mut steps = 0;
    while let Some(request) = run.request() {
        // The session ends right after the first agent was persisted.
        let last_of_first = matches!(&request, Request::PersistAgent(agent) if agent.host == "http://a");
        let response = world.answer_fetch("cluster_refresh/c1", request);
        run = run.advance(response, at(100));
        if last_of_first {
            world.coordinator.lose_session(&owner);
        }
        steps += 1;
        assert!(steps < STEPS);
    }
    assert_eq!(run.outcome(), Some(Outcome::LockLost));
    assert_eq!(world.store.nodes.len(), 1);
    assert!(world.store.node("c1", "n1").unwrap().is_some());
    assert!(world.store.agent("c1", "http://b").unwrap().is_none());
    // The handler takes the lost lock as the end of the refresh, and not as an error.
    let handler = Handler::new()
        .handle(Event::Deserialized(payload(&["http://a", "http://b"])), at(100))
        .handle(Event::Acquired(Ok(())), at(100));
    let handler = handler.handle(Event::Fetched(run.outcome().unwrap()), at(101));
    assert_eq!(handler.ack(), Some(TaskAck::Success));
    assert!(handler.error().is_none());
    // No aggregation runs.
    assert_eq!(handler.request(), None);
    assert!(world.store.cluster_meta("c1").unwrap().is_none());
}

#[test]
fn lock_lost_before_the_refresh_touches_anything() {
    let mut world = world();
    world.agents.push(script("http://a", "c1", "C1", "n1", vec![]));
    // Nobody holds the lock, so the watcher reads false at once.
    let run = world.run_fetch("cluster_refresh/c1", FetchRun::start(discovery(&["http://a"])), at(1), STEPS);
    assert_eq!(run.outcome(), Some(Outcome::LockLost));
    assert_eq!(world.store.agents.len(), 0);
}

#[test]
fn agent_down() {
    let mut world = world();
    world.agents.push(AgentScript {
        target: "http://a".into(),
        info: Err(AgentFailure::Invalid("connection reset".into())),
        node: Err(AgentFailure::Invalid("unused".into())),
        shards: Err(AgentFailure::Invalid("unused".into())),
    });
    world.agents.push(script("http://b", "c1", "C1", "n2", vec![]));
    let end = world.handle(Handler::new(), &payload(&["http://a", "http://b"]), at(100), STEPS);
    assert_eq!(end.ack(), Some(TaskAck::Success));
    let first = world.store.agent("c1", "http://a").unwrap().unwrap();
    assert_eq!(
        first.status,
        AgentStatus::AgentDown(
            "error fetching/sending info from/to agent http://a: connection reset".to_string()
        )
    );
    // No node is written for the agent that is down, and the next is processed.
    assert!(world.store.agent_info("c1", "http://a").unwrap().is_none());
    assert_eq!(world.store.nodes.len(), 1);
    assert_eq!(world.store.agent("c1", "http://b").unwrap().unwrap().status, AgentStatus::Up);
    assert_eq!(world.store.cluster_meta("c1").unwrap().unwrap().nodes, 1);
}

#[test]
fn agent_without_a_script_is_down() {
    let mut world = world();
    let end = world.handle(Handler::new(), &payload(&["http://gone"]), at(100), STEPS);
    assert_eq!(end.ack(), Some(TaskAck::Success));
    assert_eq!(
        world.store.agent("c1", "http://gone").unwrap().unwrap().status,
        AgentStatus::AgentDown(
            "error fetching/sending info from/to agent http://gone: connection refused"
                .to_string()
        )
    );
}

#[test]
fn agent_that_cannot_be_connected_to() {
    let mut world = world();
    world.agents.push(AgentScript {
        target: "not an address".into(),
        info: Err(AgentFailure::Connect("invalid address".into())),
        node: Err(AgentFailure::Connect("invalid address".into())),
        shards: Err(AgentFailure::Connect("invalid address".into())),
    });
    world.handle(Handler::new(), &payload(&["not an address"]), at(100), STEPS);
    assert_eq!(
        world.store.agent("c1", "not an address").unwrap().unwrap().status,
        AgentStatus::AgentDown(
            "error connecting to agent not an address: invalid address".to_string()
        )
    );
}

#[test]
fn datastore_down() {
    let mut world = world();
    world.agents.push(AgentScript {
        target: "http://a".into(),
        info: Ok(AgentVersion::new("abc", "1.0.0", "clean")),
        node: Err(AgentFailure::Datastore("mongod is not running".into())),
        shards: Ok(vec![]),
    });
    world.agents.push(AgentScript {
        target: "http://b".into(),
        info: Ok(AgentVersion::new("abc", "1.0.0", "clean")),
        node: Ok(WireNode::new(Some("C1".into()), "c1", "DB", "n2", "1")),
        shards: Err(AgentFailure::Datastore("mongod went away".into())),
    });
    world.handle(Handler::new(), &payload(&["http://a", "http://b"]), at(100), STEPS);
    assert_eq!(
        world.store.agent("c1", "http://a").unwrap().unwrap().status,
        AgentStatus::NodeDown(
            "error fetching/sending status from/to agent http://a: mongod is not running"
                .to_string()
        )
    );
    // The build of the agent was persisted before the node failed.
    assert!(world.store.agent_info("c1", "http://a").unwrap().is_some());
    assert_eq!(
        world.store.agent("c1", "http://b").unwrap().unwrap().status,
        AgentStatus::NodeDown(
            "error fetching/sending shards from/to agent http://b: mongod went away".to_string()
        )
    );
    // The node behind the second agent was persisted before its shards failed.
    assert!(world.store.node("c1", "n2").unwrap().is_some());
}

#[test]
fn node_without_display_name_goes_by_the_cluster_id() {
    let mut world = world();
    world.agents.push(AgentScript {
        target: "http://a".into(),
        info: Ok(AgentVersion::new("abc", "1.0.0", "clean")),
        node: Ok(WireNode::new(None, "c1", "DB", "n1", "1")),
        shards: Ok(vec![]),
    });
    // The discovery says "C1", the node says nothing and so stands for "c1".
    world.handle(Handler::new(), &payload(&["http://a"]), at(100), STEPS);
    assert_eq!(
        world.store.agent("c1", "http://a").unwrap().unwrap().status,
        AgentStatus::AgentDown(
            "expected cluster display name 'C1' but found 'c1' for node with ID 'n1'".to_string()
        )
    );
}

#[test]
fn store_error() {
    let mut world = world();
    world.agents.push(script("http://a", "c1", "C1", "n1", vec![]));
    world.store.fail_on(StoreOp::PersistNode);
    let end = world.handle(Handler::new(), &payload(&["http://a"]), at(100), STEPS);
    assert_eq!(end.ack(), Some(TaskAck::Fail));
    assert!(!end.is_skipped());
    let error = end.error().expect("the handler reports the error");
    assert_eq!(error.kind(), &ErrorKind::ClusterRefresh);
    assert_eq!(
        error.cause(),
        Some("error persisting node to the primary store: MongoDBOperation".to_string())
    );
    // No release is attempted after the error: the lock is still there.
    assert_eq!(world.coordinator.non_blocking_locks().len(), 1);
    assert!(world.store.cluster_meta("c1").unwrap().is_none());
    // The event for the new node was emitted before the write failed.
    assert_eq!(codes(&world), vec!["NODE_NEW"]);
}

#[test]
fn store_error_on_read_and_on_aggregation() {
    let mut world = world();
    world.agents.push(script(
        "http://a",
        "c1",
        "C1",
        "n1",
        vec![WireShard::new("s1", ShardRole::Primary, None, None)],
    ));
    world.store.fail_on(StoreOp::Shard);
    let end = world.handle(Handler::new(), &payload(&["http://a"]), at(100), STEPS);
    assert_eq!(end.ack(), Some(TaskAck::Fail));
    assert_eq!(
        end.error().unwrap().cause(),
        Some("error fetching shard from the primary store: MongoDBOperation".to_string())
    );

    let mut world = self::world();
    world.agents.push(script("http://a", "c1", "C1", "n1", vec![]));
    world.store.fail_on(StoreOp::PersistClusterMeta);
    let end = world.handle(Handler::new(), &payload(&["http://a"]), at(100), STEPS);
    assert_eq!(end.ack(), Some(TaskAck::Fail));
    assert_eq!(end.error().unwrap().kind(), &ErrorKind::ClusterAggregation);

    let mut world = self::world();
    world.store.fail_on(StoreOp::MarkStale);
    let end = world.handle(Handler::new(), &payload(&["http://a"]), at(100), STEPS);
    assert_eq!(
        end.error().unwrap().cause(),
        Some("error persisting cluster staleness to the primary store: MongoDBOperation".to_string())
    );

    let mut world = self::world();
    world.agents.push(script("http://a", "c1", "C1", "n1", vec![]));
    world.store.fail_on(StoreOp::PersistEvent);
    let end = world.handle(Handler::new(), &payload(&["http://a"]), at(100), STEPS);
    assert_eq!(
        end.error().unwrap().cause(),
        Some("error emitting NODE_NEW event: MongoDBOperation".to_string())
    );
}

#[test]
fn undecodable_task_is_dropped() {
    let mut world = world();
    let end = world.handle(Handler::new(), &Err("expected value at line 1".into()), at(1), STEPS);
    assert_eq!(end.ack(), Some(TaskAck::Drop));
    let error = end.error().unwrap();
    assert_eq!(error.kind(), &ErrorKind::Deserialize("task payload", "ClusterRefreshPayload"));
    assert_eq!(error.kind().kind_name(), Some("Deserialize"));
    assert_eq!(error.cause(), Some("expected value at line 1".to_string()));
    assert!(world.coordinator.non_blocking_locks().is_empty());
}

#[test]
fn refresh_id_is_the_second_of_the_lock() {
    let handler = Handler::new()
        .handle(Event::Deserialized(payload(&["http://a"])), at(5))
        .handle(Event::Acquired(Ok(())), Timestamp::new(1_234, 999_999_999));
    match handler.request() {
        Some(HandlerRequest::Fetch { cluster, refresh_id }) => {
            assert_eq!(refresh_id, 1_234);
            assert_eq!(cluster, discovery(&["http://a"]));
        }
        other => panic!("unexpected request: {:?}", other),
    }
    match Handler::new().handle(Event::Deserialized(payload(&["http://a"])), at(5)).request() {
        Some(HandlerRequest::Acquire { lock }) => assert_eq!(lock, "cluster_refresh/c1"),
        other => panic!("unexpected request: {:?}", other),
    }
}

#[test]
fn unexpected_answers_are_ignored() {
    let handler = Handler::new().handle(Event::Acquired(Ok(())), at(1));
    assert_eq!(handler.request(), Some(HandlerRequest::Deserialize));
    let handler = handler.handle(Event::Released(Ok(())), at(1));
    assert_eq!(handler.request(), Some(HandlerRequest::Deserialize));
    assert_eq!(handler.ack(), None);
}

#[test]
fn rerun_with_unchanged_topology_emits_no_changes() {
    let mut world = world();
    let shards = |offset: i64| {
        vec![
            WireShard::new("s1", ShardRole::Primary, Some(CommitOffset::seconds(offset)), None),
            WireShard::new(
                "s2",
                ShardRole::Secondary,
                Some(CommitOffset::seconds(offset)),
                Some(CommitOffset::unit("ops", 3)),
            ),
        ]
    };
    world.agents.push(script("http://a", "c1", "C1", "n1", shards(10)));
    let task = payload(&["http://a"]);
    world.handle(Handler::new(), &task, at(100), STEPS);
    assert_eq!(codes(&world), vec!["NODE_NEW", "SHARD_ALLOCATION_NEW", "SHARD_ALLOCATION_NEW"]);
    // The same again: nothing is new and nothing changed.
    world.handle(Handler::new(), &task, at(200), STEPS);
    assert_eq!(world.events.len(), 3);
    // The offsets move but the allocation does not: the shards are
    // persisted and no event is emitted.
    world.agents[0] = script("http://a", "c1", "C1", "n1", shards(20));
    world.handle(Handler::new(), &task, at(300), STEPS);
    assert_eq!(world.events.len(), 3);
    assert_eq!(
        world.store.shard("c1", "n1", "s1").unwrap().unwrap().commit_offset,
        Some(CommitOffset::seconds(20))
    );
    // A role changes: one event says so.
    let mut changed = shards(20);
    changed[1] = WireShard::new("s2", ShardRole::Primary, Some(CommitOffset::seconds(20)), None);
    world.agents[0] = script("http://a", "c1", "C1", "n1", changed);
    world.handle(Handler::new(), &task, at(400), STEPS);
    assert_eq!(world.events.len(), 4);
    let last = world.events.scan(&ScanFilters::all(), ScanOptions { limit: Some(1), reverse: true });
    match &last[0].payload {
        EventPayload::ShardAllocationChanged { before, after } => {
            assert_eq!(before.role, ShardRole::Secondary);
            assert_eq!(after.role, ShardRole::Primary);
        }
        other => panic!("unexpected event: {:?}", other),
    }
    assert_eq!(last[0].timestamp, at(400));
}

#[test]
fn events_carry_the_instant_of_the_step_that_made_them() {
    let mut world = world();
    world.agents.push(script(
        "http://a",
        "c1",
        "C1",
        "n1",
        vec![WireShard::new("s1", ShardRole::Primary, None, None)],
    ));
    let owner = NodeId::new("node-1", "core one");
    world.coordinator.acquire("cluster_refresh/c1", &owner).unwrap();
    let mut run = FetchRun::start(discovery(&["http://a"]));
    let start = at(1_000);
    let mut clock = 1_000;
    while let Some(request) = run.request() {
        let response = world.answer_fetch("cluster_refresh/c1", request);
        clock += 1;
        run = run.advance(response, at(clock));
    }
    let end = at(clock);
    assert_eq!(run.outcome(), Some(Outcome::Completed));
    let events = world.events.scan(&ScanFilters::all(), ScanOptions::default());
    assert_eq!(events.len(), 2);
    for event in &events {
        assert!(event.timestamp.is_within(&start, &end));
    }
    assert!(events[0].timestamp.is_at_or_before(&events[1].timestamp));
}

#[test]
fn node_changes_are_reported() {
    let mut world = world();
    world.agents.push(script("http://a", "c1", "C1", "n1", vec![]));
    let task = payload(&["http://a"]);
    world.handle(Handler::new(), &task, at(100), STEPS);
    world.agents[0].node = Ok(WireNode::new(Some("C1".into()), "c1", "DB", "n1", "2"));
    world.handle(Handler::new(), &task, at(200), STEPS);
    assert_eq!(codes(&world), vec!["NODE_NEW", "NODE_CHANGED"]);
    assert_eq!(world.store.node("c1", "n1").unwrap().unwrap().version, "2");
}

#[test]
fn meta_counts_distinct_nodes_of_the_refresh() {
    let mut world = world();
    // Two agents in front of the same node, and one in front of another.
    world.agents.push(script("http://a", "c1", "C1", "n1", vec![]));
    world.agents.push(script("http://b", "c1", "C1", "n1", vec![]));
    world.agents.push(AgentScript {
        target: "http://c".to_string(),
        info: Ok(AgentVersion::new("abc", "1.0.0", "clean")),
        node: Ok(WireNode::new(Some("C1".to_string()), "c1", "Cache", "n2", "1")),
        shards: Ok(vec![]),
    });
    // A node of an earlier refresh that is gone now.
    world
        .store
        .persist_node(Node::new(WireNode::new(Some("C1".into()), "c1", "DB", "n0", "1")))
        .unwrap();
    world.handle(Handler::new(), &payload(&["http://a", "http://b", "http://c"]), at(100), STEPS);
    let meta = world.store.cluster_meta("c1").unwrap().unwrap();
    assert_eq!(meta.nodes, 2);
    assert_eq!(meta.kinds, vec!["DB".to_string(), "Cache".to_string()]);
    assert_eq!(world.store.nodes.len(), 3);
}

#[test]
fn snapshot_follows_the_flag_of_the_task() {
    let mut world = world();
    world.agents.push(script(
        "http://a",
        "c1",
        "C1",
        "n1",
        vec![WireShard::new("s1", ShardRole::Primary, None, None)],
    ));
    let task = Ok(ClusterRefreshPayload::new(discovery(&["http://a"]), true));
    let end = world.handle(Handler::new(), &task, at(100), STEPS);
    assert_eq!(end.ack(), Some(TaskAck::Success));
    assert_eq!(
        codes(&world),
        vec![
            "NODE_NEW",
            "SHARD_ALLOCATION_NEW",
            "SNAPSHOT_DISCOVERY",
            "SNAPSHOT_AGENT",
            "SNAPSHOT_AGENT_INFO",
            "SNAPSHOT_NODE",
            "SNAPSHOT_SHARD",
        ]
    );
    let snapshots = world.events.scan(
        &ScanFilters { kind_prefix: Some("SNAPSHOT".into()), from: None, until: None },
        ScanOptions::default(),
    );
    assert_eq!(snapshots.len(), 5);
}

#[test]
fn a_run_that_is_cut_short_is_not_done() {
    let mut world = world();
    world.agents.push(script("http://a", "c1", "C1", "n1", vec![]));
    let owner = NodeId::new("node-1", "core one");
    world.coordinator.acquire("cluster_refresh/c1", &owner).unwrap();
    let run = world.run_fetch("cluster_refresh/c1", FetchRun::start(discovery(&["http://a"])), at(1), 3);
    assert_eq!(run.outcome(), None);
    assert!(!run.is_done());
    assert!(run.request().is_some());
    let run = world.run_fetch("cluster_refresh/c1", run, at(2), STEPS);
    assert_eq!(run.outcome(), Some(Outcome::Completed));
    assert!(run.is_done());
    // A handler whose fetch does not end in the steps it is given waits.
    let mut world = self::world();
    world.agents.push(script("http://a", "c1", "C1", "n1", vec![]));
    let end = world.handle(Handler::new(), &payload(&["http://a"]), at(1), 3);
    assert_eq!(end.ack(), None);
}
