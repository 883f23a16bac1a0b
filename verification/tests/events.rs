use replicante::clock::Timestamp;
use replicante::models::agent::Agent;
use replicante::models::agent::AgentStatus;
use replicante::models::cluster::ClusterDiscovery;
use replicante::models::datastore::Node;
use replicante::models::datastore::Shard;
use replicante::models::datastore::ShardRole;
use replicante::models::datastore::WireNode;
use replicante::models::datastore::WireShard;
use replicante::models::events::Event;
use replicante::models::events::EventFamily;
use replicante::models::events::EventPayload;
use replicante::streams::EventsStream;
use replicante::streams::MockEvents;
use replicante::streams::events::ScanFilters;
use replicante::streams::events::ScanOptions;

#[test]
fn cluster_new() {
    let discovery = ClusterDiscovery::new("test", vec![]);
    let event = Event::builder().cluster().new(discovery.clone());
    let expected = EventPayload::ClusterNew(discovery);
    assert_eq!(event.payload, expected);
}

#[test]
fn builder_keeps_the_instant_that_was_set() {
    let discovery = ClusterDiscovery::new("test", vec![]);
    let at = Timestamp::new(1_500_000_000, 42);
    let event = Event::builder().timestamp(at).cluster().new(discovery);
    assert_eq!(event.timestamp, at);
}

#[test]
fn builder_reads_the_clock_when_no_instant_was_set() {
    let discovery = ClusterDiscovery::new("test", vec![]);
    let event = Event::builder().cluster().new(discovery);
    // Any clock of a machine that runs this test is past the year 2001.
    assert!(event.timestamp.secs > 1_000_000_000);
}

fn stream() -> EventsStream {
    let mut stream = MockEvents::mock(MockEvents::new());
    let node = |id: &str| Node::new(WireNode::new(None, "c1", "DB", id, "1"));
    let events = vec![
        Event::builder().timestamp(Timestamp::new(10, 0)).cluster().new(ClusterDiscovery::new("c1", vec![])),
        Event::builder().timestamp(Timestamp::new(20, 0)).node().new_node(node("n1")),
        Event::builder().timestamp(Timestamp::new(20, 5)).node().changed(node("n1"), node("n2")),
        Event::builder().timestamp(Timestamp::new(30, 0)).node().new_node(node("n3")),
        Event::builder().timestamp(Timestamp::new(25, 0)).snapshot().node(node("n3")),
    ];
    for event in events {
        stream.emit(event).unwrap();
    }
    stream
}

fn scan_codes(filters: ScanFilters, options: ScanOptions) -> Vec<(i64, &'static str)> {
    stream()
        .scan(&filters, options)
        .iter()
        .map(|event| (event.timestamp.secs, event.payload.code()))
        .collect()
}

#[test]
fn scan_yields_events_in_the_order_emitted() {
    assert_eq!(stream().len(), 5);
    assert_eq!(
        scan_codes(ScanFilters::all(), ScanOptions::default()),
        vec![
            (10, "CLUSTER_NEW"),
            (20, "NODE_NEW"),
            (20, "NODE_CHANGED"),
            (30, "NODE_NEW"),
            (25, "SNAPSHOT_NODE")
        ]
    );
    assert_eq!(
        scan_codes(ScanFilters::all(), ScanOptions { limit: Some(2), reverse: true }),
        vec![(25, "SNAPSHOT_NODE"), (30, "NODE_NEW")]
    );
    assert_eq!(
        scan_codes(ScanFilters::all(), ScanOptions { limit: Some(2), reverse: false }),
        vec![(10, "CLUSTER_NEW"), (20, "NODE_NEW")]
    );
    assert_eq!(scan_codes(ScanFilters::all(), ScanOptions { limit: Some(0), reverse: false }), vec![]);
    assert_eq!(
        scan_codes(ScanFilters::all(), ScanOptions { limit: Some(50), reverse: true }).len(),
        5
    );
}

#[test]
fn scan_filters_by_kind_and_time() {
    let by_kind = ScanFilters { kind_prefix: Some("NODE".into()), from: None, until: None };
    assert_eq!(
        scan_codes(by_kind, ScanOptions::default()),
        vec![(20, "NODE_NEW"), (20, "NODE_CHANGED"), (30, "NODE_NEW")]
    );
    let exact = ScanFilters { kind_prefix: Some("NODE_NEW".into()), from: None, until: None };
    assert_eq!(
        scan_codes(exact, ScanOptions { limit: Some(1), reverse: true }),
        vec![(30, "NODE_NEW")]
    );
    let longer = ScanFilters { kind_prefix: Some("NODE_NEWER".into()), from: None, until: None };
    assert_eq!(scan_codes(longer, ScanOptions::default()), vec![]);
    let bounded = ScanFilters {
        kind_prefix: None,
        from: Some(Timestamp::new(20, 1)),
        until: Some(Timestamp::new(30, 0)),
    };
    assert_eq!(
        scan_codes(bounded, ScanOptions::default()),
        vec![(20, "NODE_CHANGED"), (30, "NODE_NEW"), (25, "SNAPSHOT_NODE")]
    );
    let both = ScanFilters {
        kind_prefix: Some("SNAPSHOT".into()),
        from: Some(Timestamp::new(26, 0)),
        until: None,
    };
    assert_eq!(scan_codes(both, ScanOptions::default()), vec![]);
}

#[test]
fn payloads_know_their_family_and_cluster() {
    let agent = Agent::new("c7", "http://a", AgentStatus::Up);
    let shard = Shard::new("c8", "n", WireShard::new("s", ShardRole::Primary, None, None));
    let event = Event::builder().agent().new_agent(agent.clone());
    assert_eq!(event.payload.family(), EventFamily::Agent);
    assert_eq!(event.payload.code(), "AGENT_NEW");
    assert_eq!(event.payload.cluster_id(), "c7");
    let event = Event::builder().shard().shard_allocation_new(shard.clone());
    assert_eq!(event.payload.family(), EventFamily::Shard);
    assert_eq!(event.payload.cluster_id(), "c8");
    let event = Event::builder().shard().allocation_changed(shard.clone(), shard.clone());
    assert_eq!(event.payload.code(), "SHARD_ALLOCATION_CHANGED");
    let event = Event::builder().snapshot().agent(agent);
    assert_eq!(event.payload.family(), EventFamily::Snapshot);
    assert_eq!(event.payload.code(), "SNAPSHOT_AGENT");
    let event = Event::builder().cluster().changed(
        ClusterDiscovery::new("old", vec![]),
        ClusterDiscovery::new("new", vec![]),
    );
    assert_eq!(event.payload.family(), EventFamily::Cluster);
    assert_eq!(event.payload.cluster_id(), "new");
    assert_eq!(event.clone(), event);
}

#[test]
fn instants_compare_by_seconds_then_nanoseconds() {
    let early = Timestamp::new(5, 999_999_999);
    let late = Timestamp::new(6, 0);
    assert!(early.is_at_or_before(&late));
    assert!(!late.is_at_or_before(&early));
    assert!(early.is_at_or_before(&early));
    assert!(Timestamp::new(-1, 0).is_at_or_before(&Timestamp::new(0, 0)));
    assert!(Timestamp::new(5, 1).is_at_or_before(&Timestamp::new(5, 2)));
    assert!(!Timestamp::new(5, 3).is_at_or_before(&Timestamp::new(5, 2)));
    assert!(late.is_within(&early, &late));
    assert!(!Timestamp::new(7, 0).is_within(&early, &late));
    assert_eq!(late.unix_seconds(), 6);
    let first = replicante::clock::now();
    let second = replicante::clock::now();
    assert!(first.is_at_or_before(&second));
}
