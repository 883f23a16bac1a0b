use replicante::clock::Timestamp;
use replicante::models::agent::Agent;
use replicante::models::agent::AgentInfo;
use replicante::models::agent::AgentStatus;
use replicante::models::agent::AgentVersion;
use replicante::models::cluster::ClusterDiscovery;
use replicante::models::cluster::ClusterMeta;
use replicante::models::datastore::CommitOffset;
use replicante::models::datastore::Node;
use replicante::models::datastore::Shard;
use replicante::models::datastore::ShardRole;
use replicante::models::datastore::WireNode;
use replicante::models::datastore::WireShard;
use replicante::models::events::Event;
use replicante::models::events::EventPayload;
use replicante::store::codec::decode_discovery;
use replicante::store::codec::decode_meta;
use replicante::store::codec::decode_node;
use replicante::store::codec::decode_offset;
use replicante::store::codec::decode_shard;
use replicante::store::codec::encode_discovery;
use replicante::store::codec::encode_meta;
use replicante::store::codec::encode_node;
use replicante::store::codec::encode_offset;
use replicante::store::codec::encode_shard;
use replicante::store::document::get;
use replicante::store::document::DecodeError;
use replicante::store::document::Value;
use replicante::store::event_codec::decode_agent;
use replicante::store::event_codec::decode_agent_info;
use replicante::store::event_codec::decode_event;
use replicante::store::event_codec::decode_status;
use replicante::store::event_codec::decode_timestamp;
use replicante::store::event_codec::encode_agent;
use replicante::store::event_codec::encode_agent_info;
use replicante::store::event_codec::encode_event;
use replicante::store::event_codec::encode_status;
use replicante::store::event_codec::encode_timestamp;

fn field(name: &str, value: Value) -> (String, Value) {
    (name.to_string(), value)
}

fn text(value: &str) -> Value {
    Value::Text(value.to_string())
}

fn node() -> Node {
    Node::new(WireNode::new(Some("humans".into()), "cluster", "DB", "Name", "1.2.3"))
}

fn shard(role: ShardRole) -> Shard {
    Shard::new(
        "cluster",
        "node",
        WireShard::new("shard", role, Some(CommitOffset::seconds(54)), None),
    )
}

#[test]
fn node_round_trip() {
    let encoded = encode_node(&node());
    assert_eq!(
        encoded,
        Value::Doc(vec![
            field("cluster_display_name", text("humans")),
            field("cluster_id", text("cluster")),
            field("kind", text("DB")),
            field("node_id", text("Name")),
            field("version", text("1.2.3")),
        ])
    );
    assert_eq!(decode_node(&encoded), Ok(node()));
    // A node that reports no display name goes by its cluster.
    let plain = Node::new(WireNode::new(None, "cluster", "DB", "Name", "1.2.3"));
    assert_eq!(plain.cluster_display_name, "cluster");
    assert_eq!(decode_node(&encode_node(&plain)), Ok(plain));
}

#[test]
fn node_decoding_names_what_is_wrong() {
    assert_eq!(decode_node(&Value::Null), Err(DecodeError::NotADocument));
    assert_eq!(decode_node(&text("node")), Err(DecodeError::NotADocument));
    assert_eq!(
        decode_node(&Value::Doc(vec![])),
        Err(DecodeError::MissingField("cluster_display_name"))
    );
    let fields = vec![
        field("cluster_display_name", text("humans")),
        field("cluster_id", text("cluster")),
        field("kind", Value::Int(3)),
    ];
    assert_eq!(decode_node(&Value::Doc(fields)), Err(DecodeError::InvalidField("kind")));
    // The order of the fields does not matter, and fields that are not known are ignored.
    let fields = vec![
        field("version", text("1.2.3")),
        field("extra", Value::Flag(true)),
        field("node_id", text("Name")),
        field("kind", text("DB")),
        field("cluster_id", text("cluster")),
        field("cluster_display_name", text("humans")),
        field("kind", text("ignored")),
    ];
    assert_eq!(decode_node(&Value::Doc(fields)), Ok(node()));
}

#[test]
fn discovery_round_trip() {
    let plain = ClusterDiscovery::new("test", vec!["a".into(), "b".into()]);
    let encoded = encode_discovery(&plain);
    assert_eq!(
        encoded,
        Value::Doc(vec![
            field("cluster_id", text("test")),
            field("display_name", Value::Null),
            field("nodes", Value::Texts(vec!["a".into(), "b".into()])),
        ])
    );
    assert_eq!(decode_discovery(&encoded), Ok(plain.clone()));
    let named = plain.clone().with_display_name("Test");
    assert_eq!(decode_discovery(&encode_discovery(&named)), Ok(named));
    // A display name that is missing is no display name.
    let fields =
        vec![field("cluster_id", text("test")), field("nodes", Value::Texts(vec!["a".into(), "b".into()]))];
    assert_eq!(decode_discovery(&Value::Doc(fields)), Ok(plain));
    let fields = vec![field("cluster_id", text("test")), field("display_name", Value::Int(1))];
    assert_eq!(
        decode_discovery(&Value::Doc(fields)),
        Err(DecodeError::InvalidField("display_name"))
    );
    let fields = vec![field("cluster_id", text("test"))];
    assert_eq!(decode_discovery(&Value::Doc(fields)), Err(DecodeError::MissingField("nodes")));
}

#[test]
fn meta_round_trip() {
    let meta = ClusterMeta::new("c1", "mongo", 4);
    let encoded = encode_meta(&meta);
    assert_eq!(
        encoded,
        Value::Doc(vec![
            field("cluster_id", text("c1")),
            field("display_name", text("c1")),
            field("kinds", Value::Texts(vec!["mongo".into()])),
            field("nodes", Value::Int(4)),
        ])
    );
    assert_eq!(decode_meta(&encoded), Ok(meta));
    for nodes in [i32::MIN, -1, 0, i32::MAX] {
        let meta = ClusterMeta::new("c2", "redis", nodes);
        assert_eq!(decode_meta(&encode_meta(&meta)), Ok(meta));
    }
    let fields = vec![
        field("cluster_id", text("c1")),
        field("display_name", text("c1")),
        field("kinds", Value::Texts(vec![])),
        field("nodes", Value::Int(i32::MAX as i64 + 1)),
    ];
    assert_eq!(decode_meta(&Value::Doc(fields)), Err(DecodeError::InvalidField("nodes")));
}

#[test]
fn shard_round_trip() {
    let encoded = encode_shard(&shard(ShardRole::Secondary));
    assert_eq!(
        encoded,
        Value::Doc(vec![
            field("cluster_id", text("cluster")),
            field(
                "commit_offset",
                Value::Doc(vec![field("unit", text("seconds")), field("value", Value::Int(54))])
            ),
            field("lag", Value::Null),
            field("node_id", text("node")),
            field("role", text("secondary")),
            field("shard_id", text("shard")),
        ])
    );
    assert_eq!(decode_shard(&encoded), Ok(shard(ShardRole::Secondary)));
    for role in [
        ShardRole::Primary,
        ShardRole::Unknown("recovering".into()),
        // Roles of unknown names never pass for the known roles.
        ShardRole::Unknown("primary".into()),
        ShardRole::Unknown("".into()),
    ] {
        assert_eq!(decode_shard(&encode_shard(&shard(role.clone()))), Ok(shard(role)));
    }
    let lagging = Shard::new(
        "c",
        "n",
        WireShard::new(
            "s",
            ShardRole::Primary,
            Some(CommitOffset::unit("seconds", i64::MIN)),
            Some(CommitOffset::unit("ops", i64::MAX)),
        ),
    );
    assert_eq!(decode_shard(&encode_shard(&lagging)), Ok(lagging.clone()));
    // A unit called "seconds" is not the unit of seconds.
    assert_ne!(lagging.commit_offset, Some(CommitOffset::seconds(i64::MIN)));
    assert_eq!(
        decode_offset(&encode_offset(&CommitOffset::unit("", 0))),
        Ok(CommitOffset::unit("", 0))
    );
}

#[test]
fn shard_decoding_names_what_is_wrong() {
    let base = |role: Value, offset: Value| {
        Value::Doc(vec![
            field("cluster_id", text("c")),
            field("commit_offset", offset),
            field("node_id", text("n")),
            field("role", role),
            field("shard_id", text("s")),
        ])
    };
    assert_eq!(
        decode_shard(&base(text("leader"), Value::Null)),
        Err(DecodeError::InvalidField("role"))
    );
    assert_eq!(
        decode_shard(&base(Value::Flag(true), Value::Null)),
        Err(DecodeError::InvalidField("role"))
    );
    assert_eq!(
        decode_shard(&base(Value::Doc(vec![]), Value::Null)),
        Err(DecodeError::MissingField("unknown"))
    );
    assert_eq!(
        decode_shard(&base(text("primary"), text("54"))),
        Err(DecodeError::NotADocument)
    );
    let minutes = Value::Doc(vec![field("unit", text("minutes")), field("value", Value::Int(1))]);
    assert_eq!(
        decode_shard(&base(text("primary"), minutes)),
        Err(DecodeError::InvalidField("unit"))
    );
    let no_value = Value::Doc(vec![field("unit", text("seconds"))]);
    assert_eq!(
        decode_shard(&base(text("primary"), no_value)),
        Err(DecodeError::MissingField("value"))
    );
    assert!(decode_shard(&base(text("primary"), Value::Null)).is_ok());
}

#[test]
fn agent_round_trip() {
    for status in [
        AgentStatus::Up,
        AgentStatus::AgentDown("gone".into()),
        AgentStatus::NodeDown("".into()),
    ] {
        let agent = Agent::new("c1", "http://a", status.clone());
        assert_eq!(decode_agent(&encode_agent(&agent)), Ok(agent));
        assert_eq!(decode_status(&encode_status(&status)), Ok(status));
    }
    assert_eq!(
        encode_status(&AgentStatus::AgentDown("gone".into())),
        Value::Doc(vec![field("code", text("AGENT_DOWN")), field("message", text("gone"))])
    );
    let no_message = Value::Doc(vec![field("code", text("NODE_DOWN"))]);
    assert_eq!(decode_status(&no_message), Err(DecodeError::MissingField("message")));
    let unknown = Value::Doc(vec![field("code", text("ASLEEP"))]);
    assert_eq!(decode_status(&unknown), Err(DecodeError::InvalidField("code")));
    let info = AgentInfo::new("c1", "http://a", AgentVersion::new("abc", "1.0.0", "clean"));
    assert_eq!(decode_agent_info(&encode_agent_info(&info)), Ok(info));
}

#[test]
fn timestamp_round_trip() {
    for timestamp in [
        Timestamp::new(0, 0),
        Timestamp::new(i64::MIN, u32::MAX),
        Timestamp::new(i64::MAX, 1_999_999_999),
    ] {
        assert_eq!(decode_timestamp(&encode_timestamp(&timestamp)), Ok(timestamp));
    }
    let negative = Value::Doc(vec![field("secs", Value::Int(1)), field("nanos", Value::Int(-1))]);
    assert_eq!(decode_timestamp(&negative), Err(DecodeError::InvalidField("nanos")));
    let large = Value::Doc(vec![
        field("secs", Value::Int(1)),
        field("nanos", Value::Int(u32::MAX as i64 + 1)),
    ]);
    assert_eq!(decode_timestamp(&large), Err(DecodeError::InvalidField("nanos")));
}

#[test]
fn event_round_trip() {
    let discovery = ClusterDiscovery::new("c1", vec!["a".into()]).with_display_name("C1");
    let agent = Agent::new("c1", "http://a", AgentStatus::NodeDown("down".into()));
    let info = AgentInfo::new("c1", "http://a", AgentVersion::new("abc", "1.0.0", "clean"));
    let payloads = vec![
        EventPayload::ClusterNew(discovery.clone()),
        EventPayload::ClusterChanged {
            before: ClusterDiscovery::new("c1", vec![]),
            after: discovery.clone(),
        },
        EventPayload::AgentNew(agent.clone()),
        EventPayload::NodeNew(node()),
        EventPayload::NodeChanged {
            before: node(),
            after: Node::new(WireNode::new(None, "cluster", "DB", "Name", "2.0.0")),
        },
        EventPayload::ShardAllocationNew(shard(ShardRole::Primary)),
        EventPayload::ShardAllocationChanged {
            before: shard(ShardRole::Secondary),
            after: shard(ShardRole::Unknown("x".into())),
        },
        EventPayload::SnapshotAgent(agent),
        EventPayload::SnapshotAgentInfo(info),
        EventPayload::SnapshotDiscovery(discovery),
        EventPayload::SnapshotNode(node()),
        EventPayload::SnapshotShard(shard(ShardRole::Primary)),
    ];
    assert_eq!(payloads.len(), 12);
    for (i, payload) in payloads.into_iter().enumerate() {
        let event = Event { payload, timestamp: Timestamp::new(1_500_000_000 + i as i64, 7) };
        let encoded = encode_event(&event);
        assert_eq!(decode_event(&encoded), Ok(event.clone()));
        match &encoded {
            Value::Doc(fields) => {
                assert_eq!(get(fields, "event"), Some(&text(event.payload.code())));
                assert!(get(fields, "payload").is_some());
                assert!(get(fields, "nothing").is_none());
            }
            other => panic!("not a document: {:?}", other),
        }
    }
}

#[test]
fn event_decoding_names_what_is_wrong() {
    let timestamp = encode_timestamp(&Timestamp::new(1, 2));
    let event = |code: &str, payload: Value| {
        Value::Doc(vec![
            field("event", text(code)),
            field("payload", payload),
            field("timestamp", encode_timestamp(&Timestamp::new(1, 2))),
        ])
    };
    assert_eq!(
        decode_event(&event("NODE_GONE", encode_node(&node()))),
        Err(DecodeError::InvalidField("event"))
    );
    // A node where a shard belongs: the document holds a cluster and a
    // node, and the first attribute of a shard that is missing is its role.
    assert_eq!(
        decode_event(&event("SHARD_ALLOCATION_NEW", encode_node(&node()))),
        Err(DecodeError::MissingField("role"))
    );
    assert_eq!(
        decode_event(&event("NODE_CHANGED", encode_node(&node()))),
        Err(DecodeError::MissingField("before"))
    );
    let half = Value::Doc(vec![field("before", encode_node(&node()))]);
    assert_eq!(
        decode_event(&event("NODE_CHANGED", half)),
        Err(DecodeError::MissingField("after"))
    );
    let no_timestamp =
        Value::Doc(vec![field("event", text("NODE_NEW")), field("payload", encode_node(&node()))]);
    assert_eq!(decode_event(&no_timestamp), Err(DecodeError::MissingField("timestamp")));
    let no_payload = Value::Doc(vec![field("event", text("NODE_NEW")), field("timestamp", timestamp)]);
    assert_eq!(decode_event(&no_payload), Err(DecodeError::MissingField("payload")));
    assert_eq!(decode_event(&Value::Doc(vec![])), Err(DecodeError::MissingField("event")));
    assert_eq!(decode_event(&Value::Flag(false)), Err(DecodeError::NotADocument));
}
