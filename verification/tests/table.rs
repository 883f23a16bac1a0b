use replicante::coordinator::zookeeper::ZkFailure;
use replicante::models::agent::Agent;
use replicante::models::agent::AgentStatus;
use replicante::models::datastore::CommitOffset;
use replicante::models::datastore::Shard;
use replicante::models::datastore::ShardRole;
use replicante::models::datastore::WireShard;
use replicante::store::agents::count_agents;
use replicante::store::shards::count_shards;
use replicante::store::table::RecordKey;
use replicante::store::table::Table;

fn shard_on(node: &str, id: &str, role: ShardRole) -> Shard {
    Shard::new("c1", node, WireShard::new(id, role, Some(CommitOffset::seconds(1)), None))
}

#[test]
fn a_key_holds_one_record() {
    let mut table: Table<String> = Table::new();
    assert_eq!(table.len(), 0);
    table.upsert(RecordKey::triple("c1", "n1", "s1"), "first".to_string());
    table.upsert(RecordKey::triple("c1", "n1", "s2"), "other".to_string());
    table.upsert(RecordKey::triple("c1", "n1", "s1"), "second".to_string());
    assert_eq!(table.len(), 2);
    assert_eq!(table.position(&RecordKey::triple("c1", "n1", "s1")), Some(0));
    assert_eq!(table.position(&RecordKey::triple("c1", "n1", "s2")), Some(1));
    assert_eq!(table.position(&RecordKey::triple("c1", "n2", "s1")), None);
    assert_eq!(table.get(&RecordKey::triple("c1", "n1", "s1")), Some(&"second".to_string()));
    assert_eq!(table.get(&RecordKey::triple("c2", "n1", "s1")), None);
    assert_eq!(table.key_at(1), &RecordKey::triple("c1", "n1", "s2"));
    assert_eq!(table.value_at(1), "other");
}

#[test]
fn keys_differ_by_each_part() {
    assert_ne!(RecordKey::pair("c1", "n1"), RecordKey::triple("c1", "n1", "s"));
    assert_ne!(RecordKey::cluster("c1"), RecordKey::pair("c1", "n1"));
    assert_ne!(RecordKey::cluster("c1"), RecordKey::cluster("c2"));
    assert_eq!(RecordKey::named("c1"), RecordKey::cluster("c1"));
    assert_eq!(RecordKey::pair("c1", "n1"), RecordKey::triple("c1", "n1", ""));
    assert!(RecordKey::pair("c1", "n1").same(&RecordKey::pair("c1", "n1")));
    assert!(!RecordKey::pair("c1", "n1").same(&RecordKey::pair("c1", "n2")));
}

#[test]
fn stale_marks_go_with_the_next_write() {
    let mut table: Table<String> = Table::new();
    table.upsert(RecordKey::pair("c1", "a"), "a".to_string());
    table.upsert(RecordKey::pair("c2", "b"), "b".to_string());
    table.upsert(RecordKey::pair("c1", "c"), "c".to_string());
    table.mark_stale(&"c1".to_string());
    assert!(table.stale_at(0));
    assert!(!table.stale_at(1));
    assert!(table.stale_at(2));
    assert_eq!(table.is_stale(&RecordKey::pair("c1", "a")), Some(true));
    assert_eq!(table.is_stale(&RecordKey::pair("c2", "b")), Some(false));
    assert_eq!(table.is_stale(&RecordKey::pair("c3", "b")), None);
    assert!(table.fresh("c1").is_empty());
    assert_eq!(table.fresh("c2"), vec![&"b".to_string()]);

    table.upsert(RecordKey::pair("c1", "c"), "again".to_string());
    assert_eq!(table.len(), 3);
    assert!(table.stale_at(0));
    assert!(!table.stale_at(2));
    assert_eq!(table.fresh("c1"), vec![&"again".to_string()]);
}

#[test]
fn shards_are_counted_once() {
    let shards = vec![
        shard_on("n1", "s1", ShardRole::Primary),
        shard_on("n2", "s1", ShardRole::Secondary),
        shard_on("n3", "s1", ShardRole::Primary),
        shard_on("n1", "s2", ShardRole::Secondary),
        shard_on("n2", "s2", ShardRole::Unknown("recovering".into())),
        shard_on("n3", "s3", ShardRole::Primary),
    ];
    let counts = count_shards(&shards.iter().collect());
    assert_eq!(counts.shards, 3);
    assert_eq!(counts.primaries, 2);

    let counts = count_shards(&Vec::new());
    assert_eq!(counts.shards, 0);
    assert_eq!(counts.primaries, 0);
}

#[test]
fn only_the_primary_role_is_primary() {
    assert!(ShardRole::Primary.is_primary());
    assert!(!ShardRole::Secondary.is_primary());
    assert!(!ShardRole::Unknown("primary".into()).is_primary());
}

#[test]
fn agents_are_counted_by_status() {
    let agents = vec![
        Agent::new("c1", "http://a", AgentStatus::Up),
        Agent::new("c1", "http://b", AgentStatus::AgentDown("gone".into())),
        Agent::new("c1", "http://c", AgentStatus::NodeDown("down".into())),
        Agent::new("c1", "http://d", AgentStatus::AgentDown("gone".into())),
    ];
    let counts = count_agents(&agents.iter().collect());
    assert_eq!(counts.nodes, 4);
    assert_eq!(counts.agents_down, 2);
    assert_eq!(counts.nodes_down, 1);
}

#[test]
fn only_a_timeout_is_a_timeout() {
    assert!(ZkFailure::OperationTimeout.is_timeout());
    assert!(!ZkFailure::NoNode.is_timeout());
    assert!(!ZkFailure::NotEmpty.is_timeout());
    assert!(!ZkFailure::Other("OperationTimeout".into()).is_timeout());
}
