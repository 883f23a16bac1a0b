use replicante::coordinator::lock::CreateOutcome;
use replicante::coordinator::lock::DeleteOutcome;
use replicante::coordinator::mock::MockCoordinator;
use replicante::coordinator::zookeeper::admin::ReadOutcome;
use replicante::coordinator::zookeeper::admin::Request as WalkRequest;
use replicante::coordinator::zookeeper::admin::ZookeeperAdmin;
use replicante::coordinator::zookeeper::cleaner::Cleaner;
use replicante::coordinator::zookeeper::cleaner::CleanRun;
use replicante::coordinator::zookeeper::cleaner::NodeStat;
use replicante::coordinator::zookeeper::cleaner::Request as CleanRequest;
use replicante::coordinator::zookeeper::cleaner::Response as CleanResponse;
use replicante::coordinator::zookeeper::cleaner::Tally;
use replicante::coordinator::zookeeper::cleaner::Wake;
use replicante::coordinator::zookeeper::paths::hash_key;
use replicante::coordinator::zookeeper::paths::path_from_key;
use replicante::coordinator::zookeeper::paths::path_prefix;
use replicante::coordinator::zookeeper::CleanupConfig;
use replicante::coordinator::zookeeper::ZkFailure;
use replicante::coordinator::zookeeper::Zookeeper;
use replicante::coordinator::ErrorKind;
use replicante::coordinator::NBLockInfo;
use replicante::coordinator::NodeId;
use replicante::coordinator::NonBlockingLock;
use replicante::coordinator::NonBlockingLockWatcher;

fn node(uuid: &str) -> NodeId {
    NodeId::new(uuid, "a node")
}

#[test]
fn lock_is_given_to_one_owner_at_a_time() {
    let mut coordinator = MockCoordinator::new();
    let one = node("one");
    let two = node("two");
    coordinator.acquire("cluster_refresh/c1", &one).unwrap();
    let error = coordinator.acquire("cluster_refresh/c1", &two).unwrap_err();
    assert_eq!(error.kind(), &ErrorKind::LockHeld("cluster_refresh/c1".into(), one.clone()));
    assert_eq!(error.kind().kind_name(), Some("LockHeld"));
    // The owner itself does not get the lock a second time either.
    let error = coordinator.acquire("cluster_refresh/c1", &one).unwrap_err();
    assert_eq!(error.kind(), &ErrorKind::LockHeld("cluster_refresh/c1".into(), one.clone()));
    // Another lock is free.
    coordinator.acquire("cluster_refresh/c2", &two).unwrap();
    assert!(coordinator.inspect("cluster_refresh/c1", &one));
    assert!(!coordinator.inspect("cluster_refresh/c1", &two));
    assert!(coordinator.inspect("cluster_refresh/c2", &two));
    assert!(!coordinator.inspect("cluster_refresh/c3", &two));
    assert_eq!(coordinator.non_blocking_locks().len(), 2);
    assert_eq!(
        coordinator.non_blocking_lock("cluster_refresh/c2").unwrap(),
        NBLockInfo { name: "cluster_refresh/c2".into(), owner: two.clone() }
    );
    assert_eq!(
        coordinator.non_blocking_lock("nope").unwrap_err().kind(),
        &ErrorKind::LockNotFound("nope".into())
    );
}

#[test]
fn release_twice_succeeds_twice() {
    let mut coordinator = MockCoordinator::new();
    let one = node("one");
    let two = node("two");
    coordinator.acquire("lock", &one).unwrap();
    // Somebody else cannot release the lock.
    coordinator.release("lock", &two).unwrap();
    assert!(coordinator.inspect("lock", &one));
    coordinator.release("lock", &one).unwrap();
    assert!(!coordinator.inspect("lock", &one));
    coordinator.release("lock", &one).unwrap();
    assert!(coordinator.non_blocking_locks().is_empty());
    // The lock can be taken again.
    coordinator.acquire("lock", &two).unwrap();
    assert!(coordinator.inspect("lock", &two));
    // A lock that was never held can be released too.
    coordinator.release("other", &one).unwrap();
    assert_eq!(coordinator.non_blocking_locks().len(), 1);
}

#[test]
fn lost_session_takes_locks_and_registration() {
    let mut coordinator = MockCoordinator::new();
    let one = node("one");
    let two = node("two");
    coordinator.register_node(one.clone());
    coordinator.register_node(two.clone());
    coordinator.acquire("a", &one).unwrap();
    coordinator.acquire("b", &two).unwrap();
    coordinator.acquire("c", &one).unwrap();
    coordinator.lose_session(&one);
    assert_eq!(coordinator.nodes(), vec![two.clone()]);
    assert_eq!(
        coordinator.non_blocking_locks(),
        vec![NBLockInfo { name: "b".into(), owner: two.clone() }]
    );
    assert!(!coordinator.inspect("a", &one));
    coordinator.acquire("a", &two).unwrap();
}

#[test]
fn force_release_is_refused() {
    let mut coordinator = MockCoordinator::new();
    coordinator.acquire("lock", &node("one")).unwrap();
    let error = coordinator.force_release("lock").unwrap_err();
    assert_eq!(error.kind(), &ErrorKind::Unimplemented("force_release"));
    assert_eq!(coordinator.non_blocking_locks().len(), 1);
    let error = ZookeeperAdmin::new().force_release("lock").unwrap_err();
    assert_eq!(error.kind(), &ErrorKind::Unimplemented("force_release"));
    assert_eq!(error.display(), "Unimplemented");
}

#[test]
fn watcher_never_goes_back_to_true() {
    let mut watcher = NonBlockingLockWatcher::new();
    assert!(watcher.inspect());
    let mut seen = Vec::new();
    for reading in [true, true, false, true, false, true] {
        watcher.observe(reading);
        seen.push(watcher.inspect());
    }
    assert_eq!(seen, vec![true, true, false, false, false, false]);
}

#[test]
fn lock_handle_follows_the_answers() {
    let me = node("me");
    let mut lock = NonBlockingLock::new("cluster_refresh/c1".into(), me.clone());
    assert!(!lock.is_acquired());
    assert!(!lock.watch().inspect());
    assert_eq!(lock.name(), "cluster_refresh/c1");
    assert_eq!(lock.info(), NBLockInfo { name: "cluster_refresh/c1".into(), owner: me.clone() });
    let other = NBLockInfo { name: "cluster_refresh/c1".into(), owner: node("other") };
    let error = lock.acquired(CreateOutcome::Exists(other)).unwrap_err();
    assert_eq!(error.kind(), &ErrorKind::LockHeld("cluster_refresh/c1".into(), node("other")));
    assert!(!lock.is_acquired());
    let error = lock.acquired(CreateOutcome::Failed("connection loss".into())).unwrap_err();
    assert_eq!(error.kind(), &ErrorKind::Backend("lock acquire"));
    assert_eq!(error.cause(), Some("connection loss".to_string()));
    assert_eq!(error.display(), "Backend: connection loss");
    lock.acquired(CreateOutcome::Created).unwrap();
    assert!(lock.is_acquired());
    assert!(lock.watch().inspect());
    let error = lock.released(DeleteOutcome::Failed("timeout".into())).unwrap_err();
    assert_eq!(error.kind(), &ErrorKind::Backend("lock release"));
    assert!(lock.is_acquired());
    lock.released(DeleteOutcome::Deleted).unwrap();
    assert!(!lock.is_acquired());
    // Releasing again finds no node, which is fine.
    lock.released(DeleteOutcome::NoNode).unwrap();
    assert!(!lock.is_acquired());
}

#[test]
fn paths_fan_out_under_a_prefix_of_two_hex_digits() {
    let path = path_from_key("/locks", "cluster_refresh/c1");
    let prefix = path_prefix("cluster_refresh/c1");
    assert_eq!(prefix.len(), 2);
    assert!(prefix.chars().all(|c| c.is_ascii_hexdigit() && !c.is_ascii_uppercase()));
    assert_eq!(path, format!("/locks/{}/cluster_refresh/c1", prefix));
    // The prefix depends on the name alone.
    assert_eq!(path_from_key("/locks", "cluster_refresh/c1"), path);
    assert_eq!(path_prefix("cluster_refresh/c1"), prefix);
    // The hash is the 64 bit FNV-1a hash of the bytes of the key.
    assert_eq!(hash_key(""), 0xcbf29ce484222325);
    assert_eq!(hash_key("a"), 0xaf63dc4c8601ec8c);
    assert_eq!(hash_key("foobar"), 0x85944171f73967e8);
    assert_eq!(path_prefix(""), "cb");
    assert_eq!(path_prefix("a"), "af");
    assert_eq!(path_prefix("foobar"), "85");
    assert_eq!(path_from_key("/nodes", "foobar"), "/nodes/85/foobar");
    let zookeeper = Zookeeper::new(
        node("foobar"),
        CleanupConfig { limit: 1, interval_min: 1, interval_max: 2 },
    );
    assert_eq!(zookeeper.node_path(), "/nodes/85/foobar");
    assert_eq!(zookeeper.lock_path("a"), "/locks/af/a");
    assert_eq!(zookeeper.node_id(), &node("foobar"));
    let lock = zookeeper.non_blocking_lock("a".into());
    assert_eq!(lock.info().owner, node("foobar"));
    assert_eq!(ZookeeperAdmin::new().non_blocking_lock_path("a"), "/locks/af/a");
}

#[test]
fn walk_over_locks_lists_then_reads_in_order() {
    let mut locks = ZookeeperAdmin::new().non_blocking_locks();
    assert_eq!(locks.scan.request(), Some(WalkRequest::GetChildren { path: "/locks".into() }));
    assert!(locks.load_locks(Ok(vec!["aa".into(), "bb".into()])).is_none());
    assert_eq!(locks.scan.request(), Some(WalkRequest::GetChildren { path: "/locks/aa".into() }));
    assert!(locks.load_locks(Ok(vec!["l1".into(), "l2".into()])).is_none());
    assert_eq!(locks.scan.request(), Some(WalkRequest::GetChildren { path: "/locks/bb".into() }));
    assert!(locks.load_locks(Ok(vec!["l3".into()])).is_none());
    assert_eq!(locks.scan.request(), Some(WalkRequest::GetData { path: "/locks/aa/l1".into() }));
    let info = |name: &str| NBLockInfo { name: name.into(), owner: node("n") };
    assert_eq!(locks.next(ReadOutcome::Found(info("l1"))), Some(Ok(info("l1"))));
    assert_eq!(locks.scan.request(), Some(WalkRequest::GetData { path: "/locks/aa/l2".into() }));
    // A lock that ended between the listing and the read is passed over.
    assert_eq!(locks.next(ReadOutcome::Failed(ZkFailure::NoNode)), None);
    assert_eq!(locks.scan.request(), Some(WalkRequest::GetData { path: "/locks/bb/l3".into() }));
    let error = locks.next(ReadOutcome::Undecodable("not json".into())).unwrap().unwrap_err();
    assert_eq!(error.kind(), &ErrorKind::Decode("node info"));
    assert_eq!(error.cause(), Some("not json".to_string()));
    assert_eq!(locks.scan.request(), None);
    // A read that nobody asked for is ignored.
    assert_eq!(locks.next(ReadOutcome::Found(info("l9"))), None);
}

#[test]
fn walk_reports_failures_and_starts_over() {
    let mut nodes = ZookeeperAdmin::new().nodes();
    assert_eq!(nodes.scan.request(), Some(WalkRequest::GetChildren { path: "/nodes".into() }));
    let error = nodes.fill_cache(Err(ZkFailure::OperationTimeout)).unwrap();
    assert_eq!(error.kind(), &ErrorKind::Backend("nodes lookup"));
    assert_eq!(error.cause(), Some("OperationTimeout".to_string()));
    assert_eq!(nodes.scan.request(), Some(WalkRequest::GetChildren { path: "/nodes".into() }));
    assert!(nodes.fill_cache(Ok(vec!["aa".into(), "bb".into()])).is_none());
    assert!(nodes.fill_cache(Ok(vec!["n1".into()])).is_none());
    // The second listing fails: everything listed so far is thrown away.
    let error = nodes.fill_cache(Err(ZkFailure::Other("closing".into()))).unwrap();
    assert_eq!(error.cause(), Some("closing".to_string()));
    assert_eq!(nodes.scan.request(), Some(WalkRequest::GetChildren { path: "/nodes".into() }));
    assert!(nodes.fill_cache(Ok(vec!["aa".into()])).is_none());
    assert!(nodes.fill_cache(Ok(vec!["n1".into(), "n2".into()])).is_none());
    assert_eq!(nodes.scan.request(), Some(WalkRequest::GetData { path: "/nodes/aa/n1".into() }));
    let error = nodes.next(ReadOutcome::Failed(ZkFailure::NotEmpty)).unwrap().unwrap_err();
    assert_eq!(error.kind(), &ErrorKind::Backend("node read"));
    // After a failed read the walk goes on with the next node.
    assert_eq!(nodes.scan.request(), Some(WalkRequest::GetData { path: "/nodes/aa/n2".into() }));
    assert_eq!(nodes.next(ReadOutcome::Found(node("n2"))), Some(Ok(node("n2"))));
    assert_eq!(nodes.scan.request(), None);
    // A listing that nobody asked for is ignored.
    assert!(nodes.fill_cache(Ok(vec!["zz".into()])).is_none());
    assert_eq!(nodes.scan.request(), None);
    // No prefixes, no entries.
    let mut empty = ZookeeperAdmin::new().nodes();
    assert!(empty.fill_cache(Ok(vec![])).is_none());
    assert_eq!(empty.scan.request(), None);
}

#[test]
fn lookup_of_one_lock() {
    let admin = ZookeeperAdmin::new();
    let info = NBLockInfo { name: "l".into(), owner: node("n") };
    assert_eq!(admin.non_blocking_lock("l", ReadOutcome::Found(info.clone())).unwrap(), info);
    let error = admin.non_blocking_lock("l", ReadOutcome::Failed(ZkFailure::NoNode)).unwrap_err();
    assert_eq!(error.kind(), &ErrorKind::LockNotFound("l".into()));
    let error =
        admin.non_blocking_lock("l", ReadOutcome::Failed(ZkFailure::OperationTimeout)).unwrap_err();
    assert_eq!(error.kind(), &ErrorKind::Backend("non-blocking lock lookup"));
    let error = admin.non_blocking_lock("l", ReadOutcome::Undecodable("bad".into())).unwrap_err();
    assert_eq!(error.kind(), &ErrorKind::Decode("lock info"));
}

fn stat(num_children: i32, version: i32) -> CleanResponse {
    CleanResponse::Stat(Ok(Some(NodeStat { num_children, version })))
}

#[test]
fn cleaner_deletes_empty_nodes_up_to_the_limit() {
    let mut run = CleanRun::start("/nodes", 2);
    assert_eq!(run.request(), Some(CleanRequest::GetChildren { path: "/nodes".into() }));
    run = run.advance(CleanResponse::Children(Ok(vec![
        "aa".into(),
        "bb".into(),
        "cc".into(),
        "dd".into(),
        "ee".into(),
    ])));
    // A node with children is left alone.
    assert_eq!(run.request(), Some(CleanRequest::Exists { path: "/nodes/aa".into() }));
    run = run.advance(stat(3, 7));
    // An empty node is deleted at the version that was seen.
    assert_eq!(run.request(), Some(CleanRequest::Exists { path: "/nodes/bb".into() }));
    run = run.advance(stat(0, 4));
    assert_eq!(run.request(), Some(CleanRequest::Delete { path: "/nodes/bb".into(), version: 4 }));
    run = run.advance(CleanResponse::Deleted(Ok(())));
    assert_eq!(run.outcome(), None);
    // A node that is gone is passed over.
    run = run.advance(CleanResponse::Stat(Err(ZkFailure::NoNode)));
    assert_eq!(run.request(), Some(CleanRequest::Exists { path: "/nodes/dd".into() }));
    // A node that got a child in the meantime still counts against the limit.
    run = run.advance(stat(0, 1));
    run = run.advance(CleanResponse::Deleted(Err(ZkFailure::NotEmpty)));
    // The limit is used up: the last node is not looked at.
    assert_eq!(run.request(), None);
    assert_eq!(run.outcome(), Some(Ok(0)));
    assert_eq!(run.tally(), Tally { cleaned: 2, failed: None, timed_out: false });
    assert!(Cleaner::reached_limit(0));
}

#[test]
fn cleaner_reports_what_is_left_of_the_limit() {
    let mut run = CleanRun::start("/nodes", 5);
    run = run.advance(CleanResponse::Children(Ok(vec!["aa".into(), "bb".into()])));
    run = run.advance(stat(0, 1));
    run = run.advance(CleanResponse::Deleted(Err(ZkFailure::NoNode)));
    run = run.advance(CleanResponse::Stat(Ok(None)));
    assert_eq!(run.outcome(), Some(Ok(4)));
    assert!(!Cleaner::reached_limit(4));
    // Nothing to clean.
    let run = CleanRun::start("/nodes", 5).advance(CleanResponse::Children(Ok(vec![])));
    assert_eq!(run.outcome(), Some(Ok(5)));
    // A limit of zero means that nothing is deleted, and nothing is asked.
    let run = CleanRun::start("/nodes", 0);
    assert_eq!(run.request(), None);
    assert_eq!(run.outcome(), Some(Ok(0)));
    // An answer that was not asked for is ignored.
    let run = CleanRun::start("/nodes", 5).advance(CleanResponse::Deleted(Ok(())));
    assert_eq!(run.request(), Some(CleanRequest::GetChildren { path: "/nodes".into() }));
}

#[test]
fn cleaner_stops_at_the_first_failure() {
    let run = CleanRun::start("/nodes", 5)
        .advance(CleanResponse::Children(Err(ZkFailure::OperationTimeout)));
    let tally = run.tally();
    assert_eq!(tally, Tally { cleaned: 0, failed: Some("get_children"), timed_out: true });
    match run.outcome() {
        Some(Err(error)) => {
            assert_eq!(error.kind(), &ErrorKind::Backend("children lookup"));
            assert_eq!(error.cause(), Some("OperationTimeout".to_string()));
        }
        other => panic!("unexpected outcome: {:?}", other),
    }
    let run = CleanRun::start("/nodes", 5)
        .advance(CleanResponse::Children(Ok(vec!["aa".into(), "bb".into()])))
        .advance(CleanResponse::Stat(Err(ZkFailure::Other("boom".into()))));
    assert_eq!(run.tally(), Tally { cleaned: 0, failed: Some("exists"), timed_out: false });
    assert!(matches!(run.outcome(), Some(Err(error)) if error.kind() == &ErrorKind::Backend("node lookup")));
    assert_eq!(run.request(), None);
    let run = CleanRun::start("/nodes", 5)
        .advance(CleanResponse::Children(Ok(vec!["aa".into(), "bb".into()])))
        .advance(stat(0, 1))
        .advance(CleanResponse::Deleted(Ok(())))
        .advance(stat(0, 2))
        .advance(CleanResponse::Deleted(Err(ZkFailure::OperationTimeout)));
    assert_eq!(run.tally(), Tally { cleaned: 1, failed: Some("delete"), timed_out: true });
    assert!(matches!(run.outcome(), Some(Err(error)) if error.kind() == &ErrorKind::Backend("node delete")));
}

#[test]
fn cleaner_interval_stays_in_the_configured_range() {
    let cleaner = Cleaner::new(CleanupConfig { limit: 1, interval_min: 10, interval_max: 12 });
    let mut seen = [false; 3];
    for _ in 0..500 {
        let seconds = cleaner.interval();
        assert!((10..=12).contains(&seconds));
        seen[(seconds - 10) as usize] = true;
    }
    // Both ends of the range come up.
    assert_eq!(seen, [true, true, true]);
    let fixed = Cleaner::new(CleanupConfig { limit: 1, interval_min: 7, interval_max: 7 });
    assert_eq!(fixed.interval(), 7);
    let empty = Cleaner::new(CleanupConfig { limit: 1, interval_min: 9, interval_max: 3 });
    assert_eq!(empty.interval(), 9);
    let top = Cleaner::new(CleanupConfig {
        limit: 1,
        interval_min: u64::MAX - 1,
        interval_max: u64::MAX,
    });
    assert!(top.interval() >= u64::MAX - 1);
    assert_eq!(cleaner.interval_from(Some(11)), 11);
    assert_eq!(cleaner.interval_from(None), 10);
    assert_eq!(fixed.interval_from(Some(11)), 7);
    let run = cleaner.cycle();
    assert_eq!(run.request(), Some(CleanRequest::GetChildren { path: "/nodes".into() }));
}

#[test]
fn cleaner_goes_on_only_after_a_timeout() {
    assert!(Wake::Timeout.goes_on());
    assert!(!Wake::Signalled.goes_on());
    assert!(!Wake::Disconnected.goes_on());
}

#[test]
fn node_id_keeps_its_attributes() {
    let mut id = NodeId::new("uuid-1", "core-1.example.com");
    id.extra("zone", "a");
    id.extra("rack", "12");
    assert_eq!(id.extra, vec![("zone".to_string(), "a".to_string()), ("rack".to_string(), "12".to_string())]);
    assert_eq!(id.clone(), id);
    assert!(id.same_node(&NodeId::new("uuid-1", "renamed")));
    assert!(!id.same_node(&NodeId::new("uuid-2", "core-1.example.com")));
}
