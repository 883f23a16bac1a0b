use replicante::components::discovery::refresh_request;
use replicante::tasks::kafka_metrics::BrokerStats;
use replicante::tasks::kafka_metrics::ClientStatsContext;
use replicante::tasks::kafka_metrics::PartitionStats;
use replicante::tasks::kafka_metrics::Sample;
use replicante::tasks::kafka_metrics::Statistics;
use replicante::tasks::kafka_metrics::Target;
use replicante::tasks::kafka_metrics::TopicStats;
use replicante::tasks::request::fail;
use replicante::tasks::request::request;
use replicante::tasks::request::Retry;
use replicante::tasks::MockTasks;
use replicante::tasks::ReplicanteQueues;
use replicante::tasks::TaskQueue;
use replicante::tasks::TaskRecord;
use replicante::tasks::TaskRequest;

#[derive(Clone, Debug, Eq, PartialEq)]
enum TestQueues {
    Test,
}

impl TaskQueue for TestQueues {
    fn max_retry_count(&self) -> u8 {
        1
    }

    fn name(&self) -> String {
        match self {
            TestQueues::Test => "test".into(),
        }
    }

    fn retry_delay(&self) -> u64 {
        2
    }
}

#[test]
fn enqueue_request() {
    let task = TaskRequest::new(TestQueues::Test);
    let message: String = "Some text".into();
    let mut mock = MockTasks::new();
    assert_eq!(task.queue(), &TestQueues::Test);
    mock.request(task, format!("{:?}", message).into_bytes());
    let found = &mock.requests[0];
    assert_eq!(found.queue, "test");
    assert_eq!("\"Some text\"".as_bytes(), &found.payload[..]);
}

#[test]
fn request_unit() {
    let task = TaskRequest::new(TestQueues::Test);
    let mut mock = MockTasks::new();
    mock.request(task, b"null".to_vec());
    let found = &mock.requests[0];
    assert_eq!(found.queue, TestQueues::Test.name());
    assert_eq!(found.attempt, 0);
    assert!(found.headers.is_empty());
}

#[test]
fn cluster_refresh_queue() {
    let queue = ReplicanteQueues::ClusterRefresh;
    assert_eq!(queue.name(), "cluster_refresh");
    assert_eq!(queue.max_retry_count(), 3);
    assert_eq!(queue.retry_delay(), 10);
    assert_eq!(ReplicanteQueues::from_str("cluster_refresh"), Ok(ReplicanteQueues::ClusterRefresh));
    assert_eq!(
        ReplicanteQueues::from_str("nope"),
        Err("unknown queue 'nope'".to_string())
    );
    assert_eq!(ReplicanteQueues::from_str(""), Err("unknown queue ''".to_string()));
    assert_eq!(refresh_request().queue(), &ReplicanteQueues::ClusterRefresh);
    assert!(refresh_request().header_list().is_empty());
}

#[test]
fn headers_are_attached_and_updated() {
    let mut task = TaskRequest::new(ReplicanteQueues::ClusterRefresh);
    task.header("trace", "abc");
    task.header("origin", "discovery");
    task.header("trace", "def");
    assert_eq!(task.get_header("trace"), Some("def".to_string()));
    assert_eq!(task.get_header("origin"), Some("discovery".to_string()));
    assert_eq!(task.get_header("missing"), None);
    task.headers(vec![
        ("origin".to_string(), "webui".to_string()),
        ("span".to_string(), "1".to_string()),
        ("span".to_string(), "2".to_string()),
    ]);
    assert_eq!(
        task.header_list(),
        vec![
            ("trace".to_string(), "def".to_string()),
            ("origin".to_string(), "webui".to_string()),
            ("span".to_string(), "2".to_string()),
        ]
    );
    let record = request(&task, vec![1, 2, 3]);
    assert_eq!(
        record,
        TaskRecord {
            queue: "cluster_refresh".into(),
            headers: task.header_list(),
            payload: vec![1, 2, 3],
            attempt: 0,
        }
    );
}

#[test]
fn failed_task_is_retried_as_often_as_the_queue_allows() {
    let queue = ReplicanteQueues::ClusterRefresh;
    let mut record = request(&TaskRequest::new(queue), vec![9]);
    let mut retries = 0;
    loop {
        match fail(record, &queue) {
            Retry::Requeue { record: next, delay } => {
                retries += 1;
                assert_eq!(next.attempt, retries);
                assert_eq!(delay, 10);
                assert_eq!(next.payload, vec![9]);
                assert_eq!(next.queue, "cluster_refresh");
                record = next;
            }
            Retry::Dropped => break,
        }
    }
    assert_eq!(retries, 3);
    let once = request(&TaskRequest::new(TestQueues::Test), vec![]);
    match fail(once, &TestQueues::Test) {
        Retry::Requeue { record, delay } => {
            assert_eq!(delay, 2);
            assert_eq!(fail(record, &TestQueues::Test), Retry::Dropped);
        }
        Retry::Dropped => panic!("the queue allows one retry"),
    }
}

fn broker(name: &str, base: i64, wakeups: Option<i64>) -> BrokerStats {
    BrokerStats {
        name: name.into(),
        outbuf_cnt: base + 1,
        outbuf_msg_cnt: base + 2,
        req_timeouts: base + 3,
        rx: base + 4,
        rxbytes: base + 5,
        rxcorriderrs: base + 6,
        rxerrs: base + 7,
        rxpartial: base + 8,
        tx: base + 9,
        txbytes: base + 10,
        txerrs: base + 11,
        txretries: base + 12,
        waitresp_cnt: base + 13,
        waitresp_msg_cnt: base + 14,
        wakeups,
        zbuf_grow: base + 16,
    }
}

#[test]
fn kafka_stats_become_samples() {
    let context = ClientStatsContext::new("consumer");
    assert_eq!(context.role(), "consumer");
    let partition = PartitionStats {
        partition: 3,
        committed_offset: 1,
        consumer_lag: 2,
        fetchq_cnt: 3,
        fetchq_size: 4,
        msgq_bytes: 5,
        msgq_cnt: 6,
        txbytes: 7,
        txmsgs: 8,
        xmit_msgq_bytes: 9,
        xmit_msgq_cnt: 10,
    };
    let stats = Statistics {
        msg_cnt: 40,
        replyq: 41,
        brokers: vec![broker("b1", 100, Some(115)), broker("b2", 200, None)],
        topics: vec![
            TopicStats { topic: "empty".into(), partitions: vec![] },
            TopicStats { topic: "tasks".into(), partitions: vec![partition] },
        ],
        cgrp_assignment_size: Some(2),
    };
    let samples = context.stats(&stats);
    assert_eq!(samples.len(), 2 + 16 + 16 + 10 + 1);
    assert_eq!(
        samples[0],
        Sample { metric: "replicore_tasks_kafka_msg_cnt", target: Target::Client, value: 40 }
    );
    assert_eq!(
        samples[1],
        Sample { metric: "replicore_tasks_kafka_replyq", target: Target::Client, value: 41 }
    );
    let names: Vec<&str> = samples[2..18].iter().map(|sample| sample.metric).collect();
    assert_eq!(
        names,
        vec![
            "replicore_tasks_kafka_broker_outbuf_cnt",
            "replicore_tasks_kafka_broker_outbuf_msg_cnt",
            "replicore_tasks_kafka_broker_req_timeouts",
            "replicore_tasks_kafka_broker_rx",
            "replicore_tasks_kafka_broker_rxbytes",
            "replicore_tasks_kafka_broker_rxcorriderrs",
            "replicore_tasks_kafka_broker_rxerrs",
            "replicore_tasks_kafka_broker_rxpartial",
            "replicore_tasks_kafka_broker_tx",
            "replicore_tasks_kafka_broker_txbytes",
            "replicore_tasks_kafka_broker_txerrs",
            "replicore_tasks_kafka_broker_txretries",
            "replicore_tasks_kafka_broker_waitresp_cnt",
            "replicore_tasks_kafka_broker_waitresp_msg_cnt",
            "replicore_tasks_kafka_broker_wakeups",
            "replicore_tasks_kafka_broker_zbuf_grow",
        ]
    );
    for (i, sample) in samples[2..18].iter().enumerate() {
        assert_eq!(sample.target, Target::Broker("b1".into()));
        assert_eq!(sample.value, 101 + i as i64);
    }
    // A broker that reports no wakeups counts as having none.
    assert_eq!(samples[18 + 14].metric, "replicore_tasks_kafka_broker_wakeups");
    assert_eq!(samples[18 + 14].value, 0);
    assert_eq!(samples[18 + 14].target, Target::Broker("b2".into()));
    let names: Vec<&str> = samples[34..44].iter().map(|sample| sample.metric).collect();
    assert_eq!(
        names,
        vec![
            "replicore_tasks_kafka_partition_committed_offset",
            "replicore_tasks_kafka_partition_consumer_lag",
            "replicore_tasks_kafka_partition_fetchq_cnt",
            "replicore_tasks_kafka_partition_fetchq_size",
            "replicore_tasks_kafka_partition_msgq_bytes",
            "replicore_tasks_kafka_partition_msgq_cnt",
            "replicore_tasks_kafka_partition_txbytes",
            "replicore_tasks_kafka_partition_txmsgs",
            "replicore_tasks_kafka_partition_xmit_msgq_bytes",
            "replicore_tasks_kafka_partition_xmit_msgq_cnt",
        ]
    );
    for (i, sample) in samples[34..44].iter().enumerate() {
        assert_eq!(sample.target, Target::Partition("tasks".into(), 3));
        assert_eq!(sample.value, 1 + i as i64);
    }
    assert_eq!(
        samples[44],
        Sample {
            metric: "replicore_tasks_kafka_cgrp_assignment_size",
            target: Target::Client,
            value: 2
        }
    );
    let bare = Statistics { msg_cnt: 1, replyq: 2, brokers: vec![], topics: vec![], cgrp_assignment_size: None };
    assert_eq!(context.stats(&bare).len(), 2);
}
