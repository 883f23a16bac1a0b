//! What the broker client reports of itself, as samples of gauges.
//!
//! The client of the message broker hands out statistics every now and then.
//! Each number in them goes to a gauge, under the role of the client and,
//! where the number is about a broker or about a partition of a topic, under
//! the name of the broker or the topic and the partition.
use vstd::prelude::*;

verus! {
pub const KAFKA_MSG_CNT: &'static str = "replicore_tasks_kafka_msg_cnt";
pub const KAFKA_REPLYQ: &'static str = "replicore_tasks_kafka_replyq";
pub const KAFKA_CGRP_ASSIGNMENT_SIZE: &'static str = "replicore_tasks_kafka_cgrp_assignment_size";
pub const KAFKA_BROKER_OUTBUF_CNT: &'static str = "replicore_tasks_kafka_broker_outbuf_cnt";
pub const KAFKA_BROKER_OUTBUF_MSG_CNT: &'static str = "replicore_tasks_kafka_broker_outbuf_msg_cnt";
pub const KAFKA_BROKER_REQ_TIMEOUTS: &'static str = "replicore_tasks_kafka_broker_req_timeouts";
pub const KAFKA_BROKER_RX: &'static str = "replicore_tasks_kafka_broker_rx";
pub const KAFKA_BROKER_RXBYTES: &'static str = "replicore_tasks_kafka_broker_rxbytes";
pub const KAFKA_BROKER_RXCORRIDERRS: &'static str = "replicore_tasks_kafka_broker_rxcorriderrs";
pub const KAFKA_BROKER_RXERRS: &'static str = "replicore_tasks_kafka_broker_rxerrs";
pub const KAFKA_BROKER_RXPARTIAL: &'static str = "replicore_tasks_kafka_broker_rxpartial";
pub const KAFKA_BROKER_TX: &'static str = "replicore_tasks_kafka_broker_tx";
pub const KAFKA_BROKER_TXBYTES: &'static str = "replicore_tasks_kafka_broker_txbytes";
pub const KAFKA_BROKER_TXERRS: &'static str = "replicore_tasks_kafka_broker_txerrs";
pub const KAFKA_BROKER_TXRETRIES: &'static str = "replicore_tasks_kafka_broker_txretries";
pub const KAFKA_BROKER_WAITRESP_CNT: &'static str = "replicore_tasks_kafka_broker_waitresp_cnt";
pub const KAFKA_BROKER_WAITRESP_MSG_CNT: &'static str = "replicore_tasks_kafka_broker_waitresp_msg_cnt";
pub const KAFKA_BROKER_WAKEUPS: &'static str = "replicore_tasks_kafka_broker_wakeups";
pub const KAFKA_BROKER_ZBUF_GROW: &'static str = "replicore_tasks_kafka_broker_zbuf_grow";
pub const KAFKA_PARTITION_COMMITTED_OFFSET: &'static str = "replicore_tasks_kafka_partition_committed_offset";
pub const KAFKA_PARTITION_CONSUMER_LAG: &'static str = "replicore_tasks_kafka_partition_consumer_lag";
pub const KAFKA_PARTITION_FETCHQ_CNT: &'static str = "replicore_tasks_kafka_partition_fetchq_cnt";
pub const KAFKA_PARTITION_FETCHQ_SIZE: &'static str = "replicore_tasks_kafka_partition_fetchq_size";
pub const KAFKA_PARTITION_MSGQ_BYTES: &'static str = "replicore_tasks_kafka_partition_msgq_bytes";
pub const KAFKA_PARTITION_MSGQ_CNT: &'static str = "replicore_tasks_kafka_partition_msgq_cnt";
pub const KAFKA_PARTITION_TXBYTES: &'static str = "replicore_tasks_kafka_partition_txbytes";
pub const KAFKA_PARTITION_TXMSGS: &'static str = "replicore_tasks_kafka_partition_txmsgs";
pub const KAFKA_PARTITION_XMIT_MSGQ_BYTES: &'static str = "replicore_tasks_kafka_partition_xmit_msgq_bytes";
pub const KAFKA_PARTITION_XMIT_MSGQ_CNT: &'static str = "replicore_tasks_kafka_partition_xmit_msgq_cnt";

/// What a sample is about, besides the role of the client.
#[derive(Debug, PartialEq, Eq)]
pub enum Target {
    /// The client as a whole.
    Client,
    /// The broker of this name.
    Broker(String),
    /// The partition of this number of the topic of this name.
    Partition(String, i32),
}

/// What a `Target` holds.
pub enum TargetView {
    Client,
    Broker(Seq<char>),
    Partition(Seq<char>, i32),
}

impl View for Target {
    type V = TargetView;

    open spec fn view(&self) -> TargetView {
        match self {
            Target::Client => TargetView::Client,
            Target::Broker(name) => TargetView::Broker(name@),
            Target::Partition(topic, partition) => TargetView::Partition(topic@, *partition),
        }
    }
}

/// One value for one gauge.
#[derive(Debug, PartialEq, Eq)]
pub struct Sample {
    pub metric: &'static str,
    pub target: Target,
    pub value: i64,
}

/// What a `Sample` holds.
pub struct SampleView {
    pub metric: Seq<char>,
    pub target: TargetView,
    pub value: i64,
}

impl View for Sample {
    type V = SampleView;

    open spec fn view(&self) -> SampleView {
        SampleView { metric: self.metric@, target: self.target@, value: self.value }
    }
}

impl DeepView for Sample {
    type V = SampleView;

    open spec fn deep_view(&self) -> SampleView {
        self@
    }
}

/// What the client reports of one broker.
#[derive(Debug, PartialEq, Eq)]
pub struct BrokerStats {
    pub name: String,
    pub outbuf_cnt: i64,
    pub outbuf_msg_cnt: i64,
    pub req_timeouts: i64,
    pub rx: i64,
    pub rxbytes: i64,
    pub rxcorriderrs: i64,
    pub rxerrs: i64,
    pub rxpartial: i64,
    pub tx: i64,
    pub txbytes: i64,
    pub txerrs: i64,
    pub txretries: i64,
    pub waitresp_cnt: i64,
    pub waitresp_msg_cnt: i64,
    pub wakeups: Option<i64>,
    pub zbuf_grow: i64,
}

/// What a `BrokerStats` holds.
pub struct BrokerStatsView {
    pub name: Seq<char>,
    pub outbuf_cnt: i64,
    pub outbuf_msg_cnt: i64,
    pub req_timeouts: i64,
    pub rx: i64,
    pub rxbytes: i64,
    pub rxcorriderrs: i64,
    pub rxerrs: i64,
    pub rxpartial: i64,
    pub tx: i64,
    pub txbytes: i64,
    pub txerrs: i64,
    pub txretries: i64,
    pub waitresp_cnt: i64,
    pub waitresp_msg_cnt: i64,
    pub wakeups: Option<i64>,
    pub zbuf_grow: i64,
}

impl View for BrokerStats {
    type V = BrokerStatsView;

    open spec fn view(&self) -> BrokerStatsView {
        BrokerStatsView {
            name: self.name@,
            outbuf_cnt: self.outbuf_cnt,
            outbuf_msg_cnt: self.outbuf_msg_cnt,
            req_timeouts: self.req_timeouts,
            rx: self.rx,
            rxbytes: self.rxbytes,
            rxcorriderrs: self.rxcorriderrs,
            rxerrs: self.rxerrs,
            rxpartial: self.rxpartial,
            tx: self.tx,
            txbytes: self.txbytes,
            txerrs: self.txerrs,
            txretries: self.txretries,
            waitresp_cnt: self.waitresp_cnt,
            waitresp_msg_cnt: self.waitresp_msg_cnt,
            wakeups: self.wakeups,
            zbuf_grow: self.zbuf_grow,
        }
    }
}

impl DeepView for BrokerStats {
    type V = BrokerStatsView;

    open spec fn deep_view(&self) -> BrokerStatsView {
        self@
    }
}

/// What the client reports of one partition of a topic.
#[derive(Clone, Copy, Debug, PartialEq, Eq)]
pub struct PartitionStats {
    pub partition: i32,
    pub committed_offset: i64,
    pub consumer_lag: i64,
    pub fetchq_cnt: i64,
    pub fetchq_size: i64,
    pub msgq_bytes: i64,
    pub msgq_cnt: i64,
    pub txbytes: i64,
    pub txmsgs: i64,
    pub xmit_msgq_bytes: i64,
    pub xmit_msgq_cnt: i64,
}

impl View for PartitionStats {
    type V = PartitionStats;

    open spec fn view(&self) -> PartitionStats {
        *self
    }
}

impl DeepView for PartitionStats {
    type V = PartitionStats;

    open spec fn deep_view(&self) -> PartitionStats {
        *self
    }
}

/// What the client reports of one topic.
#[derive(Debug, PartialEq, Eq)]
pub struct TopicStats {
    pub topic: String,
    pub partitions: Vec<PartitionStats>,
}

/// What a `TopicStats` holds.
pub struct TopicStatsView {
    pub topic: Seq<char>,
    pub partitions: Seq<PartitionStats>,
}

impl View for TopicStats {
    type V = TopicStatsView;

    open spec fn view(&self) -> TopicStatsView {
        TopicStatsView { topic: self.topic@, partitions: self.partitions.deep_view() }
    }
}

impl DeepView for TopicStats {
    type V = TopicStatsView;

    open spec fn deep_view(&self) -> TopicStatsView {
        self@
    }
}

/// What the client reports of itself.
#[derive(Debug, PartialEq, Eq)]
pub struct Statistics {
    pub msg_cnt: i64,
    pub replyq: i64,
    pub brokers: Vec<BrokerStats>,
    pub topics: Vec<TopicStats>,
    /// How many partitions are assigned to the client, where it is in a
    /// consumer group.
    pub cgrp_assignment_size: Option<i64>,
}

/// What a `Statistics` holds.
pub struct StatisticsView {
    pub msg_cnt: i64,
    pub replyq: i64,
    pub brokers: Seq<BrokerStatsView>,
    pub topics: Seq<TopicStatsView>,
    pub cgrp_assignment_size: Option<i64>,
}

impl View for Statistics {
    type V = StatisticsView;

    open spec fn view(&self) -> StatisticsView {
        StatisticsView {
            msg_cnt: self.msg_cnt,
            replyq: self.replyq,
            brokers: self.brokers.deep_view(),
            topics: self.topics.deep_view(),
            cgrp_assignment_size: self.cgrp_assignment_size,
        }
    }
}

/// A sample about a broker.
pub open spec fn broker_sample(metric: &'static str, broker: BrokerStatsView, value: i64)
    -> SampleView {
    SampleView { metric: metric@, target: TargetView::Broker(broker.name), value }
}

/// The samples for what the client reports of one broker. A broker that
/// reports no wakeups counts as having none.
pub open spec fn broker_samples(broker: BrokerStatsView) -> Seq<SampleView> {
    seq![
        broker_sample(KAFKA_BROKER_OUTBUF_CNT, broker, broker.outbuf_cnt),
        broker_sample(KAFKA_BROKER_OUTBUF_MSG_CNT, broker, broker.outbuf_msg_cnt),
        broker_sample(KAFKA_BROKER_REQ_TIMEOUTS, broker, broker.req_timeouts),
        broker_sample(KAFKA_BROKER_RX, broker, broker.rx),
        broker_sample(KAFKA_BROKER_RXBYTES, broker, broker.rxbytes),
        broker_sample(KAFKA_BROKER_RXCORRIDERRS, broker, broker.rxcorriderrs),
        broker_sample(KAFKA_BROKER_RXERRS, broker, broker.rxerrs),
        broker_sample(KAFKA_BROKER_RXPARTIAL, broker, broker.rxpartial),
        broker_sample(KAFKA_BROKER_TX, broker, broker.tx),
        broker_sample(KAFKA_BROKER_TXBYTES, broker, broker.txbytes),
        broker_sample(KAFKA_BROKER_TXERRS, broker, broker.txerrs),
        broker_sample(KAFKA_BROKER_TXRETRIES, broker, broker.txretries),
        broker_sample(KAFKA_BROKER_WAITRESP_CNT, broker, broker.waitresp_cnt),
        broker_sample(KAFKA_BROKER_WAITRESP_MSG_CNT, broker, broker.waitresp_msg_cnt),
        broker_sample(
            KAFKA_BROKER_WAKEUPS,
            broker,
            match broker.wakeups {
                Some(wakeups) => wakeups,
                None => 0,
            },
        ),
        broker_sample(KAFKA_BROKER_ZBUF_GROW, broker, broker.zbuf_grow),
    ]
}

/// A sample about a partition of a topic.
pub open spec fn partition_sample(
    metric: &'static str,
    topic: Seq<char>,
    partition: PartitionStats,
    value: i64,
) -> SampleView {
    SampleView { metric: metric@, target: TargetView::Partition(topic, partition.partition), value }
}

/// The samples for what the client reports of one partition of `topic`.
pub open spec fn partition_samples(topic: Seq<char>, partition: PartitionStats) -> Seq<SampleView> {
    seq![
        partition_sample(KAFKA_PARTITION_COMMITTED_OFFSET, topic, partition, partition.committed_offset),
        partition_sample(KAFKA_PARTITION_CONSUMER_LAG, topic, partition, partition.consumer_lag),
        partition_sample(KAFKA_PARTITION_FETCHQ_CNT, topic, partition, partition.fetchq_cnt),
        partition_sample(KAFKA_PARTITION_FETCHQ_SIZE, topic, partition, partition.fetchq_size),
        partition_sample(KAFKA_PARTITION_MSGQ_BYTES, topic, partition, partition.msgq_bytes),
        partition_sample(KAFKA_PARTITION_MSGQ_CNT, topic, partition, partition.msgq_cnt),
        partition_sample(KAFKA_PARTITION_TXBYTES, topic, partition, partition.txbytes),
        partition_sample(KAFKA_PARTITION_TXMSGS, topic, partition, partition.txmsgs),
        partition_sample(KAFKA_PARTITION_XMIT_MSGQ_BYTES, topic, partition, partition.xmit_msgq_bytes),
        partition_sample(KAFKA_PARTITION_XMIT_MSGQ_CNT, topic, partition, partition.xmit_msgq_cnt),
    ]
}

/// The samples for the brokers, broker by broker.
pub open spec fn brokers_samples(brokers: Seq<BrokerStatsView>) -> Seq<SampleView>
    decreases brokers.len(),
{
    if brokers.len() == 0 {
        Seq::empty()
    } else {
        brokers_samples(brokers.drop_last()) + broker_samples(brokers.last())
    }
}

/// The samples for the partitions of `topic`, partition by partition.
pub open spec fn partitions_samples(topic: Seq<char>, partitions: Seq<PartitionStats>) -> Seq<
    SampleView,
>
    decreases partitions.len(),
{
    if partitions.len() == 0 {
        Seq::empty()
    } else {
        partitions_samples(topic, partitions.drop_last()) + partition_samples(
            topic,
            partitions.last(),
        )
    }
}

/// The samples for the topics, topic by topic.
pub open spec fn topics_samples(topics: Seq<TopicStatsView>) -> Seq<SampleView>
    decreases topics.len(),
{
    if topics.len() == 0 {
        Seq::empty()
    } else {
        topics_samples(topics.drop_last()) + partitions_samples(
            topics.last().topic,
            topics.last().partitions,
        )
    }
}

/// A sample about the client as a whole.
pub open spec fn client_sample(metric: &'static str, value: i64) -> SampleView {
    SampleView { metric: metric@, target: TargetView::Client, value }
}

/// The samples for everything that the client reports: the client as a
/// whole, then the brokers, then the partitions of the topics, then the
/// consumer group where the client is in one.
pub open spec fn stats_samples(stats: StatisticsView) -> Seq<SampleView> {
    seq![client_sample(KAFKA_MSG_CNT, stats.msg_cnt), client_sample(KAFKA_REPLYQ, stats.replyq)]
        + brokers_samples(stats.brokers) + topics_samples(stats.topics)
        + match stats.cgrp_assignment_size {
        Some(size) => seq![client_sample(KAFKA_CGRP_ASSIGNMENT_SIZE, size)],
        None => Seq::empty(),
    }
}

fn push(samples: &mut Vec<Sample>, metric: &'static str, target: Target, value: i64)
    ensures
        final(samples).deep_view() == old(samples).deep_view().push(
            SampleView { metric: metric@, target: target@, value },
        ),
{
    let ghost before = samples.deep_view();
    let ghost shown = SampleView { metric: metric@, target: target@, value };
    samples.push(Sample { metric, target, value });
    assert(samples.deep_view() =~= before.push(shown));
}

fn push_broker(samples: &mut Vec<Sample>, broker: &BrokerStats)
    ensures
        final(samples).deep_view() == old(samples).deep_view() + broker_samples(broker@),
{
    let ghost before = samples.deep_view();
    push(samples, KAFKA_BROKER_OUTBUF_CNT, Target::Broker(broker.name.clone()), broker.outbuf_cnt);
    push(samples, KAFKA_BROKER_OUTBUF_MSG_CNT, Target::Broker(broker.name.clone()), broker.outbuf_msg_cnt);
    push(samples, KAFKA_BROKER_REQ_TIMEOUTS, Target::Broker(broker.name.clone()), broker.req_timeouts);
    push(samples, KAFKA_BROKER_RX, Target::Broker(broker.name.clone()), broker.rx);
    push(samples, KAFKA_BROKER_RXBYTES, Target::Broker(broker.name.clone()), broker.rxbytes);
    push(samples, KAFKA_BROKER_RXCORRIDERRS, Target::Broker(broker.name.clone()), broker.rxcorriderrs);
    push(samples, KAFKA_BROKER_RXERRS, Target::Broker(broker.name.clone()), broker.rxerrs);
    push(samples, KAFKA_BROKER_RXPARTIAL, Target::Broker(broker.name.clone()), broker.rxpartial);
    push(samples, KAFKA_BROKER_TX, Target::Broker(broker.name.clone()), broker.tx);
    push(samples, KAFKA_BROKER_TXBYTES, Target::Broker(broker.name.clone()), broker.txbytes);
    push(samples, KAFKA_BROKER_TXERRS, Target::Broker(broker.name.clone()), broker.txerrs);
    push(samples, KAFKA_BROKER_TXRETRIES, Target::Broker(broker.name.clone()), broker.txretries);
    push(samples, KAFKA_BROKER_WAITRESP_CNT, Target::Broker(broker.name.clone()), broker.waitresp_cnt);
    push(samples, KAFKA_BROKER_WAITRESP_MSG_CNT, Target::Broker(broker.name.clone()), broker.waitresp_msg_cnt);
    let wakeups = match broker.wakeups {
        Some(wakeups) => wakeups,
        None => 0,
    };
    push(samples, KAFKA_BROKER_WAKEUPS, Target::Broker(broker.name.clone()), wakeups);
    push(samples, KAFKA_BROKER_ZBUF_GROW, Target::Broker(broker.name.clone()), broker.zbuf_grow);
    assert(samples.deep_view() =~= before + broker_samples(broker@));
}

fn push_partition(samples: &mut Vec<Sample>, topic: &String, partition: &PartitionStats)
    ensures
        final(samples).deep_view() == old(samples).deep_view() + partition_samples(
            topic@,
            *partition,
        ),
{
    let ghost before = samples.deep_view();
    let id = partition.partition;
    push(samples, KAFKA_PARTITION_COMMITTED_OFFSET, Target::Partition(topic.clone(), id), partition.committed_offset);
    push(samples, KAFKA_PARTITION_CONSUMER_LAG, Target::Partition(topic.clone(), id), partition.consumer_lag);
    push(samples, KAFKA_PARTITION_FETCHQ_CNT, Target::Partition(topic.clone(), id), partition.fetchq_cnt);
    push(samples, KAFKA_PARTITION_FETCHQ_SIZE, Target::Partition(topic.clone(), id), partition.fetchq_size);
    push(samples, KAFKA_PARTITION_MSGQ_BYTES, Target::Partition(topic.clone(), id), partition.msgq_bytes);
    push(samples, KAFKA_PARTITION_MSGQ_CNT, Target::Partition(topic.clone(), id), partition.msgq_cnt);
    push(samples, KAFKA_PARTITION_TXBYTES, Target::Partition(topic.clone(), id), partition.txbytes);
    push(samples, KAFKA_PARTITION_TXMSGS, Target::Partition(topic.clone(), id), partition.txmsgs);
    push(samples, KAFKA_PARTITION_XMIT_MSGQ_BYTES, Target::Partition(topic.clone(), id), partition.xmit_msgq_bytes);
    push(samples, KAFKA_PARTITION_XMIT_MSGQ_CNT, Target::Partition(topic.clone(), id), partition.xmit_msgq_cnt);
    assert(samples.deep_view() =~= before + partition_samples(topic@, *partition));
}

/// A broker client context to expose stats as gauges.
pub struct ClientStatsContext {
    role: String,
}

impl ClientStatsContext {
    /// The role of the client, under which every sample goes.
    pub closed spec fn spec_role(&self) -> Seq<char> {
        self.role@
    }

    /// The context of a client in the given role.
    pub fn new(role: &str) -> (context: ClientStatsContext)
        ensures
            context.spec_role() == role@,
    {
        let role = role.to_owned();
        ClientStatsContext { role }
    }

    /// The role of the client, under which every sample goes.
    pub fn role(&self) -> (role: &String)
        ensures
            role@ == self.spec_role(),
    {
        &self.role
    }

    /// The samples for the statistics that the client handed out.
    pub fn stats(&self, stats: &Statistics) -> (samples: Vec<Sample>)
        ensures
            samples.deep_view() == stats_samples(stats@),
    {
        let mut samples: Vec<Sample> = Vec::new();
        assert(samples.deep_view() =~= Seq::<SampleView>::empty());
        push(&mut samples, KAFKA_MSG_CNT, Target::Client, stats.msg_cnt);
        push(&mut samples, KAFKA_REPLYQ, Target::Client, stats.replyq);
        let ghost head = samples.deep_view();
        assert(head =~= seq![
            client_sample(KAFKA_MSG_CNT, stats.msg_cnt),
            client_sample(KAFKA_REPLYQ, stats.replyq),
        ]);
        let ghost brokers = stats@.brokers;
        let mut i: usize = 0;
        assert(brokers.take(0) =~= Seq::<BrokerStatsView>::empty());
        assert(samples.deep_view() =~= head + brokers_samples(brokers.take(0)));
        while i < stats.brokers.len()
            invariant
                i <= stats.brokers.len(),
                brokers == stats.brokers.deep_view(),
                samples.deep_view() == head + brokers_samples(brokers.take(i as int)),
            decreases stats.brokers.len() - i,
        {
            proof {
                assert(brokers.take(i + 1).drop_last() =~= brokers.take(i as int));
                assert(brokers.take(i + 1).last() == stats.brokers[i as int]@);
            }
            push_broker(&mut samples, &stats.brokers[i]);
            assert(samples.deep_view() =~= head + brokers_samples(brokers.take(i + 1)));
            i += 1;
        }
        assert(brokers.take(stats.brokers.len() as int) =~= brokers);
        let ghost with_brokers = samples.deep_view();
        let ghost topics = stats@.topics;
        let mut t: usize = 0;
        assert(topics.take(0) =~= Seq::<TopicStatsView>::empty());
        assert(samples.deep_view() =~= with_brokers + topics_samples(topics.take(0)));
        while t < stats.topics.len()
            invariant
                t <= stats.topics.len(),
                topics == stats.topics.deep_view(),
                samples.deep_view() == with_brokers + topics_samples(topics.take(t as int)),
            decreases stats.topics.len() - t,
        {
            proof {
                assert(topics.take(t + 1).drop_last() =~= topics.take(t as int));
                assert(topics.take(t + 1).last() == stats.topics[t as int]@);
            }
            let topic = &stats.topics[t];
            let ghost before_topic = samples.deep_view();
            let ghost partitions = topic@.partitions;
            let mut p: usize = 0;
            assert(partitions.take(0) =~= Seq::<PartitionStats>::empty());
            assert(samples.deep_view() =~= before_topic + partitions_samples(
                topic@.topic,
                partitions.take(0),
            ));
            while p < topic.partitions.len()
                invariant
                    p <= topic.partitions.len(),
                    partitions == topic.partitions.deep_view(),
                    samples.deep_view() == before_topic + partitions_samples(
                        topic@.topic,
                        partitions.take(p as int),
                    ),
                decreases topic.partitions.len() - p,
            {
                proof {
                    assert(partitions.take(p + 1).drop_last() =~= partitions.take(p as int));
                    assert(partitions.take(p + 1).last() == topic.partitions[p as int]);
                }
                push_partition(&mut samples, &topic.topic, &topic.partitions[p]);
                assert(samples.deep_view() =~= before_topic + partitions_samples(
                    topic@.topic,
                    partitions.take(p + 1),
                ));
                p += 1;
            }
            assert(partitions.take(topic.partitions.len() as int) =~= partitions);
            assert(samples.deep_view() =~= with_brokers + topics_samples(topics.take(t + 1)));
            t += 1;
        }
        assert(topics.take(stats.topics.len() as int) =~= topics);
        let ghost with_topics = samples.deep_view();
        match stats.cgrp_assignment_size {
            Some(size) => {
                push(&mut samples, KAFKA_CGRP_ASSIGNMENT_SIZE, Target::Client, size);
            },
            None => {},
        }
        assert(samples.deep_view() =~= stats_samples(stats@));
        samples
    }
}

} // verus!
