//! The task queues: typed queues with at-least-once delivery, a bounded
//! number of retries for each queue, and a delay before each retry.
pub mod cluster_refresh;
pub mod exclusion;
pub mod kafka_metrics;
pub mod queues;
pub mod request;

pub use self::kafka_metrics::ClientStatsContext;
pub use self::queues::ReplicanteQueues;
pub use self::queues::TaskQueue;
pub use self::request::MockTasks;
pub use self::request::TaskRecord;
pub use self::request::TaskRequest;
