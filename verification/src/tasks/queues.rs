//! The queues of the control plane.
use vstd::prelude::*;

verus! {

/// What the task system needs to know of a queue.
pub trait TaskQueue {
    /// The most times a task of the queue is retried after it failed. A queue
    /// that does not say allows no retries.
    open spec fn spec_max_retry_count(&self) -> u8 {
        0
    }

    /// The name of the queue. A queue that does not say has the empty name.
    open spec fn spec_name(&self) -> Seq<char> {
        Seq::empty()
    }

    /// The seconds to wait before a failed task is tried again. A queue that
    /// does not say waits no time.
    open spec fn spec_retry_delay(&self) -> u64 {
        0
    }

    /// The most times a task of the queue is retried after it failed.
    fn max_retry_count(&self) -> (count: u8)
        ensures
            count == self.spec_max_retry_count(),
    ;

    /// The name of the queue.
    fn name(&self) -> (name: String)
        ensures
            name@ == self.spec_name(),
    ;

    /// The seconds to wait before a failed task is tried again.
    fn retry_delay(&self) -> (seconds: u64)
        ensures
            seconds == self.spec_retry_delay(),
    ;
}

/// Enumerate all queues used by the control plane.
#[derive(Clone, Copy, Debug, PartialEq, Eq, Hash, Structural)]
pub enum ReplicanteQueues {
    /// Cluster state refresh and aggregation tasks.
    ClusterRefresh,
}

impl TaskQueue for ReplicanteQueues {
    open spec fn spec_max_retry_count(&self) -> u8 {
        match self {
            ReplicanteQueues::ClusterRefresh => 3,
        }
    }

    open spec fn spec_name(&self) -> Seq<char> {
        match self {
            ReplicanteQueues::ClusterRefresh => "cluster_refresh"@,
        }
    }

    open spec fn spec_retry_delay(&self) -> u64 {
        match self {
            ReplicanteQueues::ClusterRefresh => 10,
        }
    }

    fn max_retry_count(&self) -> (count: u8) {
        match self {
            ReplicanteQueues::ClusterRefresh => 3,
        }
    }

    fn name(&self) -> (name: String) {
        match self {
            ReplicanteQueues::ClusterRefresh => "cluster_refresh".to_owned(),
        }
    }

    fn retry_delay(&self) -> (seconds: u64) {
        match self {
            ReplicanteQueues::ClusterRefresh => 10,
        }
    }
}

impl ReplicanteQueues {
    /// The queue called `name`, or the text that says that there is none.
    pub fn from_str(name: &str) -> (queue: core::result::Result<ReplicanteQueues, String>)
        ensures
            match queue {
                Ok(found) => found.spec_name() == name@,
                Err(message) => name@ != "cluster_refresh"@ && message@ == "unknown queue '"@
                    + name@ + "'"@,
            },
    {
        if crate::text::str_eq(name, "cluster_refresh") {
            Ok(ReplicanteQueues::ClusterRefresh)
        } else {
            Err(crate::text::concat3("unknown queue '", name, "'"))
        }
    }
}

} // verus!
