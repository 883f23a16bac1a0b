//! The cluster fetcher: refreshes every agent of a cluster and persists what
//! it finds.
//!
//! `fetch` holds the refresh step by step and `protocol` what it asks for.
//! `agent`, `identity`, `node` and `shard` hold the decisions that the steps
//! are made of, and `trace` holds what follows for whole refreshes.
pub mod agent;
pub mod error;
pub mod fetch;
pub mod identity;
pub mod node;
pub mod protocol;
pub mod shard;
pub mod snapshotter;
pub mod trace;

pub use self::error::Error;
pub use self::error::ErrorKind;
pub use self::fetch::Fetcher;
pub use self::snapshotter::Snapshotter;
