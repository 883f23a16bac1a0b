//! The core of a control plane for stateful data-store clusters: the refresh
//! of the state of each cluster, and what the refresh stands on.
//!
//! Agents run beside the nodes of the data stores and say what they see. For
//! each cluster a refresh takes the lock of the cluster, asks every agent,
//! persists what it finds, emits the events that belong to it, aggregates the
//! metadata of the cluster and releases the lock.
//!
//! Nothing in this library reads or writes anything outside the process.
//! Whatever needs the coordinator, the stores, the agents or the broker is
//! written as a sequence of steps: the library says what is to be asked
//! next, whoever drives it asks, and the library takes the answer and moves
//! on. The contracts say for every answer what happens next.
//!
//! - `coordinator`: locks that never block, lock watchers, the registry of
//!   nodes, the layout of the consensus store and its cleanup.
//! - `tasks`: the queues, requests for tasks, retries, and the handler of
//!   cluster refresh tasks.
//! - `fetcher` and `aggregator`: the refresh itself.
//! - `store` and `streams`: the primary store and the events stream, the
//!   documents that models are persisted as, and the queries of the database.
//! - `validate`: the checks of the administrator.
//! - `mock`: a world in memory that answers everything the refresh asks.
pub mod aggregator;
pub mod clock;
pub mod components;
pub mod config;
pub mod coordinator;
pub mod error;
pub mod fetcher;
pub mod interfaces;
pub mod mock;
pub mod models;
pub mod store;
pub mod streams;
pub mod tasks;
pub mod text;
pub mod validate;

pub use self::config::Config;
pub use self::error::Error;
pub use self::error::ErrorKind;
