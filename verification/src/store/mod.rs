//! The primary store: typed access to the persisted state of the clusters.
//!
//! Every model is kept under its natural key, and a write replaces the
//! record under the key or inserts one. `mock` is the store in memory,
//! `mongo` describes what is asked of a MongoDB database, and `codec` and
//! `event_codec` say how the models are written as documents.
pub mod admin;
pub mod agents;
pub mod cluster;
pub mod codec;
pub mod document;
pub mod error;
pub mod event_codec;
pub mod fresh;
pub mod mock;
pub mod mongo;
pub mod shard;
pub mod shards;
pub mod table;

pub use self::error::Error;
pub use self::error::ErrorKind;
