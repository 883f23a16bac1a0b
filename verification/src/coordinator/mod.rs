//! The distributed coordinator: named locks that never block, with watchers
//! that tell when a lock is lost, and the registry of the nodes of the
//! control plane.
pub mod error;
pub mod lock;
pub mod mock;
pub mod node_id;
pub mod zookeeper;

pub use self::error::Error;
pub use self::error::ErrorKind;
pub use self::lock::NBLockInfo;
pub use self::lock::NonBlockingLock;
pub use self::lock::NonBlockingLockWatcher;
pub use self::node_id::NodeId;
