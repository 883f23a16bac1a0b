//! Streams of what happens in the observed clusters.
pub mod events;

pub use self::events::EventsStream;
pub use self::events::MockEvents;
