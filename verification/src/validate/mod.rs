//! The validators: passes over the configuration, the coordinator and the
//! stores that sort what they find into errors and warnings.
pub mod outcome;

pub use self::outcome::Outcomes;
pub mod store;
pub mod config;
pub mod coordinator;
