//! The data model shared by every component.
pub mod agent;
pub mod api;
pub mod cluster;
pub mod datastore;
pub mod events;
pub mod tasks;
