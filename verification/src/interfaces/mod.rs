//! The interfaces of the control plane: the units that others talk to.
pub mod api;
