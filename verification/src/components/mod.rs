//! The components of the control plane: the units that act.
pub mod discovery;
pub mod workers;
