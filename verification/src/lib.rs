//! Decides which sidecar containers of a finished job pod must be stopped,
//! how each one is stopped, and what the controller does afterwards.

pub mod actions;
pub mod api;
pub mod container;
pub mod events;
pub mod metrics;
pub mod pod;
pub mod reconciler;
pub mod text;
