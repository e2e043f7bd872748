//! A model wrapper for discrete-event simulation: identity plus delegation to
//! a capability value, and a flat, tagged codec for persisting models.
pub mod node;
pub mod codec;
pub mod model;
