//! The way out: what the bridge tells the world, and what the world asks of it.
pub mod mqtt;
