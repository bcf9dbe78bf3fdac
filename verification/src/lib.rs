//! Wyze Sense to MQTT bridge: the protocol, device and gateway rules.
pub mod cli;
pub mod clock;
pub mod config;
pub mod engine;
pub mod gateway;
pub mod hex;
pub mod json;
pub mod order;
pub mod protocol;
pub mod registry;
pub mod simulator;
pub mod text;
pub mod transport;
pub mod web;
