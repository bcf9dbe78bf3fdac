//! Configuration and persisted state.
pub mod app_config;
pub mod monitor;
pub mod sensors;
pub mod state;
