//! A dongle in software that connects to the bridge as if it stood on another machine.
pub mod config;
pub mod console;
pub mod dongle;
