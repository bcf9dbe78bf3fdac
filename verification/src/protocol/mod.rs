//! The dongle's wire protocol, and the sensors behind it.
pub mod battery;
pub mod bytes;
pub mod discovery;
pub mod events;
pub mod manager;
pub mod packet;
pub mod sensor;
pub mod stream;
pub mod telemetry;
