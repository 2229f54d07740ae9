//! Health monitoring of IBC channels: backlog of packet commitments and
//! remaining validity of the destination client, published as gauges.
pub mod backlog;
pub mod client;
pub mod config;
pub mod error;
pub mod telemetry;
pub mod time;
