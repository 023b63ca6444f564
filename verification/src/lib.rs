//! Live telemetry for a container runtime: usage metrics derived from raw
//! counter snapshots, a cancellable log-streaming session, and the choice of
//! the runtime endpoint.

pub mod connection;
pub mod logs;
pub mod metrics;
pub mod sequences;
pub mod text;
pub mod views;
