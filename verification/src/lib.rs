//! A real-time telemetry relay between a swarm simulator and observer/control
//! clients: a last-write-wins store of per-agent state, a bounded lossy
//! fan-out channel, a datagram ingest step, a per-connection session step and
//! an outbound command translator, all over the exact bytes of the wire
//! formats.

pub mod clock;
pub mod commands;
pub mod config;
pub mod fanout;
pub mod ingest;
pub mod json;
pub mod session;
pub mod store;
pub mod text;
pub mod wire;
