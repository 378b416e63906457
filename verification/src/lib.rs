//! Single-instance daemon library: an instance lock, a length-prefixed
//! message codec for the loopback relay channel, the relay server's
//! per-connection state machine, the relay client, and the daemon
//! orchestrator, together with the data model used at the API boundary.

pub mod client;
pub mod codec;
pub mod config;
pub mod daemon;
pub mod envelope;
pub mod framing;
pub mod lock;
pub mod records;
pub mod registry;
pub mod responses;
pub mod server;
pub mod shutdown;
pub mod wire;
