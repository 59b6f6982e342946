//! Peer discovery over a shared publish/subscribe bus: the announcement wire
//! format, the start-up sequence, the re-announcement timer and the
//! reconciliation of received announcements against the live peer list.

pub mod as_hex;
pub mod audit;
pub mod bootstrap;
pub mod config;
pub mod engine;
pub mod enode;
pub mod myip;
pub mod rpc;
pub mod scheduler;
pub mod text;
pub mod wire;
