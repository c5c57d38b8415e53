//! The core of a LoRa gateway agent.
//!
//! The agent runs beside a packet forwarder on a radio gateway. This crate
//! holds what the agent decides and computes: how a beacon is derived from
//! two entropies and the parameters of the region, when the region watcher
//! fetches and what it publishes, how the connection to the packet router is
//! made and lost, and in which form a message is signed. The tasks that
//! sleep, connect and listen are built around it.

pub mod beacon;
pub mod bytes;
pub mod entropy;
pub mod error;
pub mod keyed_uri;
pub mod keys;
pub mod msg_sign;
pub mod region;
pub mod region_watcher;
pub mod router;
