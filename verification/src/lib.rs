//! A verified packet-protocol layer for an early block-sandbox game's binary
//! network wire format: big-endian primitive framing, length-prefixed strings,
//! the per-connection packet dispatch state machine, the shared player
//! registry, and the chunk wire encoding with compression.

pub mod channel;
pub mod chunk;
pub mod codec;
pub mod error;
pub mod packets;
pub mod player;
pub mod registry;
pub mod session;
