//! The bridge between web peers and devices: its messages, the daemon that
//! relays them, and the device's end of a connection.

pub mod channels;
pub mod laws;
pub mod protocol;
pub mod relay;
pub mod target_client;
