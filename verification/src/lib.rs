//! The decisions behind a shader bridge: talking to the adb server and the
//! `adb` tool, keeping devices tunneled, relaying messages between web
//! peers and devices, and planning what a device's renderer does per frame.
//!
//! Nothing here performs input or output. Each module takes what was read,
//! says what to do next, and states that decision as a contract.

pub mod adb;
pub mod android;
pub mod bridge;
pub mod bytes;
pub mod daemon;
pub mod number;
pub mod renderer;
pub mod text;
