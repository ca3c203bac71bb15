//! The daemon beside the relay: keeping devices tunneled to it and the
//! companion app running on them.

pub mod adb_watch;
pub mod companion_app;
pub mod config;
pub mod laws;
