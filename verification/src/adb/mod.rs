//! Talking to adb: to its server, which tells which devices are connected,
//! and to its command-line tool, for everything that is done once.

pub mod c_list;
pub mod cli;
pub mod devices;
pub mod laws;
pub mod track_devices;
