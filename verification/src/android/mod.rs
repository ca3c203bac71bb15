//! What passes between the threads of the device app, and what each of them
//! decides.

pub mod device_info;
pub mod laws;
pub mod pending_perf;
pub mod pending_shader;
pub mod render_loop;
pub mod session;
pub mod touch_input;
