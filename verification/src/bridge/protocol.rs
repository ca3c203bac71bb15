//! The messages peers exchange, as values.

use crate::bytes::copy_bytes;
use vstd::prelude::*;

verus! {

/// What a peer is.
#[derive(Clone, Copy, PartialEq, Eq, Structural, Debug)]
pub enum PeerRole {
    /// Neither of the others, or something this side does not know.
    Unspecified,
    /// A web page that sends shaders and is told about devices.
    Ui,
    /// A device that runs shaders.
    Target,
}

/// How a peer introduces itself.
#[derive(Debug, Clone, PartialEq, Eq)]
pub struct Hello {
    pub role: PeerRole,
    pub display_name: String,
}

/// The daemon's answer to an introduction.
#[derive(Debug, Clone, PartialEq, Eq)]
pub struct HelloAck {
    pub session_id: String,
}

/// A connected device.
#[derive(Debug, Clone, PartialEq, Eq)]
pub struct TargetInfo {
    pub session_id: String,
    pub display_name: String,
}

/// Which device is connected, if any.
#[derive(Debug, Clone, PartialEq, Eq)]
pub struct PresenceUpdate {
    pub target: Option<TargetInfo>,
}

/// A shader for the device: vertex and fragment parts to draw with, or a
/// compute part with what it needs to run.
#[derive(Debug, Clone, PartialEq, Eq)]
pub struct ShaderUpdate {
    pub vertex_spirv: Vec<u8>,
    pub fragment_spirv: Vec<u8>,
    pub compute_spirv: Vec<u8>,
    pub entry_point: String,
    pub thread_group_size_x: u32,
    pub thread_group_size_y: u32,
    pub thread_group_size_z: u32,
    pub output_texture_binding: u32,
    pub uniform_buffer_size: u32,
    pub time_offset: Option<u32>,
    pub frame_id_offset: Option<u32>,
    pub mouse_position_offset: Option<u32>,
}

/// Who made the device, its driver, and its operating system.
#[derive(Debug, Clone, PartialEq, Eq)]
pub struct DeviceInfo {
    pub gpu_name: String,
    pub driver_version: u32,
    pub vendor_id: u32,
    pub device_id: u32,
    pub api_version: u32,
    pub android_model: String,
    pub android_manufacturer: String,
    pub android_release: String,
    pub android_sdk_int: u32,
    pub android_fingerprint: String,
}

/// How long a frame took on the device. `gpu_time_ms` is the bit pattern of
/// a single-precision number of milliseconds.
#[derive(Clone, Copy, PartialEq, Eq, Structural, Debug)]
pub struct PerfSample {
    pub frame_id: u32,
    pub gpu_time_ms: u32,
}

/// Any of the messages.
#[derive(Debug, Clone, PartialEq, Eq)]
pub enum Message {
    Hello(Hello),
    HelloAck(HelloAck),
    PresenceUpdate(PresenceUpdate),
    ShaderUpdate(ShaderUpdate),
    DeviceInfo(DeviceInfo),
    PerfSample(PerfSample),
}

/// What one frame carries. An envelope from a newer peer may hold a message
/// this side does not know, and is then empty.
#[derive(Debug, Clone, PartialEq, Eq)]
pub struct Envelope {
    pub message: Option<Message>,
}

/// What was read from a connection.
#[derive(Debug, Clone, PartialEq, Eq)]
pub enum Incoming {
    /// The other end is gone.
    Closed,
    /// Reading failed, for this reason.
    Failed(String),
    /// A frame that does not carry bytes.
    NotBinary,
    /// Bytes that are no envelope.
    Malformed,
    /// An envelope.
    Envelope(Envelope),
}

/// What an envelope says, however its bytes are stored.
pub enum Content {
    /// A shader.
    Shader {
        vertex_spirv: Seq<u8>,
        fragment_spirv: Seq<u8>,
        compute_spirv: Seq<u8>,
        entry_point: Seq<char>,
        thread_group_size: (u32, u32, u32),
        output_texture_binding: u32,
        uniform_buffer_size: u32,
        time_offset: Option<u32>,
        frame_id_offset: Option<u32>,
        mouse_position_offset: Option<u32>,
    },
    /// Anything else.
    Other(Envelope),
}

impl Envelope {
    /// What this says.
    pub open spec fn content(self) -> Content {
        match self.message {
            Some(Message::ShaderUpdate(update)) => Content::Shader {
                vertex_spirv: update.vertex_spirv@,
                fragment_spirv: update.fragment_spirv@,
                compute_spirv: update.compute_spirv@,
                entry_point: update.entry_point@,
                thread_group_size: (
                    update.thread_group_size_x,
                    update.thread_group_size_y,
                    update.thread_group_size_z,
                ),
                output_texture_binding: update.output_texture_binding,
                uniform_buffer_size: update.uniform_buffer_size,
                time_offset: update.time_offset,
                frame_id_offset: update.frame_id_offset,
                mouse_position_offset: update.mouse_position_offset,
            },
            _ => Content::Other(self),
        }
    }

    /// A copy that says the same.
    pub fn duplicate(&self) -> (copy: Envelope)
        ensures
            copy.content() == self.content(),
    {
        let message = match &self.message {
            None => None,
            Some(Message::Hello(hello)) => Some(
                Message::Hello(
                    Hello { role: hello.role, display_name: hello.display_name.clone() },
                ),
            ),
            Some(Message::HelloAck(ack)) => Some(
                Message::HelloAck(HelloAck { session_id: ack.session_id.clone() }),
            ),
            Some(Message::PresenceUpdate(update)) => Some(
                Message::PresenceUpdate(
                    PresenceUpdate { target: duplicate_target(&update.target) },
                ),
            ),
            Some(Message::ShaderUpdate(update)) => Some(
                Message::ShaderUpdate(
                    ShaderUpdate {
                        vertex_spirv: copy_bytes(update.vertex_spirv.as_slice()),
                        fragment_spirv: copy_bytes(update.fragment_spirv.as_slice()),
                        compute_spirv: copy_bytes(update.compute_spirv.as_slice()),
                        entry_point: update.entry_point.clone(),
                        thread_group_size_x: update.thread_group_size_x,
                        thread_group_size_y: update.thread_group_size_y,
                        thread_group_size_z: update.thread_group_size_z,
                        output_texture_binding: update.output_texture_binding,
                        uniform_buffer_size: update.uniform_buffer_size,
                        time_offset: update.time_offset,
                        frame_id_offset: update.frame_id_offset,
                        mouse_position_offset: update.mouse_position_offset,
                    },
                ),
            ),
            Some(Message::DeviceInfo(info)) => Some(
                Message::DeviceInfo(
                    DeviceInfo {
                        gpu_name: info.gpu_name.clone(),
                        driver_version: info.driver_version,
                        vendor_id: info.vendor_id,
                        device_id: info.device_id,
                        api_version: info.api_version,
                        android_model: info.android_model.clone(),
                        android_manufacturer: info.android_manufacturer.clone(),
                        android_release: info.android_release.clone(),
                        android_sdk_int: info.android_sdk_int,
                        android_fingerprint: info.android_fingerprint.clone(),
                    },
                ),
            ),
            Some(Message::PerfSample(sample)) => Some(Message::PerfSample(*sample)),
        };
        Envelope { message }
    }
}

impl TargetInfo {
    /// A copy with the same contents.
    pub fn duplicate(&self) -> (copy: TargetInfo)
        ensures
            copy == *self,
    {
        TargetInfo {
            session_id: self.session_id.clone(),
            display_name: self.display_name.clone(),
        }
    }
}

/// A copy of a description of the connected device, if there is one.
pub fn duplicate_target(target: &Option<TargetInfo>) -> (copy: Option<TargetInfo>)
    ensures
        copy == *target,
{
    match target {
        Some(info) => Some(info.duplicate()),
        None => None,
    }
}

/// The envelope that tells a peer its session.
pub open spec fn ack_for(session_id: String) -> Envelope {
    Envelope { message: Some(Message::HelloAck(HelloAck { session_id })) }
}

/// The envelope that tells which device is connected.
pub open spec fn presence_of(target: Option<TargetInfo>) -> Envelope {
    Envelope { message: Some(Message::PresenceUpdate(PresenceUpdate { target })) }
}

/// The envelope that tells a peer its session.
pub fn hello_ack(session_id: String) -> (envelope: Envelope)
    ensures
        envelope == ack_for(session_id),
{
    Envelope { message: Some(Message::HelloAck(HelloAck { session_id })) }
}

/// The envelope that tells which device is connected.
pub fn presence_update(target: Option<TargetInfo>) -> (envelope: Envelope)
    ensures
        envelope == presence_of(target),
{
    Envelope { message: Some(Message::PresenceUpdate(PresenceUpdate { target })) }
}

/// Whether an envelope carries a shader.
pub open spec fn carries_shader(envelope: Envelope) -> bool {
    envelope.message is Some && envelope.message->0 is ShaderUpdate
}

/// Whether an envelope carries something a device says about itself.
pub open spec fn carries_perf(envelope: Envelope) -> bool {
    envelope.message is Some && (envelope.message->0 is DeviceInfo
        || envelope.message->0 is PerfSample)
}

} // verus!
