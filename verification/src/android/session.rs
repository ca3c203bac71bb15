//! One connection of the device to the bridge, from the attempt to make it
//! until it is over.
//!
//! Shaders that arrive are left for the render loop. At every tick, whatever
//! is waiting to be told about the device is sent, so that reports follow the
//! ticks and not the frames.

use crate::android::pending_perf::{
    take_device_info, take_perf_sample, DeviceInfoRecord, PerfSampleRecord, PerfSlots,
};
use crate::android::pending_shader::{set_update, PendingShader, ShaderSlot};
use crate::bridge::protocol::{DeviceInfo, Envelope, Incoming, Message, PerfSample, ShaderUpdate};
use crate::bridge::target_client::{reception, Error, Received, TargetClient};
use crate::renderer::resources::ThreadGroups;
use vstd::prelude::*;

verus! {

/// Milliseconds from one tick to the next.
pub const TICK_MS: u64 = 200;

/// Where a session stands.
#[derive(Debug)]
pub enum Session {
    /// The connection is being made.
    Connecting,
    /// Nothing is going on.
    Waiting { client: TargetClient },
    /// The device is being described.
    Describing { client: TargetClient },
    /// The time of a frame is being reported.
    Reporting { client: TargetClient },
    /// The session is over.
    Over,
}

/// What a session is to do next.
#[derive(Debug)]
pub enum SessionAction {
    /// Connect to this address under this name.
    Connect { url: String, display_name: String },
    /// Read from the connection, and wait for a tick, whichever comes first.
    Wait,
    /// Send this.
    Send(Envelope),
    /// End the session, and say whether there ever was a connection.
    Finish(bool),
}

/// What came of it. A request to shut down may come at any time.
#[derive(Debug)]
pub enum SessionEvent {
    /// The attempt to connect is over.
    Connected(Result<TargetClient, Error>),
    /// This was read.
    Received(Incoming),
    /// A tick has come.
    Tick,
    /// Sending is over, and succeeded or not.
    Sent(bool),
    /// The session is to end.
    ShutdownRequested,
}

/// The shader a message brings.
pub open spec fn pending_of(update: ShaderUpdate) -> PendingShader {
    PendingShader {
        vertex_spirv: update.vertex_spirv,
        fragment_spirv: update.fragment_spirv,
        compute_spirv: update.compute_spirv,
        entry_point: update.entry_point,
        thread_group_size: ThreadGroups {
            x: update.thread_group_size_x,
            y: update.thread_group_size_y,
            z: update.thread_group_size_z,
        },
        output_texture_binding: update.output_texture_binding,
        uniform_buffer_size: update.uniform_buffer_size,
        time_offset: update.time_offset,
        frame_id_offset: update.frame_id_offset,
        mouse_position_offset: update.mouse_position_offset,
    }
}

/// The message that describes a device.
pub open spec fn description(info: DeviceInfoRecord) -> Envelope {
    Envelope {
        message: Some(
            Message::DeviceInfo(
                DeviceInfo {
                    gpu_name: info.gpu_name,
                    driver_version: info.driver_version,
                    vendor_id: info.vendor_id,
                    device_id: info.device_id,
                    api_version: info.api_version,
                    android_model: info.android_model,
                    android_manufacturer: info.android_manufacturer,
                    android_release: info.android_release,
                    android_sdk_int: info.android_sdk_int,
                    android_fingerprint: info.android_fingerprint,
                },
            ),
        ),
    }
}

/// The message that reports the time of a frame.
pub open spec fn report(sample: PerfSampleRecord) -> Envelope {
    Envelope {
        message: Some(
            Message::PerfSample(
                PerfSample { frame_id: sample.frame_id, gpu_time_ms: sample.gpu_time_ms },
            ),
        ),
    }
}

/// What follows in a session: where it stands, what the other threads find,
/// and what it is to do.
pub struct SessionStep {
    pub session: Session,
    pub shader: ShaderSlot,
    pub perf: PerfSlots,
    pub action: SessionAction,
}

/// A session that is over.
pub open spec fn over(shader: ShaderSlot, perf: PerfSlots, connected: bool) -> SessionStep {
    SessionStep { session: Session::Over, shader, perf, action: SessionAction::Finish(connected) }
}

/// A session in which nothing is going on.
pub open spec fn idle(client: TargetClient, shader: ShaderSlot, perf: PerfSlots) -> SessionStep {
    SessionStep { session: Session::Waiting { client }, shader, perf, action: SessionAction::Wait }
}

/// A session that reports the latest frame, if there is one to report.
pub open spec fn reporting(client: TargetClient, shader: ShaderSlot, perf: PerfSlots) -> SessionStep {
    match perf.perf_sample {
        Some(sample) => SessionStep {
            session: Session::Reporting { client },
            shader,
            perf: PerfSlots { perf_sample: None, ..perf },
            action: SessionAction::Send(report(sample)),
        },
        None => idle(client, shader, perf),
    }
}

/// A session that describes the device, if that has not been done, and
/// otherwise goes on to report the latest frame.
pub open spec fn describing(client: TargetClient, shader: ShaderSlot, perf: PerfSlots) -> SessionStep {
    match perf.device_info {
        Some(info) => SessionStep {
            session: Session::Describing { client },
            shader,
            perf: PerfSlots { device_info: None, ..perf },
            action: SessionAction::Send(description(info)),
        },
        None => reporting(client, shader, perf),
    }
}

impl Session {
    /// Whether an event can come next.
    pub open spec fn expects(self, event: SessionEvent) -> bool {
        match self {
            Session::Connecting => event is Connected || event is ShutdownRequested,
            Session::Waiting { .. } => event is Received || event is Tick
                || event is ShutdownRequested,
            Session::Describing { .. } => event is Sent || event is ShutdownRequested,
            Session::Reporting { .. } => event is Sent || event is ShutdownRequested,
            Session::Over => false,
        }
    }

    /// What follows an event. That something could not be sent ends nothing:
    /// a lost connection shows when it is next read from.
    pub open spec fn follows(
        self,
        shader: ShaderSlot,
        perf: PerfSlots,
        event: SessionEvent,
    ) -> SessionStep {
        match (self, event) {
            (Session::Connecting, SessionEvent::Connected(Ok(client))) => idle(
                client,
                shader,
                perf,
            ),
            (Session::Waiting { client }, SessionEvent::Received(incoming)) => match reception(
                incoming,
            ) {
                Received::Update(update) => idle(client, Some(pending_of(update)), perf),
                Received::Skipped => idle(client, shader, perf),
                Received::Closed => over(shader, perf, true),
            },
            (Session::Waiting { client }, SessionEvent::Tick) => describing(client, shader, perf),
            (Session::Describing { client }, SessionEvent::Sent(_)) => reporting(
                client,
                shader,
                perf,
            ),
            (Session::Reporting { client }, SessionEvent::Sent(_)) => idle(client, shader, perf),
            (Session::Waiting { .. }, _) => over(shader, perf, true),
            (Session::Describing { .. }, _) => over(shader, perf, true),
            (Session::Reporting { .. }, _) => over(shader, perf, true),
            _ => over(shader, perf, false),
        }
    }

    /// Begins a session, given the address and the name as far as they could
    /// be read, and whether there is anything to run it on.
    pub fn connect_and_wait(
        url: Option<String>,
        display_name: Option<String>,
        runtime: bool,
    ) -> (begun: (Session, SessionAction))
        ensures
            begun == (if url is Some && display_name is Some && runtime {
                (
                    Session::Connecting,
                    SessionAction::Connect { url: url->0, display_name: display_name->0 },
                )
            } else {
                (Session::Over, SessionAction::Finish(false))
            }),
    {
        match (url, display_name, runtime) {
            (Some(url), Some(display_name), true) => {
                (Session::Connecting, SessionAction::Connect { url, display_name })
            },
            _ => (Session::Over, SessionAction::Finish(false)),
        }
    }

    /// Takes an event into account.
    pub fn advance(
        self,
        shader: &mut ShaderSlot,
        perf: &mut PerfSlots,
        event: SessionEvent,
    ) -> (next: (Session, SessionAction))
        requires
            self.expects(event),
        ensures
            (SessionStep {
                session: next.0,
                shader: *final(shader),
                perf: *final(perf),
                action: next.1,
            }) == self.follows(*old(shader), *old(perf), event),
    {
        match (self, event) {
            (Session::Connecting, SessionEvent::Connected(Ok(client))) => {
                (Session::Waiting { client }, SessionAction::Wait)
            },
            (Session::Waiting { client }, SessionEvent::Received(incoming)) => {
                match client.recv(incoming) {
                    Received::Update(update) => {
                        set_update(shader, pending(update));
                        (Session::Waiting { client }, SessionAction::Wait)
                    },
                    Received::Skipped => (Session::Waiting { client }, SessionAction::Wait),
                    Received::Closed => (Session::Over, SessionAction::Finish(true)),
                }
            },
            (Session::Waiting { client }, SessionEvent::Tick) => {
                match take_device_info(perf) {
                    Some(info) => {
                        (Session::Describing { client }, SessionAction::Send(describe(info)))
                    },
                    None => report_latest(client, perf),
                }
            },
            (Session::Describing { client }, SessionEvent::Sent(_)) => report_latest(client, perf),
            (Session::Reporting { client }, SessionEvent::Sent(_)) => {
                (Session::Waiting { client }, SessionAction::Wait)
            },
            (Session::Waiting { .. }, _) => (Session::Over, SessionAction::Finish(true)),
            (Session::Describing { .. }, _) => (Session::Over, SessionAction::Finish(true)),
            (Session::Reporting { .. }, _) => (Session::Over, SessionAction::Finish(true)),
            _ => (Session::Over, SessionAction::Finish(false)),
        }
    }
}

/// The shader a message brings.
fn pending(update: ShaderUpdate) -> (shader: PendingShader)
    ensures
        shader == pending_of(update),
{
    PendingShader {
        vertex_spirv: update.vertex_spirv,
        fragment_spirv: update.fragment_spirv,
        compute_spirv: update.compute_spirv,
        entry_point: update.entry_point,
        thread_group_size: ThreadGroups {
            x: update.thread_group_size_x,
            y: update.thread_group_size_y,
            z: update.thread_group_size_z,
        },
        output_texture_binding: update.output_texture_binding,
        uniform_buffer_size: update.uniform_buffer_size,
        time_offset: update.time_offset,
        frame_id_offset: update.frame_id_offset,
        mouse_position_offset: update.mouse_position_offset,
    }
}

/// The message that describes a device.
fn describe(info: DeviceInfoRecord) -> (envelope: Envelope)
    ensures
        envelope == description(info),
{
    Envelope {
        message: Some(
            Message::DeviceInfo(
                DeviceInfo {
                    gpu_name: info.gpu_name,
                    driver_version: info.driver_version,
                    vendor_id: info.vendor_id,
                    device_id: info.device_id,
                    api_version: info.api_version,
                    android_model: info.android_model,
                    android_manufacturer: info.android_manufacturer,
                    android_release: info.android_release,
                    android_sdk_int: info.android_sdk_int,
                    android_fingerprint: info.android_fingerprint,
                },
            ),
        ),
    }
}

/// Reports the latest frame, if there is one to report.
fn report_latest(client: TargetClient, perf: &mut PerfSlots) -> (next: (Session, SessionAction))
    ensures
        forall|shader: ShaderSlot|
            (SessionStep { session: next.0, shader, perf: *final(perf), action: next.1 })
                == #[trigger] reporting(client, shader, *old(perf)),
{
    match take_perf_sample(perf) {
        Some(sample) => {
            let message = Message::PerfSample(
                PerfSample { frame_id: sample.frame_id, gpu_time_ms: sample.gpu_time_ms },
            );
            (
                Session::Reporting { client },
                SessionAction::Send(Envelope { message: Some(message) }),
            )
        },
        None => (Session::Waiting { client }, SessionAction::Wait),
    }
}

/// A session reports success exactly if a connection was made, be it closed
/// by the other end or by a request to shut down. It ends for no other reason
/// than these, unless no connection comes about.
pub proof fn every_connection_counts(
    session: Session,
    shader: ShaderSlot,
    perf: PerfSlots,
    event: SessionEvent,
)
    requires
        session.expects(event),
    ensures
        ({
            let action = session.follows(shader, perf, event).action;
            &&& action is Finish ==> action->Finish_0 == !(session is Connecting)
            &&& action is Finish <==> event is ShutdownRequested || (event is Received
                && reception(event->Received_0) is Closed) || (event is Connected
                && event->Connected_0 is Err)
        }),
{
}

/// What is sent is no longer waiting, so that the device is described once
/// and no frame is reported twice; and what is waiting is only removed by
/// being sent.
pub proof fn everything_waiting_is_sent_once(
    session: Session,
    shader: ShaderSlot,
    perf: PerfSlots,
    event: SessionEvent,
)
    requires
        session.expects(event),
    ensures
        ({
            let step = session.follows(shader, perf, event);
            &&& step.perf.device_info == perf.device_info || (step.perf.device_info is None
                && step.action == SessionAction::Send(description(perf.device_info->0)))
            &&& step.perf.perf_sample == perf.perf_sample || (step.perf.perf_sample is None
                && step.action == SessionAction::Send(report(perf.perf_sample->0)))
            &&& step.action is Send ==> step.perf != perf
        }),
{
}

/// Between a tick and the next wait, each of the two is sent if it was
/// waiting: the description first, and then the time of the latest frame, be
/// it one that came in the meantime.
pub proof fn a_tick_sends_what_is_waiting(
    client: TargetClient,
    shader: ShaderSlot,
    perf: PerfSlots,
    later_shader: ShaderSlot,
    later_perf: PerfSlots,
    sent: bool,
)
    requires
        perf.device_info is Some,
        later_perf.perf_sample is Some,
    ensures
        ({
            let first = (Session::Waiting { client }).follows(shader, perf, SessionEvent::Tick);
            let second = first.session.follows(
                later_shader,
                later_perf,
                SessionEvent::Sent(sent),
            );
            let third = second.session.follows(shader, perf, SessionEvent::Sent(sent));
            &&& first.action == SessionAction::Send(description(perf.device_info->0))
            &&& second.action == SessionAction::Send(report(later_perf.perf_sample->0))
            &&& third.action is Wait
        }),
{
}

} // verus!
