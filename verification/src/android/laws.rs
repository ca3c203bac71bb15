//! What the device app does with what comes in, stated of what goes in and
//! what comes out.

use crate::android::device_info::{
    device_info_json, escape_json_string, escaped, escaped_text_reads_back, json_text,
    queue_device_info, KnownToApp,
};
use crate::android::pending_perf::{
    set_device_info, set_perf_sample, take_device_info, take_perf_sample, DeviceInfoRecord,
    PerfSampleRecord, PerfSlots,
};
use crate::android::pending_shader::{set_update, take, PendingShader, ShaderSlot};
use crate::android::render_loop::{
    was_presented, DeviceAction, DeviceEvent, DeviceFrame, DeviceStep, Renderer,
};
use crate::android::session::{Session, SessionAction, SessionEvent};
use crate::android::touch_input::{drain, touch_event, TouchQueue};
use crate::bridge::protocol::{Envelope, Incoming, ShaderUpdate};
use crate::bridge::target_client::{Error, TargetClient};
use crate::number::decimal;
use crate::renderer::compute::{ComputeSetup, SetupEvent};
use crate::renderer::frame::{FrameAction, FrameEvent, FrameTask};
use crate::renderer::laws::gives_back_shader;
use crate::renderer::swapchain::{DeviceInfo, SwapchainRenderer};
use crate::renderer::touch::TouchEvent;
use vstd::prelude::*;

verus! {

/// A session begins with connecting to the address that is given, under the
/// name that is given, and not at all without either, or without anything to
/// run it on.
pub proof fn a_session_connects_where_it_is_told_to(
    url: Option<String>,
    display_name: Option<String>,
    runtime: bool,
    begun: (Session, SessionAction),
)
    requires
        call_ensures(Session::connect_and_wait, (url, display_name, runtime), begun),
    ensures
        begun.1 is Connect <==> url is Some && display_name is Some && runtime,
        begun.1 is Connect ==> begun.0 is Connecting && begun.1->url == url->0
            && begun.1->display_name == display_name->0,
        !(begun.1 is Connect) ==> begun == (Session::Over, SessionAction::Finish(false)),
{
}

/// A session that is connected waits, and one that cannot connect is over and
/// never was connected.
pub proof fn a_session_waits_once_it_is_connected(
    connected: Result<TargetClient, Error>,
    shader: &mut ShaderSlot,
    perf: &mut PerfSlots,
    next: (Session, SessionAction),
)
    requires
        call_ensures(
            Session::advance,
            (Session::Connecting, shader, perf, SessionEvent::Connected(connected)),
            next,
        ),
    ensures
        connected is Ok ==> next == (
            Session::Waiting { client: connected->Ok_0 },
            SessionAction::Wait,
        ),
        connected is Err ==> next == (Session::Over, SessionAction::Finish(false)),
        *final(shader) == *old(shader),
        *final(perf) == *old(perf),
{
}

/// Whether a shader that is left for the render loop is the one that a message
/// brought, in all its parts.
pub open spec fn is_shader_of(shader: PendingShader, update: ShaderUpdate) -> bool {
    &&& shader.vertex_spirv == update.vertex_spirv
    &&& shader.fragment_spirv == update.fragment_spirv
    &&& shader.compute_spirv == update.compute_spirv
    &&& shader.entry_point == update.entry_point
    &&& shader.thread_group_size.x == update.thread_group_size_x
    &&& shader.thread_group_size.y == update.thread_group_size_y
    &&& shader.thread_group_size.z == update.thread_group_size_z
    &&& shader.output_texture_binding == update.output_texture_binding
    &&& shader.uniform_buffer_size == update.uniform_buffer_size
    &&& shader.time_offset == update.time_offset
    &&& shader.frame_id_offset == update.frame_id_offset
    &&& shader.mouse_position_offset == update.mouse_position_offset
}

/// A shader that arrives is left for the render loop, in place of one that is
/// still there, and everything else that arrives is passed over. The session
/// goes on until the connection is lost.
pub proof fn a_shader_that_arrives_is_left_for_the_render_loop(
    client: TargetClient,
    incoming: Incoming,
    shader: &mut ShaderSlot,
    perf: &mut PerfSlots,
    next: (Session, SessionAction),
)
    requires
        call_ensures(
            Session::advance,
            (Session::Waiting { client }, shader, perf, SessionEvent::Received(incoming)),
            next,
        ),
    ensures
        ({
            let lost = incoming is Closed || incoming is Failed;
            let message = incoming->Envelope_0.message;
            let arrived = incoming is Envelope && message is Some && message->0 is ShaderUpdate;
            &&& arrived ==> *final(shader) is Some && is_shader_of(
                final(shader)->0,
                message->0->ShaderUpdate_0,
            )
            &&& !arrived ==> *final(shader) == *old(shader)
            &&& *final(perf) == *old(perf)
            &&& lost ==> next == (Session::Over, SessionAction::Finish(true))
            &&& !lost ==> next == (Session::Waiting { client }, SessionAction::Wait)
        }),
{
}

/// Whether an envelope describes the device as the record does.
pub open spec fn describes(
    envelope: Envelope,
    info: DeviceInfoRecord,
) -> bool {
    &&& envelope.message is Some
    &&& envelope.message->0 is DeviceInfo
    &&& {
        let told = envelope.message->0->DeviceInfo_0;
        &&& told.gpu_name == info.gpu_name
        &&& told.driver_version == info.driver_version
        &&& told.vendor_id == info.vendor_id
        &&& told.device_id == info.device_id
        &&& told.api_version == info.api_version
        &&& told.android_model == info.android_model
        &&& told.android_manufacturer == info.android_manufacturer
        &&& told.android_release == info.android_release
        &&& told.android_sdk_int == info.android_sdk_int
        &&& told.android_fingerprint == info.android_fingerprint
    }
}

/// Whether an envelope reports a frame as the record does.
pub open spec fn reports(envelope: Envelope, sample: PerfSampleRecord) -> bool {
    &&& envelope.message is Some
    &&& envelope.message->0 is PerfSample
    &&& envelope.message->0->PerfSample_0.frame_id == sample.frame_id
    &&& envelope.message->0->PerfSample_0.gpu_time_ms == sample.gpu_time_ms
}

/// At a tick the device is described, if its description is waiting, and
/// otherwise the latest frame is reported, if one is waiting. What is sent no
/// longer waits, and what is not sent still does. The shader is not touched.
pub proof fn a_tick_tells_what_is_waiting(
    client: TargetClient,
    shader: &mut ShaderSlot,
    perf: &mut PerfSlots,
    next: (Session, SessionAction),
)
    requires
        call_ensures(
            Session::advance,
            (Session::Waiting { client }, shader, perf, SessionEvent::Tick),
            next,
        ),
    ensures
        ({
            let before = *old(perf);
            let after = *final(perf);
            &&& *final(shader) == *old(shader)
            &&& before.device_info is Some ==> {
                &&& next.0 == (Session::Describing { client })
                &&& next.1 is Send
                &&& describes(next.1->Send_0, before.device_info->0)
                &&& after.device_info is None
                &&& after.perf_sample == before.perf_sample
            }
            &&& before.device_info is None && before.perf_sample is Some ==> {
                &&& next.0 == (Session::Reporting { client })
                &&& next.1 is Send
                &&& reports(next.1->Send_0, before.perf_sample->0)
                &&& after.device_info is None
                &&& after.perf_sample is None
            }
            &&& before.device_info is None && before.perf_sample is None ==> {
                &&& next == (Session::Waiting { client }, SessionAction::Wait)
                &&& after == before
            }
        }),
{
}

/// After the description the latest frame is reported, if one is waiting, and
/// after that the session waits again. That something could not be sent makes
/// no difference.
pub proof fn a_report_follows_the_description(
    client: TargetClient,
    sent: bool,
    shader: &mut ShaderSlot,
    perf: &mut PerfSlots,
    next: (Session, SessionAction),
    later_shader: &mut ShaderSlot,
    later_perf: &mut PerfSlots,
    done: (Session, SessionAction),
)
    requires
        call_ensures(
            Session::advance,
            (Session::Describing { client }, shader, perf, SessionEvent::Sent(sent)),
            next,
        ),
        call_ensures(
            Session::advance,
            (
                Session::Reporting { client },
                later_shader,
                later_perf,
                SessionEvent::Sent(sent),
            ),
            done,
        ),
    ensures
        old(perf).perf_sample is Some ==> {
            &&& next.0 == (Session::Reporting { client })
            &&& next.1 is Send
            &&& reports(next.1->Send_0, old(perf).perf_sample->0)
            &&& final(perf).perf_sample is None
        },
        old(perf).perf_sample is None ==> next == (
            Session::Waiting { client },
            SessionAction::Wait,
        ) && final(perf).perf_sample is None,
        final(perf).device_info == old(perf).device_info,
        done == (Session::Waiting { client }, SessionAction::Wait),
        *final(later_perf) == *old(later_perf),
        *final(shader) == *old(shader),
        *final(later_shader) == *old(later_shader),
{
}

/// A request to shut down ends a session at any time, and nothing that waits
/// is lost. It was connected unless it was still connecting.
pub proof fn a_session_can_be_shut_down(
    session: Session,
    shader: &mut ShaderSlot,
    perf: &mut PerfSlots,
    next: (Session, SessionAction),
)
    requires
        !(session is Over),
        call_ensures(
            Session::advance,
            (session, shader, perf, SessionEvent::ShutdownRequested),
            next,
        ),
    ensures
        next == (Session::Over, SessionAction::Finish(!(session is Connecting))),
        *final(shader) == *old(shader),
        *final(perf) == *old(perf),
{
}

/// Text is written into a JSON string so that whoever reads JSON gets it back,
/// and text that needs no escaping is written as it is.
pub proof fn json_gives_text_back(s: &str, out: String)
    requires
        call_ensures(escape_json_string, (s,), out),
    ensures
        json_text(out@) == Some(s@),
        (forall|i: int|
            0 <= i < s@.len() ==> (#[trigger] s@[i]) as nat >= 0x20 && s@[i] != '"' && s@[i]
                != '\\') ==> out@ == s@,
{
    escaped_text_reads_back(s@);
    if forall|i: int|
        0 <= i < s@.len() ==> (#[trigger] s@[i]) as nat >= 0x20 && s@[i] != '"' && s@[i] != '\\' {
        lemma_plain_text_stays(s@);
    }
}

proof fn lemma_plain_text_stays(s: Seq<char>)
    requires
        forall|i: int|
            0 <= i < s.len() ==> (#[trigger] s[i]) as nat >= 0x20 && s[i] != '"' && s[i] != '\\',
    ensures
        escaped(s) == s,
    decreases s.len(),
{
    if s.len() > 0 {
        let shorter = s.drop_last();
        assert forall|i: int| 0 <= i < shorter.len() implies (#[trigger] shorter[i]) as nat >= 0x20
            && shorter[i] != '"' && shorter[i] != '\\' by {
            assert(shorter[i] == s[i]);
        }
        lemma_plain_text_stays(shorter);
        let last = s[s.len() - 1];
        assert(last as nat >= 0x20);
        assert(shorter + seq![last] == s);
    }
}

/// The device is described in JSON by its name, as text, and by four numbers,
/// in decimal, each under its own name.
pub proof fn the_device_is_described_in_json(info: DeviceInfo, json: String)
    requires
        call_ensures(device_info_json, (&info,), json),
    ensures
        exists|name: Seq<char>|
            json_text(name) == Some(info.gpu_name@) && json@ == "{\"gpuName\":\""@
                + #[trigger] (name + "\",\"driverVersion\":"@) + decimal(info.driver_version as nat)
                + ",\"vendorId\":"@ + decimal(info.vendor_id as nat) + ",\"deviceId\":"@ + decimal(
                info.device_id as nat,
            ) + ",\"apiVersion\":"@ + decimal(info.api_version as nat) + "}"@,
{
    escaped_text_reads_back(info.gpu_name@);
    let name = escaped(info.gpu_name@);
    assert(json@ =~= "{\"gpuName\":\""@ + (name + "\",\"driverVersion\":"@) + decimal(
        info.driver_version as nat,
    ) + ",\"vendorId\":"@ + decimal(info.vendor_id as nat) + ",\"deviceId\":"@ + decimal(
        info.device_id as nat,
    ) + ",\"apiVersion\":"@ + decimal(info.api_version as nat) + "}"@);
}

/// What the app knows of the device is left for the bridge if it is complete,
/// every part of it in its place and numbers by their lowest 32 bits, and
/// otherwise nothing is. The time of a frame that waits still does.
pub proof fn what_the_app_knows_is_left_for_the_bridge(slots: &mut PerfSlots, known: KnownToApp)
    requires
        call_ensures(queue_device_info, (slots, known), ()),
    ensures
        ({
            let complete = known.gpu_name is Some && known.android_model is Some
                && known.android_manufacturer is Some && known.android_release is Some
                && known.android_fingerprint is Some;
            let record = final(slots).device_info->0;
            &&& final(slots).perf_sample == old(slots).perf_sample
            &&& !complete ==> final(slots).device_info == old(slots).device_info
            &&& complete ==> {
                &&& final(slots).device_info is Some
                &&& record.gpu_name == known.gpu_name->0
                &&& record.driver_version == known.driver_version as int % 0x1_0000_0000
                &&& record.vendor_id == known.vendor_id as int % 0x1_0000_0000
                &&& record.device_id == known.device_id as int % 0x1_0000_0000
                &&& record.api_version == known.api_version as int % 0x1_0000_0000
                &&& record.android_model == known.android_model->0
                &&& record.android_manufacturer == known.android_manufacturer->0
                &&& record.android_release == known.android_release->0
                &&& record.android_sdk_int == known.android_sdk_int as int % 0x1_0000_0000
                &&& record.android_fingerprint == known.android_fingerprint->0
            }
        }),
{
}

/// A motion event is a press, a lift or a movement by its number, at the place
/// it has; being cancelled is being lifted; and others are none. Each is added
/// after those that wait.
pub proof fn motion_events_are_touches(queue: &mut TouchQueue, action: i32, x: u32, y: u32)
    requires
        call_ensures(touch_event, (queue, action, x, y), ()),
    ensures
        action == 0 ==> final(queue)@ == old(queue)@.push(TouchEvent::Down { x, y }),
        action == 1 || action == 3 ==> final(queue)@ == old(queue)@.push(TouchEvent::Up),
        action == 2 ==> final(queue)@ == old(queue)@.push(TouchEvent::Move { x, y }),
        action < 0 || action > 3 ==> final(queue)@ == old(queue)@,
{
}

/// A frame of the app begins with the shader that arrived, if one did: it is
/// taken, and what is put in use is that shader, by its compute part, its entry
/// point, its groups, its binding, and its uniforms if it has any. The touches
/// wait, and those of the shader before are forgotten.
pub proof fn a_frame_begins_with_the_shader_that_arrived(
    renderer: &mut Renderer,
    shader: PendingShader,
    slot: &mut ShaderSlot,
    touches: &mut TouchQueue,
    begun: (DeviceFrame, DeviceAction),
)
    requires
        old(renderer).swapchain_renderer.well_formed(),
        *old(slot) == Some(shader),
        call_ensures(Renderer::render_frame, (renderer, slot, touches), begun),
    ensures
        *final(slot) is None,
        final(touches)@ == old(touches)@,
        begun.0.step is Preparing,
        begun.1 is Prepare,
        ({
            let request = begun.0.step->Preparing_0.request;
            let before = old(renderer).swapchain_renderer;
            let after = final(renderer).swapchain_renderer;
            &&& request.spirv == shader.compute_spirv
            &&& request.entry_point == shader.entry_point
            &&& request.thread_group_size == shader.thread_group_size
            &&& request.output_texture_binding == shader.output_texture_binding
            &&& request.uniforms is Some <==> shader.uniform_buffer_size > 0
            &&& request.uniforms is Some ==> {
                &&& request.uniforms->0.size == shader.uniform_buffer_size
                &&& request.uniforms->0.time_offset == shader.time_offset
                &&& request.uniforms->0.frame_id_offset == shader.frame_id_offset
                &&& request.uniforms->0.mouse_position_offset == shader.mouse_position_offset
            }
            &&& before.blit is None <==> begun.1->Prepare_0 is CreateBlit
            &&& !after.touch.is_down && !after.touch.ever_clicked
            &&& after.compute == before.compute
            &&& after.parts == before.parts
            &&& after.frame_counter == before.frame_counter
            &&& final(renderer).frame_counter == old(renderer).frame_counter
        }),
{
}

/// Without a shader a frame begins with the touches that came in, all of them
/// and in order. It gets the next number, and waits for the frame before it.
pub proof fn a_frame_begins_with_the_touches(
    renderer: &mut Renderer,
    slot: &mut ShaderSlot,
    touches: &mut TouchQueue,
    begun: (DeviceFrame, DeviceAction),
)
    requires
        old(renderer).swapchain_renderer.well_formed(),
        *old(slot) is None,
        call_ensures(Renderer::render_frame, (renderer, slot, touches), begun),
    ensures
        *final(slot) is None,
        final(touches)@.len() == 0,
        final(renderer).swapchain_renderer.touch == old(renderer).swapchain_renderer.touch.after_all(
            old(touches)@,
        ),
        final(renderer).frame_counter as int == (old(renderer).frame_counter + 1) % 0x1_0000_0000,
        begun.1 == DeviceAction::Render(
            FrameAction::WaitFence { fence: old(renderer).swapchain_renderer.frame.in_flight },
        ),
        final(renderer).swapchain_renderer.compute == old(renderer).swapchain_renderer.compute,
{
}

/// Once the shader is settled and what it replaces is given back, the frame
/// goes on with the touches that came in, and gets its number.
pub proof fn touches_follow_the_shader(
    frame: DeviceFrame,
    renderer: &mut Renderer,
    touches: &mut TouchQueue,
    perf: &mut PerfSlots,
    next: (DeviceFrame, DeviceAction),
)
    requires
        frame.step is GivingBack,
        old(renderer).swapchain_renderer.well_formed(),
        call_ensures(
            DeviceFrame::advance,
            (frame, renderer, touches, perf, DeviceEvent::GivenBack),
            next,
        ),
    ensures
        final(touches)@.len() == 0,
        final(renderer).swapchain_renderer.touch == old(renderer).swapchain_renderer.touch.after_all(
            old(touches)@,
        ),
        final(renderer).frame_counter as int == (old(renderer).frame_counter + 1) % 0x1_0000_0000,
        next.1 == DeviceAction::Render(
            FrameAction::WaitFence { fence: old(renderer).swapchain_renderer.frame.in_flight },
        ),
        *final(perf) == *old(perf),
{
}

/// A shader that cannot be used keeps no frame from being rendered: what was
/// made for it is given back, the shader in use stays, and the frame goes on.
pub proof fn a_frame_goes_on_without_a_shader_that_fails(
    frame: DeviceFrame,
    error: crate::renderer::surface::Error,
    renderer: &mut Renderer,
    touches: &mut TouchQueue,
    perf: &mut PerfSlots,
    next: (DeviceFrame, DeviceAction),
)
    requires
        frame.step is Preparing,
        old(renderer).swapchain_renderer.well_formed(),
        call_ensures(
            DeviceFrame::advance,
            (frame, renderer, touches, perf, DeviceEvent::Setup(SetupEvent::Failed(error))),
            next,
        ),
    ensures
        next.0.step is GivingBack,
        next.1 is GiveBack,
        *final(renderer) == *old(renderer),
        final(touches)@ == old(touches)@,
        *final(perf) == *old(perf),
{
}

/// How a frame ended is what is said of it in the end, and the time of the
/// last finished frame is left for the bridge before that, under the number of
/// this frame, if it is known. A description that waits still does.
pub proof fn the_time_is_left_under_the_number_of_the_frame(
    result: Result<bool, crate::renderer::surface::Error>,
    gpu_time_ms: Option<u32>,
    frame: DeviceFrame,
    renderer: &mut Renderer,
    touches: &mut TouchQueue,
    perf: &mut PerfSlots,
    next: (DeviceFrame, DeviceAction),
)
    requires
        frame.step == DeviceStep::Measuring(result),
        old(renderer).swapchain_renderer.well_formed(),
        call_ensures(
            DeviceFrame::advance,
            (frame, renderer, touches, perf, DeviceEvent::Measured(gpu_time_ms)),
            next,
        ),
    ensures
        next.0.step is Over,
        next.1 == DeviceAction::Finish(result),
        *final(renderer) == *old(renderer),
        final(touches)@ == old(touches)@,
        final(perf).device_info == old(perf).device_info,
        gpu_time_ms is Some ==> final(perf).perf_sample == Some(
            PerfSampleRecord {
                frame_id: old(renderer).frame_counter,
                gpu_time_ms: gpu_time_ms->0,
            },
        ),
        gpu_time_ms is None ==> final(perf).perf_sample == old(perf).perf_sample,
{
}

/// A frame was presented only if there is a renderer, nothing failed, and the
/// frame was not skipped.
pub proof fn only_a_presented_frame_counts(
    rendered: Option<Result<bool, crate::renderer::surface::Error>>,
    presented: bool,
)
    requires
        call_ensures(was_presented, (rendered,), presented),
    ensures
        presented <==> rendered is Some && rendered->0 is Ok && rendered->0->Ok_0,
{
}

/// How a character is written in a JSON string: quotes, backslashes, line
/// feeds, carriage returns and tabs by a letter after a backslash, other
/// control characters by four digits, and all others as they are.
pub proof fn characters_are_escaped_one_by_one(
    shorter: &str,
    escaped_shorter: String,
    c: char,
    s: &str,
    out: String,
)
    requires
        call_ensures(escape_json_string, (shorter,), escaped_shorter),
        call_ensures(escape_json_string, (s,), out),
        s@ == shorter@.push(c),
    ensures
        ({
            let code = c as nat;
            let high = code / 16;
            let low = code % 16;
            let added = out@.skip(escaped_shorter@.len() as int);
            &&& out@ == escaped_shorter@ + added
            &&& c == '"' ==> added == seq!['\\', '"']
            &&& c == '\\' ==> added == seq!['\\', '\\']
            &&& c == '\n' ==> added == seq!['\\', 'n']
            &&& c == '\r' ==> added == seq!['\\', 'r']
            &&& c == '\t' ==> added == seq!['\\', 't']
            &&& code < 0x20 && c != '\n' && c != '\r' && c != '\t' ==> {
                &&& added.len() == 6
                &&& added.take(4) == seq!['\\', 'u', '0', '0']
                &&& added[4] as nat == 48 + high
                &&& low < 10 ==> added[5] as nat == 48 + low
                &&& low >= 10 ==> added[5] as nat == 87 + low
            }
            &&& code >= 0x20 && c != '"' && c != '\\' ==> added == seq![c]
        }),
{
    let before = escaped_shorter@;
    let added = out@.skip(before.len() as int);
    assert(s@.drop_last() == shorter@);
    assert(s@.last() == c);
    assert(out@ == before + crate::android::device_info::escaped_char(c));
    assert(added == crate::android::device_info::escaped_char(c));
    let code = c as nat;
    if code < 0x20 && c != '\n' && c != '\r' && c != '\t' {
        assert(c != '"' && c != '\\');
        assert(added.take(4) == seq!['\\', 'u', '0', '0']);
        assert(code / 16 < 10);
    }
}

/// Slots keep what was left in them last until it is taken, and are empty
/// then. What is in one slot makes no difference to the other.
pub proof fn slots_keep_what_was_left_last(
    info: DeviceInfoRecord,
    sample: PerfSampleRecord,
    shader: PendingShader,
    told: &mut PerfSlots,
    timed: &mut PerfSlots,
    slot: &mut ShaderSlot,
    untold: &mut PerfSlots,
    untimed: &mut PerfSlots,
    emptied: &mut ShaderSlot,
    taken_info: Option<DeviceInfoRecord>,
    taken_sample: Option<PerfSampleRecord>,
    taken_shader: Option<PendingShader>,
    fresh: PerfSlots,
)
    requires
        call_ensures(set_device_info, (told, info), ()),
        call_ensures(set_perf_sample, (timed, sample), ()),
        call_ensures(set_update, (slot, shader), ()),
        call_ensures(take_device_info, (untold,), taken_info),
        call_ensures(take_perf_sample, (untimed,), taken_sample),
        call_ensures(take, (emptied,), taken_shader),
        call_ensures(PerfSlots::new, (), fresh),
    ensures
        final(told).device_info == Some(info),
        final(told).perf_sample == old(told).perf_sample,
        final(timed).perf_sample == Some(sample),
        final(timed).device_info == old(timed).device_info,
        *final(slot) == Some(shader),
        taken_info == old(untold).device_info && final(untold).device_info is None,
        final(untold).perf_sample == old(untold).perf_sample,
        taken_sample == old(untimed).perf_sample && final(untimed).perf_sample is None,
        final(untimed).device_info == old(untimed).device_info,
        taken_shader == *old(emptied) && *final(emptied) is None,
        fresh.device_info is None && fresh.perf_sample is None,
{
}

/// A vertex and a fragment shader are left in the slot as they are, with
/// nothing to compute.
pub proof fn drawing_shaders_are_left_as_they_are(
    slot: &mut ShaderSlot,
    vertex: Vec<u8>,
    fragment: Vec<u8>,
)
    requires
        call_ensures(crate::android::pending_shader::set, (slot, vertex, fragment), ()),
    ensures
        *final(slot) is Some,
        final(slot)->0.vertex_spirv == vertex,
        final(slot)->0.fragment_spirv == fragment,
        final(slot)->0.compute_spirv@.len() == 0,
        final(slot)->0.uniform_buffer_size == 0,
{
}

/// Touches wait in the order in which they came, and are all taken at once.
pub proof fn touches_wait_in_order(
    queue: &mut TouchQueue,
    event: TouchEvent,
    emptied: &mut TouchQueue,
    events: Vec<TouchEvent>,
    swapchain_renderer: SwapchainRenderer,
    renderer: Renderer,
)
    requires
        call_ensures(crate::android::touch_input::push, (queue, event), ()),
        call_ensures(drain, (emptied,), events),
        call_ensures(Renderer::new, (swapchain_renderer,), renderer),
    ensures
        final(queue)@.len() == old(queue)@.len() + 1,
        final(queue)@.drop_last() == old(queue)@,
        final(queue)@.last() == event,
        events@ == old(emptied)@,
        final(emptied)@.len() == 0,
        renderer.swapchain_renderer == swapchain_renderer,
        renderer.frame_counter == 0,
{
    assert(final(queue)@.drop_last() == old(queue)@);
}

/// When the shader that arrived is in use, what belonged to the one before it
/// is given back, and nothing has been rendered or taken yet.
pub proof fn a_shader_is_in_use_before_the_frame_is_rendered(
    setup: ComputeSetup,
    frame: DeviceFrame,
    renderer: &mut Renderer,
    touches: &mut TouchQueue,
    perf: &mut PerfSlots,
    next: (DeviceFrame, DeviceAction),
)
    requires
        frame.step == DeviceStep::Preparing(setup),
        setup.step is Idle,
        setup.program is Some,
        old(renderer).swapchain_renderer.well_formed(),
        call_ensures(
            DeviceFrame::advance,
            (frame, renderer, touches, perf, DeviceEvent::Setup(SetupEvent::Idle)),
            next,
        ),
    ensures
        ({
            let before = old(renderer).swapchain_renderer;
            let after = final(renderer).swapchain_renderer;
            &&& next.0.step is GivingBack
            &&& next.1 is GiveBack
            &&& before.compute is Some ==> gives_back_shader(
                next.1->GiveBack_0@,
                before.compute->0,
            )
            &&& before.compute is None ==> next.1->GiveBack_0@.len() == 0
            &&& after.compute is Some
            &&& after.compute->0.pipeline == setup.program->0.pipeline
            &&& after.compute->0.uniforms == setup.uniforms
            &&& after.compute->0.thread_group_size == setup.request.thread_group_size
            &&& after == (SwapchainRenderer { compute: after.compute, ..before })
            &&& final(renderer).frame_counter == old(renderer).frame_counter
            &&& final(touches)@ == old(touches)@
            &&& *final(perf) == *old(perf)
        }),
{
}

/// Until then the shader is set up step by step, as the renderer does it for
/// any shader, and nothing has been rendered or taken yet.
pub proof fn a_shader_is_set_up_step_by_step(
    setup: ComputeSetup,
    event: SetupEvent,
    frame: DeviceFrame,
    renderer: &mut Renderer,
    touches: &mut TouchQueue,
    perf: &mut PerfSlots,
    next: (DeviceFrame, DeviceAction),
)
    requires
        frame.step == DeviceStep::Preparing(setup),
        frame.expects(DeviceEvent::Setup(event), old(renderer).swapchain_renderer),
        !(event is Idle) && !(event is Failed),
        old(renderer).swapchain_renderer.well_formed(),
        call_ensures(
            DeviceFrame::advance,
            (frame, renderer, touches, perf, DeviceEvent::Setup(event)),
            next,
        ),
    ensures
        next.0.step == DeviceStep::Preparing(setup.after(event)),
        next.1 is Prepare,
        setup.after(event).asks(next.1->Prepare_0, final(renderer).swapchain_renderer),
        final(renderer).swapchain_renderer == setup.effect(
            event,
            old(renderer).swapchain_renderer,
        ),
        final(renderer).swapchain_renderer.compute == old(renderer).swapchain_renderer.compute,
        final(renderer).frame_counter == old(renderer).frame_counter,
        final(touches)@ == old(touches)@,
        *final(perf) == *old(perf),
{
}

/// A frame of the app is rendered step by step, as the renderer does it for
/// any frame. When that is over, well or not, how it ended is kept, and the
/// time is asked for.
pub proof fn a_frame_is_rendered_step_by_step(
    task: FrameTask,
    event: FrameEvent,
    frame: DeviceFrame,
    renderer: &mut Renderer,
    touches: &mut TouchQueue,
    perf: &mut PerfSlots,
    next: (DeviceFrame, DeviceAction),
)
    requires
        frame.step == DeviceStep::Rendering(task),
        frame.well_formed(old(renderer).swapchain_renderer),
        frame.expects(DeviceEvent::Frame(event), old(renderer).swapchain_renderer),
        old(renderer).swapchain_renderer.well_formed(),
        call_ensures(
            DeviceFrame::advance,
            (frame, renderer, touches, perf, DeviceEvent::Frame(event)),
            next,
        ),
    ensures
        ({
            let before = old(renderer).swapchain_renderer;
            let ends = event is Failed || task.step is Present;
            let step = task.next_step(event, before.has_submitted_frame);
            &&& ends ==> next.1 is Measure && next.0.step is Measuring
            &&& ends && !(event is Failed) ==> next.0.step == DeviceStep::Measuring(Ok(true))
            &&& event is Failed ==> next.0.step == DeviceStep::Measuring(task.outcome(event))
            &&& !ends ==> {
                &&& next.0.step == DeviceStep::Rendering(FrameTask { step })
                &&& next.1 is Render
                &&& task.leads_to(event, step, before, next.1->Render_0)
            }
            &&& final(renderer).swapchain_renderer == task.effect(event, before)
            &&& final(renderer).swapchain_renderer.compute == before.compute
            &&& final(renderer).frame_counter == old(renderer).frame_counter
            &&& final(touches)@ == old(touches)@
            &&& *final(perf) == *old(perf)
        }),
{
}

} // verus!
