use slang_bridge::android::device_info::{
    device_info_json, escape_json_string, queue_device_info, KnownToApp,
};
use slang_bridge::android::pending_perf::{
    set_device_info, set_perf_sample, take_device_info, take_perf_sample, DeviceInfoRecord,
    PerfSampleRecord, PerfSlots,
};
use slang_bridge::android::pending_shader::{set_update, take, PendingShader, ShaderSlot};
use slang_bridge::android::render_loop::{
    was_presented, DeviceAction, DeviceEvent, DeviceFrame, DeviceStep, Renderer,
};
use slang_bridge::android::session::{Session, SessionAction, SessionEvent, TICK_MS};
use slang_bridge::android::touch_input::{push, TouchQueue};
use slang_bridge::bridge::protocol::{
    Envelope, HelloAck, Incoming, Message, PerfSample, ShaderUpdate,
};
use slang_bridge::bridge::target_client::{Attempt, Error as ClientError, TargetClient};
use slang_bridge::renderer::compute::{
    ComputeProgram, ComputeRequest, Descriptors, MappedBuffer, SetupAction, SetupEvent,
};
use slang_bridge::renderer::frame::{FrameAction, FrameEvent};
use slang_bridge::renderer::resources::{
    BlitResources, FrameParts, GraphicsShaders, SwapchainParts, ThreadGroups,
};
use slang_bridge::renderer::surface::{
    plan_swapchain, Error, Extent, SurfaceCapabilities, SurfaceFormat,
};
use slang_bridge::renderer::swapchain::{DeviceInfo, SwapchainRenderer};
use slang_bridge::renderer::touch::TouchEvent;

fn record(gpu_name: &str) -> DeviceInfoRecord {
    DeviceInfoRecord {
        gpu_name: gpu_name.to_string(),
        driver_version: 1,
        vendor_id: 2,
        device_id: 3,
        api_version: 4,
        android_model: "Pixel 8".to_string(),
        android_manufacturer: "Google".to_string(),
        android_release: "15".to_string(),
        android_sdk_int: 35,
        android_fingerprint: "fp".to_string(),
    }
}

fn update() -> ShaderUpdate {
    ShaderUpdate {
        vertex_spirv: vec![1],
        fragment_spirv: vec![2],
        compute_spirv: vec![9, 9],
        entry_point: "imageMain".to_string(),
        thread_group_size_x: 16,
        thread_group_size_y: 8,
        thread_group_size_z: 1,
        output_texture_binding: 3,
        uniform_buffer_size: 32,
        time_offset: Some(0),
        frame_id_offset: None,
        mouse_position_offset: Some(16),
    }
}

fn client() -> TargetClient {
    TargetClient::connect(Attempt::Answered(Incoming::Envelope(Envelope {
        message: Some(Message::HelloAck(HelloAck { session_id: "1".to_string() })),
    })))
    .expect("a client")
}

/// A session that is connected and waits.
fn waiting(shader: &mut ShaderSlot, perf: &mut PerfSlots) -> Session {
    let (session, action) = Session::connect_and_wait(
        Some("ws://127.0.0.1:8800/ws".to_string()),
        Some("pixel".to_string()),
        true,
    );
    match action {
        SessionAction::Connect { url, display_name } => {
            assert_eq!(url, "ws://127.0.0.1:8800/ws");
            assert_eq!(display_name, "pixel");
        }
        other => panic!("got {other:?}"),
    }
    let (session, action) = session.advance(shader, perf, SessionEvent::Connected(Ok(client())));
    assert!(matches!(action, SessionAction::Wait));
    session
}

fn renderer() -> Renderer {
    let capabilities = SurfaceCapabilities {
        min_image_count: 1,
        max_image_count: 0,
        current_extent: Extent { width: 4, height: 4 },
        min_image_extent: Extent { width: 1, height: 1 },
        max_image_extent: Extent { width: 4, height: 4 },
        current_transform: 1,
    };
    let formats = vec![SurfaceFormat { format: 37, color_space: 0 }];
    let plan = plan_swapchain(&capabilities, &formats, Extent { width: 1, height: 1 })
        .expect("a plan");
    let parts = SwapchainParts {
        swapchain: 1,
        image_views: vec![2],
        render_pass: 3,
        framebuffers: vec![4],
        pipeline: 5,
        pipeline_layout: 6,
        shaders: GraphicsShaders { vertex: vec![1], fragment: vec![2] },
    };
    let frame = FrameParts {
        command_pool: 7,
        command_buffer: 8,
        image_available: 9,
        render_finished: 10,
        in_flight: 11,
        timestamp_query_pool: 12,
    };
    let info = DeviceInfo {
        gpu_name: "gpu".to_string(),
        driver_version: 1,
        vendor_id: 2,
        device_id: 3,
        api_version: 4,
    };
    Renderer::new(SwapchainRenderer::new(&plan, 13, parts, frame, info))
}

#[test]
fn a_slot_keeps_only_the_latest_shader() {
    let mut slot: ShaderSlot = None;
    assert!(take(&mut slot).is_none());
    slang_bridge::android::pending_shader::set(&mut slot, vec![1], vec![2]);
    slang_bridge::android::pending_shader::set(&mut slot, vec![3], vec![4]);
    let shader = take(&mut slot).expect("a shader");
    assert_eq!(shader.vertex_spirv, vec![3]);
    assert_eq!(shader.fragment_spirv, vec![4]);
    assert!(shader.compute_spirv.is_empty());
    assert!(take(&mut slot).is_none());
    slang_bridge::android::pending_shader::set(&mut slot, vec![1], vec![2]);
    set_update(
        &mut slot,
        PendingShader { compute_spirv: vec![7], ..shader },
    );
    assert_eq!(take(&mut slot).expect("a shader").compute_spirv, vec![7]);
}

#[test]
fn slots_for_reports_keep_only_the_latest() {
    let mut slots = PerfSlots::new();
    assert!(take_device_info(&mut slots).is_none());
    assert!(take_perf_sample(&mut slots).is_none());
    set_device_info(&mut slots, record("old"));
    set_device_info(&mut slots, record("new"));
    set_perf_sample(&mut slots, PerfSampleRecord { frame_id: 1, gpu_time_ms: 1 });
    set_perf_sample(&mut slots, PerfSampleRecord { frame_id: 2, gpu_time_ms: 2 });
    assert_eq!(take_device_info(&mut slots).map(|info| info.gpu_name), Some("new".to_string()));
    assert!(take_device_info(&mut slots).is_none());
    assert_eq!(
        take_perf_sample(&mut slots),
        Some(PerfSampleRecord { frame_id: 2, gpu_time_ms: 2 })
    );
    assert!(take_perf_sample(&mut slots).is_none());
}

#[test]
fn a_session_needs_an_address_a_name_and_a_runtime() {
    let text = || Some("x".to_string());
    for (url, name, runtime) in [
        (None, text(), true),
        (text(), None, true),
        (text(), text(), false),
        (None, None, false),
    ] {
        let (session, action) = Session::connect_and_wait(url, name, runtime);
        assert!(matches!(session, Session::Over));
        assert!(matches!(action, SessionAction::Finish(false)));
    }
    assert_eq!(TICK_MS, 200);
}

#[test]
fn a_session_that_cannot_connect_was_none() {
    let (mut shader, mut perf) = (None, PerfSlots::new());
    let (session, _) =
        Session::connect_and_wait(Some("u".to_string()), Some("n".to_string()), true);
    let failed = SessionEvent::Connected(Err(ClientError::HandshakeFailed));
    let (_, action) = session.advance(&mut shader, &mut perf, failed);
    assert!(matches!(action, SessionAction::Finish(false)));
}

#[test]
fn a_session_leaves_shaders_for_the_render_loop() {
    let (mut shader, mut perf) = (None, PerfSlots::new());
    let session = waiting(&mut shader, &mut perf);
    let envelope = Envelope { message: Some(Message::ShaderUpdate(update())) };
    let (session, action) = session.advance(
        &mut shader,
        &mut perf,
        SessionEvent::Received(Incoming::Envelope(envelope)),
    );
    assert!(matches!(action, SessionAction::Wait));
    let pending = take(&mut shader).expect("a shader");
    assert_eq!(pending.vertex_spirv, vec![1]);
    assert_eq!(pending.fragment_spirv, vec![2]);
    assert_eq!(pending.compute_spirv, vec![9, 9]);
    assert_eq!(pending.entry_point, "imageMain");
    assert_eq!(pending.thread_group_size, ThreadGroups { x: 16, y: 8, z: 1 });
    assert_eq!(pending.output_texture_binding, 3);
    assert_eq!(pending.uniform_buffer_size, 32);
    assert_eq!(pending.time_offset, Some(0));
    assert_eq!(pending.frame_id_offset, None);
    assert_eq!(pending.mouse_position_offset, Some(16));

    let (session, action) =
        session.advance(&mut shader, &mut perf, SessionEvent::Received(Incoming::NotBinary));
    assert!(matches!(action, SessionAction::Wait));
    assert!(shader.is_none());
    let (_, action) =
        session.advance(&mut shader, &mut perf, SessionEvent::Received(Incoming::Closed));
    assert!(matches!(action, SessionAction::Finish(true)));
}

#[test]
fn a_tick_sends_what_is_waiting() {
    let (mut shader, mut perf) = (None, PerfSlots::new());
    let session = waiting(&mut shader, &mut perf);
    let (session, action) = session.advance(&mut shader, &mut perf, SessionEvent::Tick);
    assert!(matches!(action, SessionAction::Wait));

    set_device_info(&mut perf, record("gpu"));
    set_perf_sample(&mut perf, PerfSampleRecord { frame_id: 5, gpu_time_ms: 6 });
    let (session, action) = session.advance(&mut shader, &mut perf, SessionEvent::Tick);
    match action {
        SessionAction::Send(Envelope { message: Some(Message::DeviceInfo(info)) }) => {
            assert_eq!(info.gpu_name, "gpu");
            assert_eq!(info.android_sdk_int, 35);
            assert_eq!(info.android_fingerprint, "fp");
        }
        other => panic!("got {other:?}"),
    }
    let (session, action) = session.advance(&mut shader, &mut perf, SessionEvent::Sent(false));
    match action {
        SessionAction::Send(Envelope { message: Some(Message::PerfSample(sample)) }) => {
            assert_eq!(sample, PerfSample { frame_id: 5, gpu_time_ms: 6 });
        }
        other => panic!("got {other:?}"),
    }
    let (session, action) = session.advance(&mut shader, &mut perf, SessionEvent::Sent(true));
    assert!(matches!(action, SessionAction::Wait));
    let (_, action) = session.advance(&mut shader, &mut perf, SessionEvent::Tick);
    assert!(matches!(action, SessionAction::Wait));
}

#[test]
fn a_session_can_be_shut_down_at_any_time() {
    let (mut shader, mut perf) = (None, PerfSlots::new());
    let (connecting, _) =
        Session::connect_and_wait(Some("u".to_string()), Some("n".to_string()), true);
    let (_, action) =
        connecting.advance(&mut shader, &mut perf, SessionEvent::ShutdownRequested);
    assert!(matches!(action, SessionAction::Finish(false)));
    let session = waiting(&mut shader, &mut perf);
    let (_, action) = session.advance(&mut shader, &mut perf, SessionEvent::ShutdownRequested);
    assert!(matches!(action, SessionAction::Finish(true)));
    let session = waiting(&mut shader, &mut perf);
    set_device_info(&mut perf, record("gpu"));
    let (session, _) = session.advance(&mut shader, &mut perf, SessionEvent::Tick);
    let (_, action) = session.advance(&mut shader, &mut perf, SessionEvent::ShutdownRequested);
    assert!(matches!(action, SessionAction::Finish(true)));
}

/// Carries out what a frame asks for, and writes down what that was. A
/// pipeline is built only if `builds` says so, and the clock says `time`.
struct Device {
    renderer: Renderer,
    touches: TouchQueue,
    perf: PerfSlots,
    builds: bool,
    time: Option<u32>,
    log: Vec<&'static str>,
}

impl Device {
    fn new() -> Device {
        Device {
            renderer: renderer(),
            touches: Vec::new(),
            perf: PerfSlots::new(),
            builds: true,
            time: None,
            log: Vec::new(),
        }
    }

    fn render_frame(&mut self, slot: &mut ShaderSlot) -> Result<bool, Error> {
        self.log.clear();
        let begun = self.renderer.render_frame(slot, &mut self.touches);
        self.finish(begun)
    }

    fn finish(&mut self, begun: (DeviceFrame, DeviceAction)) -> Result<bool, Error> {
        let (mut frame, mut action) = begun;
        loop {
            let (name, event) = match action {
                DeviceAction::Prepare(action) => {
                    assert!(self.perf.perf_sample.is_none());
                    let event = match action {
                        SetupAction::CreateBlit(_) => SetupEvent::Blit(blit_pass()),
                        SetupAction::CreateUniforms(_) => SetupEvent::Uniforms(MappedBuffer {
                            buffer: 40,
                            memory: 41,
                            mapped: 42,
                        }),
                        SetupAction::CreateProgram { .. } if self.builds => {
                            SetupEvent::Program(ComputeProgram {
                                pipeline: 50,
                                pipeline_layout: 51,
                                descriptor_set_layout: 52,
                            })
                        }
                        SetupAction::CreateProgram { .. } => {
                            SetupEvent::Failed(Error::Vulkan(-3))
                        }
                        SetupAction::CreateDescriptors(_) => {
                            SetupEvent::Descriptors(Descriptors { pool: 60, set: 61 })
                        }
                        SetupAction::WaitIdle => SetupEvent::Idle,
                        SetupAction::Finish(..) => panic!("the frame gives things back itself"),
                    };
                    ("prepare", DeviceEvent::Setup(event))
                }
                DeviceAction::GiveBack(_) => ("give back", DeviceEvent::GivenBack),
                DeviceAction::Render(action) => {
                    assert!(self.touches.is_empty());
                    let event = match action {
                        FrameAction::ReadTimestamps { .. } => FrameEvent::Ticks { start: 1, end: 5 },
                        FrameAction::AcquireImage { .. } => FrameEvent::Acquired(0),
                        FrameAction::Finish(_) => panic!("the frame ends itself"),
                        _ => FrameEvent::Done,
                    };
                    ("render", DeviceEvent::Frame(event))
                }
                DeviceAction::Measure => {
                    assert!(matches!(frame.step, DeviceStep::Measuring(_)));
                    ("measure", DeviceEvent::Measured(self.time))
                }
                DeviceAction::Finish(result) => {
                    assert!(matches!(frame.step, DeviceStep::Over));
                    return result;
                }
            };
            if self.log.last() != Some(&name) {
                self.log.push(name);
            }
            (frame, action) =
                frame.advance(&mut self.renderer, &mut self.touches, &mut self.perf, event);
        }
    }
}

fn requested(frame: &DeviceFrame) -> &ComputeRequest {
    match &frame.step {
        DeviceStep::Preparing(setup) => &setup.request,
        other => panic!("got {other:?}"),
    }
}

fn pending() -> PendingShader {
    PendingShader {
        vertex_spirv: Vec::new(),
        fragment_spirv: Vec::new(),
        compute_spirv: vec![9, 9],
        entry_point: "imageMain".to_string(),
        thread_group_size: ThreadGroups { x: 16, y: 16, z: 1 },
        output_texture_binding: 0,
        uniform_buffer_size: 16,
        time_offset: Some(0),
        frame_id_offset: None,
        mouse_position_offset: None,
    }
}

fn blit_pass() -> BlitResources {
    BlitResources {
        output_image: 20,
        output_image_view: 21,
        output_image_memory: 22,
        sampler: 23,
        pipeline: 24,
        pipeline_layout: 25,
        descriptor_set_layout: 26,
        descriptor_pool: 27,
        descriptor_set: 28,
    }
}

#[test]
fn the_render_loop_puts_a_pending_shader_in_use() {
    let mut device = Device::new();
    let mut slot: ShaderSlot = None;
    slang_bridge::android::pending_shader::set(&mut slot, vec![1], vec![2]);
    let (frame, action) = device.renderer.render_frame(&mut slot, &mut device.touches);
    let request = requested(&frame);
    assert!(request.uniforms.is_none());
    assert!(slot.is_none());
    assert!(device.finish((frame, action)).expect("a frame"));

    let (mut shader, mut perf) = (None, PerfSlots::new());
    let session = waiting(&mut shader, &mut perf);
    let envelope = Envelope { message: Some(Message::ShaderUpdate(update())) };
    session.advance(
        &mut shader,
        &mut perf,
        SessionEvent::Received(Incoming::Envelope(envelope)),
    );
    let mut device = Device::new();
    let (frame, action) = device.renderer.render_frame(&mut shader, &mut device.touches);
    let request = requested(&frame);
    assert_eq!(request.spirv, vec![9, 9]);
    assert_eq!(request.entry_point, "imageMain");
    assert_eq!(request.output_texture_binding, 3);
    let uniforms = request.uniforms.expect("uniforms");
    assert_eq!(uniforms.size, 32);
    assert_eq!(uniforms.mouse_position_offset, Some(16));
    assert!(matches!(action, DeviceAction::Prepare(SetupAction::CreateBlit(_))));
    assert!(device.finish((frame, action)).expect("a frame"));
    let stage = device.renderer.swapchain_renderer.compute.expect("a compute shader");
    assert_eq!(stage.pipeline, 50);
    assert_eq!(stage.output_texture_binding, 3);
}

#[test]
fn a_frame_goes_in_order() {
    let mut device = Device::new();
    let mut slot: ShaderSlot = None;
    assert!(device.render_frame(&mut slot).expect("a frame"));
    assert_eq!(device.log, vec!["render", "measure"]);
    assert!(device.perf.perf_sample.is_none());

    // A shader that arrives starts without touches, but those that came in
    // are applied after it.
    set_update(&mut slot, pending());
    push(&mut device.touches, TouchEvent::Down { x: 7, y: 8 });
    device.time = Some(4.5f32.to_bits());
    assert!(device.render_frame(&mut slot).expect("a frame"));
    assert_eq!(device.log, vec!["prepare", "give back", "render", "measure"]);
    assert!(device.renderer.swapchain_renderer.compute.is_some());
    let touch = device.renderer.swapchain_renderer.touch;
    assert!(touch.is_down);
    assert_eq!((touch.last_down_x, touch.last_down_y), (7, 8));
    assert_eq!(
        take_perf_sample(&mut device.perf),
        Some(PerfSampleRecord { frame_id: 2, gpu_time_ms: 4.5f32.to_bits() })
    );
}

#[test]
fn a_frame_goes_on_without_a_shader_that_cannot_be_used() {
    let mut device = Device::new();
    device.builds = false;
    let mut slot: ShaderSlot = None;
    set_update(&mut slot, pending());
    assert!(device.render_frame(&mut slot).expect("a frame"));
    assert_eq!(device.log, vec!["prepare", "give back", "render", "measure"]);
    assert!(device.renderer.swapchain_renderer.compute.is_none());
    assert!(slot.is_none());
}

#[test]
fn a_frame_that_fails_is_measured_all_the_same() {
    let mut device = Device::new();
    let mut slot: ShaderSlot = None;
    let (frame, _) = device.renderer.render_frame(&mut slot, &mut device.touches);
    let failed = DeviceEvent::Frame(FrameEvent::Failed(-4));
    let (renderer, touches, perf) =
        (&mut device.renderer, &mut device.touches, &mut device.perf);
    let (frame, action) = frame.advance(renderer, touches, perf, failed);
    assert!(matches!(action, DeviceAction::Measure));
    let (_, action) = frame.advance(renderer, touches, perf, DeviceEvent::Measured(Some(1)));
    assert!(matches!(action, DeviceAction::Finish(Err(Error::Vulkan(-4)))));
    assert_eq!(
        take_perf_sample(perf),
        Some(PerfSampleRecord { frame_id: 1, gpu_time_ms: 1 })
    );
}

#[test]
fn a_frame_applies_touches_and_is_numbered() {
    let mut device = Device::new();
    let mut slot: ShaderSlot = None;
    push(&mut device.touches, TouchEvent::Down { x: 1, y: 2 });
    push(&mut device.touches, TouchEvent::Up);
    let (_, action) = device.renderer.render_frame(&mut slot, &mut device.touches);
    assert!(matches!(action, DeviceAction::Render(FrameAction::WaitFence { fence: 11 })));
    assert!(device.touches.is_empty());
    assert_eq!(device.renderer.frame_counter, 1);
    let touch = device.renderer.swapchain_renderer.touch;
    assert!(touch.ever_clicked && !touch.is_down);
    assert_eq!((touch.last_down_x, touch.last_down_y), (1, 2));

    device.renderer.frame_counter = u32::MAX;
    device.render_frame(&mut slot).expect("a frame");
    assert_eq!(device.renderer.frame_counter, 0);
}

#[test]
fn only_a_frame_that_was_presented_counts() {
    assert!(was_presented(Some(Ok(true))));
    assert!(!was_presented(Some(Ok(false))));
    assert!(!was_presented(Some(Err(Error::NoSuitableDevice))));
    assert!(!was_presented(None));
}

#[test]
fn json_strings_are_escaped() {
    assert_eq!(escape_json_string(""), "");
    assert_eq!(escape_json_string("Adreno (TM) 740 ü 日"), "Adreno (TM) 740 ü 日");
    assert_eq!(escape_json_string("a\"b\\c"), "a\\\"b\\\\c");
    assert_eq!(escape_json_string("\n\r\t"), "\\n\\r\\t");
    for code in 0u8..0x20 {
        let c = code as char;
        let expected = match c {
            '\n' => "\\n".to_string(),
            '\r' => "\\r".to_string(),
            '\t' => "\\t".to_string(),
            c => format!("\\u{:04x}", c as u32),
        };
        assert_eq!(escape_json_string(&c.to_string()), expected);
    }
    assert_eq!(escape_json_string("\u{1f}\u{20}\u{7f}"), "\\u001f \u{7f}");
}

#[test]
fn devices_are_described_in_json() {
    let info = DeviceInfo {
        gpu_name: "A \"GPU\"".to_string(),
        driver_version: 0,
        vendor_id: 0x5143,
        device_id: 10,
        api_version: u32::MAX,
    };
    assert_eq!(
        device_info_json(&info),
        r#"{"gpuName":"A \"GPU\"","driverVersion":0,"vendorId":20803,"deviceId":10,"apiVersion":4294967295}"#
    );
}

fn known() -> KnownToApp {
    KnownToApp {
        gpu_name: Some("gpu".to_string()),
        driver_version: 0x1_0000_0002,
        vendor_id: -1,
        device_id: i64::MIN,
        api_version: 0xffff_ffff,
        android_model: Some("m".to_string()),
        android_manufacturer: Some("f".to_string()),
        android_release: Some("r".to_string()),
        android_sdk_int: -2,
        android_fingerprint: Some("p".to_string()),
    }
}

#[test]
fn what_the_app_knows_is_queued_for_the_bridge() {
    let mut slots = PerfSlots::new();
    queue_device_info(&mut slots, known());
    let info = take_device_info(&mut slots).expect("a record");
    assert_eq!(info.gpu_name, "gpu");
    assert_eq!(info.driver_version, 2);
    assert_eq!(info.vendor_id, u32::MAX);
    assert_eq!(info.device_id, 0);
    assert_eq!(info.api_version, u32::MAX);
    assert_eq!(info.android_model, "m");
    assert_eq!(info.android_manufacturer, "f");
    assert_eq!(info.android_release, "r");
    assert_eq!(info.android_sdk_int, -2i32 as u32);
    assert_eq!(info.android_fingerprint, "p");
}

#[test]
fn nothing_is_queued_if_a_text_is_missing() {
    let incomplete = [
        KnownToApp { gpu_name: None, ..known() },
        KnownToApp { android_model: None, ..known() },
        KnownToApp { android_manufacturer: None, ..known() },
        KnownToApp { android_release: None, ..known() },
        KnownToApp { android_fingerprint: None, ..known() },
    ];
    for known in incomplete {
        let mut slots = PerfSlots::new();
        set_device_info(&mut slots, record("before"));
        queue_device_info(&mut slots, known);
        assert_eq!(
            take_device_info(&mut slots).map(|info| info.gpu_name),
            Some("before".to_string())
        );
    }
}
