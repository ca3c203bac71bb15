use ash::vk;
use slang_bridge::renderer::blit::{
    BlitAction, BlitEvent, BlitProgress, BlitSetup, ADDRESS_CLAMP_TO_EDGE, FILTER_LINEAR,
};
use slang_bridge::renderer::compute::{
    plan_blit, Binding, BlitPlan, ComputeProgram, ComputeRequest, ComputeSetup, Descriptors, MappedBuffer,
    SetupAction, SetupEvent, BLIT_SAMPLER_BINDING, DESCRIPTOR_COMBINED_IMAGE_SAMPLER,
    DESCRIPTOR_STORAGE_IMAGE, DESCRIPTOR_UNIFORM_BUFFER, UNIFORM_BUFFER_BINDING, USAGE_SAMPLED,
    USAGE_STORAGE,
};
use slang_bridge::renderer::creation::{
    FramePartsAction, FramePartsProgress, FramePartsSetup, PartsAction, PartsEvent,
    PartsProgress, PartsSetup, TIMESTAMPS_PER_FRAME,
};
use slang_bridge::renderer::device::{
    choose_memory_kind, choose_queue, DeviceKind, PhysicalDeviceInfo, QUEUE_COMPUTE,
    QUEUE_GRAPHICS, TYPE_CPU, TYPE_DISCRETE_GPU, TYPE_INTEGRATED_GPU, TYPE_VIRTUAL_GPU,
};
use slang_bridge::renderer::frame::{
    FrameAction, FrameCommand, FrameEvent, ImageBarrier, Submission, UniformValue, UniformWrite,
    ACCESS_SHADER_READ, ACCESS_SHADER_WRITE, BIND_COMPUTE, BIND_GRAPHICS, LAYOUT_GENERAL,
    LAYOUT_UNDEFINED, OUT_OF_DATE, STAGE_BOTTOM_OF_PIPE, STAGE_COLOR_ATTACHMENT_OUTPUT,
    STAGE_COMPUTE_SHADER, STAGE_FRAGMENT_SHADER, STAGE_TOP_OF_PIPE,
};
use slang_bridge::renderer::resize::{ResizeAction, ResizeEvent};
use slang_bridge::renderer::resources::{
    BlitResources, Destroy, FrameParts, GraphicsShaders, SwapchainParts, ThreadGroups,
    UniformBufferLayout,
};
use slang_bridge::renderer::sample::{
    sample_status, ComputeSample, RendererCapiStatus, SampleAction, SampleEvent,
    DESCRIPTOR_STORAGE_BUFFER, USAGE_STORAGE_BUFFER,
};
use slang_bridge::renderer::surface::{
    plan_swapchain, Error, Extent, SurfaceCapabilities, SurfaceFormat, SwapchainPlan,
    COMPOSITE_ALPHA_OPAQUE, FORMAT_R8G8B8A8_UNORM, PRESENT_MODE_FIFO, SHARING_EXCLUSIVE,
    USAGE_COLOR_ATTACHMENT,
};
use slang_bridge::renderer::swapchain::{DeviceInfo, GraphicsProgram, SwapchainRenderer};

/// A device that does nothing but hand out handles.
struct FakeGpu {
    next: u64,
    ticks: u64,
    /// What acquiring and presenting an image fail with, if they do.
    acquire: Option<i32>,
    present: Option<i32>,
    recorded: Vec<FrameCommand>,
    written: Vec<UniformWrite>,
    /// What the last graphics and compute pipelines were built from.
    drawn_with: Option<GraphicsShaders>,
    computed_with: Option<(Vec<u8>, String)>,
    submitted: Vec<Submission>,
}

impl FakeGpu {
    fn new() -> FakeGpu {
        FakeGpu {
            next: 100,
            ticks: 1000,
            acquire: None,
            present: None,
            recorded: Vec::new(),
            written: Vec::new(),
            drawn_with: None,
            computed_with: None,
            submitted: Vec::new(),
        }
    }

    fn handle(&mut self) -> u64 {
        self.next += 1;
        self.next
    }

    fn program(&mut self) -> GraphicsProgram {
        GraphicsProgram { pipeline: self.handle(), pipeline_layout: self.handle() }
    }

    fn plan(&mut self, wanted: Extent) -> SwapchainPlan {
        plan_swapchain(&sizeless(), &vec![rgba()], wanted).expect("a plan")
    }

    fn part(&mut self, action: PartsAction) -> PartsEvent {
        match action {
            PartsAction::GetImages { .. } => {
                PartsEvent::Images(vec![self.handle(), self.handle(), self.handle()])
            }
            PartsAction::CreatePipeline(plan) => {
                self.drawn_with = Some(plan.shaders);
                PartsEvent::Pipeline(self.program())
            }
            _ => PartsEvent::Made(self.handle()),
        }
    }

    fn parts(&mut self, plan: SwapchainPlan) -> SwapchainParts {
        let (mut setup, mut action) = PartsSetup::begin(plan, 7, 0, shaders(1));
        loop {
            let event = self.part(action);
            match setup.advance(event) {
                PartsProgress::Next(next, asked) => {
                    setup = next;
                    action = asked;
                }
                PartsProgress::Finished(parts) => return parts.expect("parts"),
            }
        }
    }

    fn frame_parts(&mut self) -> FrameParts {
        let (mut setup, _) = FramePartsSetup::begin();
        loop {
            match setup.advance(Ok(self.handle())) {
                FramePartsProgress::Next(next, _) => setup = next,
                FramePartsProgress::Finished(parts) => return parts.expect("parts"),
            }
        }
    }

    fn blit(&mut self, plan: BlitPlan) -> BlitResources {
        let (mut setup, mut action) = BlitSetup::create_blit_resources(plan);
        loop {
            let event = match action {
                BlitAction::CreateImage { .. } => BlitEvent::Image {
                    image: self.handle(),
                    view: self.handle(),
                    memory: self.handle(),
                },
                BlitAction::Transition { .. } => BlitEvent::Done,
                BlitAction::BindAndCreatePipeline { .. } => BlitEvent::Pipeline(self.program()),
                _ => BlitEvent::Made(self.handle()),
            };
            match setup.advance(event) {
                BlitProgress::Next(next, asked) => {
                    setup = next;
                    action = asked;
                }
                BlitProgress::Finished(blit) => return blit.expect("a pass"),
            }
        }
    }

    fn headless_renderer(&mut self, wanted: Extent) -> SwapchainRenderer {
        let plan = self.plan(wanted);
        let parts = self.parts(plan);
        let frame = self.frame_parts();
        SwapchainRenderer::new(&plan, 7, parts, frame, device_info())
    }

    /// Carries a setup through, and says what was given back in the end.
    fn carry_out(
        &mut self,
        renderer: &mut SwapchainRenderer,
        mut setup: ComputeSetup,
        mut action: SetupAction,
    ) -> (Result<(), Error>, Vec<Destroy>) {
        loop {
            let event = match action {
                SetupAction::CreateBlit(plan) => SetupEvent::Blit(self.blit(plan)),
                SetupAction::CreateUniforms(_) => SetupEvent::Uniforms(MappedBuffer {
                    buffer: self.handle(),
                    memory: self.handle(),
                    mapped: self.handle(),
                }),
                SetupAction::CreateProgram { spirv, entry_point, .. } => {
                    self.computed_with = Some((spirv, entry_point));
                    SetupEvent::Program(ComputeProgram {
                        pipeline: self.handle(),
                        pipeline_layout: self.handle(),
                        descriptor_set_layout: self.handle(),
                    })
                }
                SetupAction::CreateDescriptors(_) => SetupEvent::Descriptors(Descriptors {
                    pool: self.handle(),
                    set: self.handle(),
                }),
                SetupAction::WaitIdle => SetupEvent::Idle,
                SetupAction::Finish(result, destroy) => return (result, destroy),
            };
            action = setup.advance(renderer, event);
        }
    }

    fn set_compute_shader(
        &mut self,
        renderer: &mut SwapchainRenderer,
        request: ComputeRequest,
    ) -> Vec<Destroy> {
        let (setup, action) = renderer.set_compute_shader(request);
        let (result, destroy) = self.carry_out(renderer, setup, action);
        assert!(result.is_ok());
        destroy
    }

    fn render_frame(&mut self, renderer: &mut SwapchainRenderer) -> Result<bool, Error> {
        let (mut task, mut action) = renderer.render_frame();
        loop {
            let event = match action {
                FrameAction::Finish(result) => return result,
                FrameAction::ReadTimestamps { pool, first, count } => {
                    assert_eq!(pool, renderer.frame.timestamp_query_pool);
                    assert_eq!((first, count), (0, 2));
                    let start = self.ticks;
                    self.ticks += 50;
                    FrameEvent::Ticks { start, end: self.ticks }
                }
                FrameAction::AcquireImage { .. } => match self.acquire {
                    Some(code) => FrameEvent::Failed(code),
                    None => FrameEvent::Acquired(1),
                },
                FrameAction::Record { writes, commands, .. } => {
                    self.written = writes;
                    self.recorded = commands;
                    FrameEvent::Done
                }
                FrameAction::Submit(submission) => {
                    self.submitted.push(submission);
                    FrameEvent::Done
                }
                FrameAction::Present { .. } => match self.present {
                    Some(code) => FrameEvent::Failed(code),
                    None => FrameEvent::Done,
                },
                _ => FrameEvent::Done,
            };
            action = task.advance(renderer, event);
        }
    }

    fn recreate(&mut self, renderer: &mut SwapchainRenderer, wanted: Extent) -> Vec<Destroy> {
        let plan = self.plan(wanted);
        let (mut resize, mut action) = renderer.recreate(plan);
        loop {
            let event = match action {
                ResizeAction::Build(action) => ResizeEvent::Part(self.part(action)),
                ResizeAction::CreateBlit(plan) => {
                    assert_eq!(plan.extent, wanted);
                    ResizeEvent::Blit(self.blit(plan))
                }
                ResizeAction::Finish(recreated) => {
                    let image_view = recreated.rebind.map(|rebind| rebind.image_view);
                    assert_eq!(recreated.rebind.is_some(), renderer.compute.is_some());
                    if image_view.is_some() {
                        assert_eq!(image_view, renderer.blit.map(|blit| blit.output_image_view));
                    }
                    return recreated.destroy;
                }
                ResizeAction::Fail(error, _) => panic!("{error:?}"),
            };
            (resize, action) = resize.advance(renderer, event);
        }
    }
}

fn extent(width: u32, height: u32) -> Extent {
    Extent { width, height }
}

fn shaders(byte: u8) -> GraphicsShaders {
    GraphicsShaders { vertex: vec![byte, 1], fragment: vec![byte, 2] }
}

fn rgba() -> SurfaceFormat {
    SurfaceFormat { format: FORMAT_R8G8B8A8_UNORM, color_space: 0 }
}

fn sizeless() -> SurfaceCapabilities {
    SurfaceCapabilities {
        min_image_count: 2,
        max_image_count: 0,
        current_extent: extent(u32::MAX, u32::MAX),
        min_image_extent: extent(1, 1),
        max_image_extent: extent(4096, 4096),
        current_transform: 1,
    }
}

fn device_info() -> DeviceInfo {
    DeviceInfo {
        gpu_name: "llvmpipe".to_string(),
        driver_version: 1,
        vendor_id: 2,
        device_id: 3,
        api_version: 4,
    }
}

fn request(uniforms: Option<UniformBufferLayout>) -> ComputeRequest {
    ComputeRequest {
        spirv: vec![1, 2, 3, 4],
        entry_point: "main".to_string(),
        thread_group_size: ThreadGroups { x: 8, y: 8, z: 1 },
        output_texture_binding: 2,
        uniforms,
    }
}

fn dispatched(commands: &[FrameCommand]) -> Option<(u32, u32, u32)> {
    commands.iter().find_map(|command| match command {
        FrameCommand::Dispatch { x, y, z } => Some((*x, *y, *z)),
        _ => None,
    })
}

#[test]
fn renders_and_presents_a_frame_against_a_headless_surface() {
    let mut gpu = FakeGpu::new();
    let mut renderer = gpu.headless_renderer(extent(64, 64));
    assert!(gpu
        .render_frame(&mut renderer)
        .expect("render_frame returned an error"));
}

#[test]
fn recreate_rebuilds_the_swapchain_and_rendering_still_works() {
    let mut gpu = FakeGpu::new();
    let mut renderer = gpu.headless_renderer(extent(64, 64));
    assert!(gpu.render_frame(&mut renderer).expect("a frame"));

    let old_swapchain = renderer.parts.swapchain;
    let destroyed = gpu.recreate(&mut renderer, extent(128, 96));
    assert_eq!(renderer.extent().width, 128);
    assert_eq!(renderer.extent().height, 96);
    assert!(destroyed.contains(&Destroy::Swapchain(old_swapchain)));
    assert!(!destroyed.contains(&Destroy::Surface(7)));

    assert!(gpu.render_frame(&mut renderer).expect("a frame"));
    assert!(gpu.recorded.iter().any(|command| matches!(
        command,
        FrameCommand::BeginRenderPass { extent, .. } if extent.width == 128 && extent.height == 96
    )));
}

#[test]
fn recreate_with_an_active_compute_shader_keeps_it_working() {
    let mut gpu = FakeGpu::new();
    let mut renderer = gpu.headless_renderer(extent(64, 64));
    gpu.set_compute_shader(&mut renderer, request(None));
    assert!(gpu.render_frame(&mut renderer).expect("a frame"));
    assert_eq!(dispatched(&gpu.recorded), Some((8, 8, 1)));
    let stage = renderer.compute.expect("a compute shader");
    let blit = renderer.blit.expect("a pass");

    gpu.recreate(&mut renderer, extent(32, 48));
    assert!(gpu.render_frame(&mut renderer).expect("a frame"));
    assert_eq!(dispatched(&gpu.recorded), Some((4, 6, 1)));
    let kept = renderer.compute.expect("a compute shader");
    assert_eq!(kept.pipeline, stage.pipeline);
    assert!(renderer.blit.expect("a pass") != blit);
}

#[test]
fn recreate_can_be_called_more_than_once() {
    let mut gpu = FakeGpu::new();
    let mut renderer = gpu.headless_renderer(extent(64, 64));
    for (width, height) in [(128, 128), (32, 32), (200, 100)] {
        gpu.recreate(&mut renderer, extent(width, height));
        assert_eq!(renderer.extent(), extent(width, height));
        assert!(gpu.render_frame(&mut renderer).expect("a frame"));
    }
}

#[test]
fn a_frame_without_a_compute_shader_draws_with_its_own_pipeline() {
    let mut gpu = FakeGpu::new();
    let mut renderer = gpu.headless_renderer(extent(64, 48));
    gpu.render_frame(&mut renderer).expect("a frame");
    let pool = renderer.frame.timestamp_query_pool;
    assert_eq!(
        gpu.recorded,
        vec![
            FrameCommand::ResetQueries { pool, first: 0, count: 2 },
            FrameCommand::WriteTimestamp { stage: STAGE_TOP_OF_PIPE, pool, query: 0 },
            FrameCommand::BeginRenderPass {
                render_pass: renderer.parts.render_pass,
                framebuffer: renderer.parts.framebuffers[1],
                extent: extent(64, 48),
            },
            FrameCommand::BindPipeline {
                point: BIND_GRAPHICS,
                pipeline: renderer.parts.pipeline,
            },
            FrameCommand::Draw { vertices: 3, instances: 1 },
            FrameCommand::WriteTimestamp { stage: STAGE_BOTTOM_OF_PIPE, pool, query: 1 },
            FrameCommand::EndRenderPass,
        ]
    );
    assert!(gpu.written.is_empty());
    assert_eq!(renderer.frame_counter, 0);
}

#[test]
fn a_frame_with_a_compute_shader_runs_it_and_shows_its_image() {
    let mut gpu = FakeGpu::new();
    let mut renderer = gpu.headless_renderer(extent(65, 64));
    gpu.set_compute_shader(&mut renderer, request(None));
    gpu.render_frame(&mut renderer).expect("a frame");
    let stage = renderer.compute.expect("a compute shader");
    let blit = renderer.blit.expect("a pass");
    assert_eq!(
        gpu.recorded[2..6],
        [
            FrameCommand::BindPipeline { point: BIND_COMPUTE, pipeline: stage.pipeline },
            FrameCommand::BindDescriptorSet {
                point: BIND_COMPUTE,
                layout: stage.pipeline_layout,
                set: stage.descriptor_set,
            },
            FrameCommand::Dispatch { x: 9, y: 8, z: 1 },
            FrameCommand::Barrier(ImageBarrier {
                image: blit.output_image,
                old_layout: LAYOUT_GENERAL,
                new_layout: LAYOUT_GENERAL,
                src_stage: STAGE_COMPUTE_SHADER,
                dst_stage: STAGE_FRAGMENT_SHADER,
                src_access: ACCESS_SHADER_WRITE,
                dst_access: ACCESS_SHADER_READ,
            }),
        ]
    );
    assert_eq!(
        gpu.recorded[7..9],
        [
            FrameCommand::BindPipeline { point: BIND_GRAPHICS, pipeline: blit.pipeline },
            FrameCommand::BindDescriptorSet {
                point: BIND_GRAPHICS,
                layout: blit.pipeline_layout,
                set: blit.descriptor_set,
            },
        ]
    );
    assert_eq!(renderer.frame_counter, 1);
}

#[test]
fn groups_of_no_threads_count_as_one() {
    let mut gpu = FakeGpu::new();
    let mut renderer = gpu.headless_renderer(extent(64, 48));
    let mut zero = request(None);
    zero.thread_group_size = ThreadGroups { x: 0, y: 0, z: 0 };
    gpu.set_compute_shader(&mut renderer, zero);
    gpu.render_frame(&mut renderer).expect("a frame");
    assert_eq!(dispatched(&gpu.recorded), Some((64, 48, 1)));
    let mut deep = request(None);
    deep.thread_group_size = ThreadGroups { x: 100, y: u32::MAX, z: 5 };
    gpu.set_compute_shader(&mut renderer, deep);
    gpu.render_frame(&mut renderer).expect("a frame");
    assert_eq!(dispatched(&gpu.recorded), Some((1, 1, 5)));
    for (length, size) in [(1u32, 1u32), (63, 8), (64, 8), (65, 8), (4096, 7)] {
        let mut renderer = gpu.headless_renderer(extent(length, length));
        let mut some = request(None);
        some.thread_group_size = ThreadGroups { x: size, y: size, z: 1 };
        gpu.set_compute_shader(&mut renderer, some);
        gpu.render_frame(&mut renderer).expect("a frame");
        let expected = length.div_ceil(size);
        assert_eq!(dispatched(&gpu.recorded), Some((expected, expected, 1)));
    }
}

#[test]
fn uniforms_are_written_where_the_shader_declared_them() {
    let mut gpu = FakeGpu::new();
    let mut renderer = gpu.headless_renderer(extent(8, 8));
    let layout = UniformBufferLayout {
        size: 32,
        time_offset: Some(0),
        frame_id_offset: Some(4),
        mouse_position_offset: Some(16),
    };
    gpu.set_compute_shader(&mut renderer, request(Some(layout)));
    renderer.touch_down(10.0f32.to_bits(), 20.0f32.to_bits());
    renderer.touch_move(30.0f32.to_bits(), 40.0f32.to_bits());
    gpu.render_frame(&mut renderer).expect("a frame");
    gpu.render_frame(&mut renderer).expect("a frame");
    let bits = |x: f32| UniformValue::Bits(x.to_bits());
    assert_eq!(
        gpu.written,
        vec![
            UniformWrite { offset: 0, value: UniformValue::ElapsedSeconds },
            UniformWrite { offset: 4, value: UniformValue::FrameNumber(1) },
            UniformWrite { offset: 16, value: bits(30.0) },
            UniformWrite { offset: 20, value: bits(40.0) },
            UniformWrite { offset: 24, value: bits(-10.0) },
            UniformWrite { offset: 28, value: bits(-20.0) },
        ]
    );
    renderer.touch_up();
    gpu.render_frame(&mut renderer).expect("a frame");
    assert_eq!(gpu.written[4].value, bits(10.0));

    let partial = UniformBufferLayout {
        size: 4,
        time_offset: None,
        frame_id_offset: Some(0),
        mouse_position_offset: None,
    };
    gpu.set_compute_shader(&mut renderer, request(Some(partial)));
    gpu.render_frame(&mut renderer).expect("a frame");
    assert_eq!(
        gpu.written,
        vec![UniformWrite { offset: 0, value: UniformValue::FrameNumber(3) }]
    );
}

#[test]
fn frame_numbers_start_over_at_the_end() {
    let mut gpu = FakeGpu::new();
    let mut renderer = gpu.headless_renderer(extent(8, 8));
    gpu.set_compute_shader(&mut renderer, request(None));
    renderer.frame_counter = u32::MAX;
    gpu.render_frame(&mut renderer).expect("a frame");
    assert_eq!(renderer.frame_counter, 0);
}

#[test]
fn the_time_of_a_frame_is_known_one_frame_late() {
    let mut gpu = FakeGpu::new();
    let mut renderer = gpu.headless_renderer(extent(8, 8));
    gpu.render_frame(&mut renderer).expect("a frame");
    assert_eq!(renderer.last_gpu_frame_ticks(), None);
    gpu.render_frame(&mut renderer).expect("a frame");
    assert_eq!(renderer.last_gpu_frame_ticks(), Some(50));
    gpu.ticks = u64::MAX - 9;
    let (mut task, _) = renderer.render_frame();
    task.advance(&mut renderer, FrameEvent::Done);
    task.advance(&mut renderer, FrameEvent::Ticks { start: u64::MAX - 9, end: 20 });
    assert_eq!(renderer.last_gpu_frame_ticks(), Some(30));
}

#[test]
fn a_surface_that_changed_means_a_skipped_frame() {
    let mut gpu = FakeGpu::new();
    let mut renderer = gpu.headless_renderer(extent(8, 8));
    gpu.acquire = Some(OUT_OF_DATE);
    assert!(matches!(gpu.render_frame(&mut renderer), Ok(false)));
    assert!(!renderer.has_submitted_frame);
    gpu.acquire = None;
    gpu.present = Some(OUT_OF_DATE);
    assert!(matches!(gpu.render_frame(&mut renderer), Ok(false)));
    assert!(renderer.has_submitted_frame);
    gpu.present = Some(-4);
    assert!(matches!(gpu.render_frame(&mut renderer), Err(Error::Vulkan(-4))));
    gpu.acquire = Some(-1);
    assert!(matches!(gpu.render_frame(&mut renderer), Err(Error::Vulkan(-1))));

    let (mut task, _) = renderer.render_frame();
    match task.advance(&mut renderer, FrameEvent::Failed(OUT_OF_DATE)) {
        FrameAction::Finish(Err(Error::Vulkan(code))) => assert_eq!(code, OUT_OF_DATE),
        other => panic!("got {other:?}"),
    }
}

#[test]
fn a_new_shader_starts_with_no_touches() {
    let mut gpu = FakeGpu::new();
    let mut renderer = gpu.headless_renderer(extent(8, 8));
    renderer.touch_down(1, 2);
    gpu.set_compute_shader(&mut renderer, request(None));
    assert!(!renderer.touch.ever_clicked);
    renderer.touch_down(1, 2);
    gpu.set_compute_shader(&mut renderer, request(None));
    assert!(!renderer.touch.ever_clicked);

    let mut renderer = gpu.headless_renderer(extent(8, 8));
    renderer.touch_down(1, 2);
    let (mut setup, action) = renderer.set_compute_shader(request(None));
    assert!(matches!(action, SetupAction::CreateBlit(_)));
    assert!(matches!(
        setup.advance(&mut renderer, SetupEvent::Failed(Error::Vulkan(-2))),
        SetupAction::Finish(Err(Error::Vulkan(-2)), _)
    ));
    assert!(!renderer.touch.ever_clicked);
    assert!(renderer.compute.is_none());
}

#[test]
fn the_blit_pass_is_built_once_even_if_the_first_shader_fails() {
    let mut gpu = FakeGpu::new();
    let mut renderer = gpu.headless_renderer(extent(8, 8));
    let (mut setup, action) = renderer.set_compute_shader(request(None));
    let built = match action {
        SetupAction::CreateBlit(plan) => gpu.blit(plan),
        other => panic!("got {other:?}"),
    };
    let action = setup.advance(&mut renderer, SetupEvent::Blit(built));
    assert!(matches!(action, SetupAction::CreateProgram { .. }));
    match setup.advance(&mut renderer, SetupEvent::Failed(Error::Vulkan(-7))) {
        SetupAction::Finish(Err(Error::Vulkan(-7)), destroy) => assert!(destroy.is_empty()),
        other => panic!("got {other:?}"),
    }
    assert!(renderer.compute.is_none());
    assert_eq!(renderer.blit, Some(built));
    assert!(gpu.render_frame(&mut renderer).expect("a frame"));
    assert_eq!(dispatched(&gpu.recorded), None);

    let (_, action) = renderer.set_compute_shader(request(None));
    assert!(matches!(action, SetupAction::CreateProgram { .. }));
    assert_eq!(
        renderer.drop_order()[..8],
        [
            Destroy::DescriptorPool(built.descriptor_pool),
            Destroy::DescriptorSetLayout(built.descriptor_set_layout),
            Destroy::Pipeline(built.pipeline),
            Destroy::PipelineLayout(built.pipeline_layout),
            Destroy::Sampler(built.sampler),
            Destroy::ImageView(built.output_image_view),
            Destroy::Image(built.output_image),
            Destroy::Memory(built.output_image_memory),
        ]
    );
    let destroyed = gpu.recreate(&mut renderer, extent(16, 16));
    assert_eq!(destroyed[0], Destroy::DescriptorPool(built.descriptor_pool));
    assert!(renderer.blit.is_some() && renderer.blit != Some(built));
    gpu.set_compute_shader(&mut renderer, request(None));
    assert!(renderer.compute.is_some());
}

#[test]
fn a_compute_shader_stays_in_use_once_it_is() {
    let mut gpu = FakeGpu::new();
    let mut renderer = gpu.headless_renderer(extent(8, 8));
    gpu.set_compute_shader(&mut renderer, request(None));
    gpu.render_frame(&mut renderer).expect("a frame");
    let recorded = gpu.recorded.clone();
    let built = GraphicsProgram { pipeline: 1, pipeline_layout: 2 };
    let plan = renderer.plan_shaders(shaders(2));
    renderer.set_shaders(plan, Ok(built)).expect("replaced");
    gpu.render_frame(&mut renderer).expect("a frame");
    assert_eq!(gpu.recorded, recorded);
    gpu.recreate(&mut renderer, extent(16, 16));
    assert!(renderer.compute.is_some());
}

#[test]
fn a_second_shader_takes_over_the_blit_pass() {
    let mut gpu = FakeGpu::new();
    let mut renderer = gpu.headless_renderer(extent(8, 8));
    let layout = UniformBufferLayout {
        size: 16,
        time_offset: None,
        frame_id_offset: None,
        mouse_position_offset: Some(0),
    };
    assert!(gpu.set_compute_shader(&mut renderer, request(Some(layout))).is_empty());
    let first = renderer.compute.expect("a compute shader");
    let blit = renderer.blit.expect("a pass");
    let uniforms = first.uniforms.expect("uniforms");
    let destroyed = gpu.set_compute_shader(&mut renderer, request(None));
    let second = renderer.compute.expect("a compute shader");
    assert_eq!(renderer.blit, Some(blit));
    assert!(second.uniforms.is_none());
    assert_eq!(
        destroyed,
        vec![
            Destroy::DescriptorPool(first.descriptor_pool),
            Destroy::DescriptorSetLayout(first.descriptor_set_layout),
            Destroy::Pipeline(first.pipeline),
            Destroy::PipelineLayout(first.pipeline_layout),
            Destroy::UnmapMemory(uniforms.memory),
            Destroy::Buffer(uniforms.buffer),
            Destroy::Memory(uniforms.memory),
        ]
    );
}

#[test]
fn a_shader_that_fails_leaves_the_one_in_use() {
    let mut gpu = FakeGpu::new();
    let mut renderer = gpu.headless_renderer(extent(8, 8));
    gpu.set_compute_shader(&mut renderer, request(None));
    let before = renderer.compute.expect("a compute shader");

    let layout = UniformBufferLayout {
        size: 16,
        time_offset: Some(0),
        frame_id_offset: None,
        mouse_position_offset: None,
    };
    let (mut setup, action) = renderer.set_compute_shader(request(Some(layout)));
    assert!(matches!(action, SetupAction::CreateUniforms(16)));
    let made = MappedBuffer { buffer: 1, memory: 2, mapped: 3 };
    let action = setup.advance(&mut renderer, SetupEvent::Uniforms(made));
    match action {
        SetupAction::CreateProgram { spirv, entry_point, bindings } => {
            assert_eq!(spirv, vec![1, 2, 3, 4]);
            assert_eq!(entry_point, "main");
            assert_eq!(bindings.len(), 2);
            assert_eq!(bindings[0].binding, 2);
            assert_eq!(bindings[0].descriptor, DESCRIPTOR_STORAGE_IMAGE);
            assert_eq!(bindings[1].binding, UNIFORM_BUFFER_BINDING);
            assert_eq!(bindings[1].descriptor, DESCRIPTOR_UNIFORM_BUFFER);
        }
        other => panic!("got {other:?}"),
    }
    match setup.advance(&mut renderer, SetupEvent::Failed(Error::Vulkan(-3))) {
        SetupAction::Finish(Err(Error::Vulkan(-3)), destroy) => assert_eq!(
            destroy,
            vec![Destroy::UnmapMemory(2), Destroy::Buffer(1), Destroy::Memory(2)]
        ),
        other => panic!("got {other:?}"),
    }
    assert_eq!(renderer.compute, Some(before));
    assert!(gpu.render_frame(&mut renderer).expect("a frame"));
}

#[test]
fn new_graphics_shaders_replace_the_old_or_leave_them() {
    let mut gpu = FakeGpu::new();
    let mut renderer = gpu.headless_renderer(extent(8, 8));
    let (pipeline, layout) = (renderer.parts.pipeline, renderer.parts.pipeline_layout);
    let plan = renderer.plan_shaders(shaders(2));
    assert_eq!((plan.render_pass, plan.extent), (renderer.parts.render_pass, extent(8, 8)));
    assert_eq!(plan.shaders, shaders(2));
    assert!(matches!(
        renderer.set_shaders(plan, Err(Error::Vulkan(-5))),
        Err(Error::Vulkan(-5))
    ));
    let plan = renderer.plan_shaders(shaders(2));
    assert!(matches!(
        renderer.set_shaders(plan, Err(Error::NoSuitableDevice)),
        Err(Error::NoSuitableDevice)
    ));
    assert_eq!(renderer.parts.pipeline, pipeline);
    assert_eq!(renderer.parts.shaders, shaders(1));
    let built = GraphicsProgram { pipeline: 1, pipeline_layout: 2 };
    let plan = renderer.plan_shaders(shaders(2));
    assert_eq!(
        renderer.set_shaders(plan, Ok(built)).expect("replaced"),
        vec![Destroy::Pipeline(pipeline), Destroy::PipelineLayout(layout)]
    );
    assert_eq!(renderer.parts.pipeline, 1);
    assert_eq!(renderer.parts.pipeline_layout, 2);
    assert_eq!(renderer.parts.shaders, shaders(2));
}

#[test]
fn a_change_of_size_keeps_the_shaders_last_set() {
    let mut gpu = FakeGpu::new();
    let mut renderer = gpu.headless_renderer(extent(8, 8));
    assert_eq!(gpu.drawn_with, Some(shaders(1)));
    let built = gpu.program();
    let plan = renderer.plan_shaders(shaders(2));
    renderer.set_shaders(plan, Ok(built)).expect("replaced");
    gpu.drawn_with = None;
    gpu.recreate(&mut renderer, extent(16, 16));
    assert_eq!(gpu.drawn_with, Some(shaders(2)));
    assert_eq!(renderer.parts.shaders, shaders(2));

    let plan = renderer.plan_shaders(shaders(3));
    assert!(renderer.set_shaders(plan, Err(Error::Vulkan(-1))).is_err());
    gpu.recreate(&mut renderer, extent(8, 8));
    assert_eq!(gpu.drawn_with, Some(shaders(2)));
}

#[test]
fn a_change_of_size_that_fails_changes_nothing() {
    let mut gpu = FakeGpu::new();
    let mut renderer = gpu.headless_renderer(extent(8, 8));
    gpu.set_compute_shader(&mut renderer, request(None));
    let (swapchain, blit) = (renderer.parts.swapchain, renderer.blit);
    let plan = gpu.plan(extent(16, 16));

    let (resize, action) = renderer.recreate(plan);
    match action {
        ResizeAction::Build(PartsAction::CreateSwapchain { surface, plan, old_swapchain }) => {
            assert_eq!((surface, old_swapchain), (7, swapchain));
            assert_eq!(plan.extent, extent(16, 16));
        }
        other => panic!("got {other:?}"),
    }
    let failed = ResizeEvent::Part(PartsEvent::Failed(Error::Vulkan(-1)));
    match resize.advance(&mut renderer, failed) {
        (_, ResizeAction::Fail(Error::Vulkan(-1), destroy)) => assert!(destroy.is_empty()),
        other => panic!("got {other:?}"),
    }

    let (mut resize, mut action) = renderer.recreate(plan);
    let (asked, resize) = loop {
        let event = match action {
            ResizeAction::Build(action) => ResizeEvent::Part(gpu.part(action)),
            ResizeAction::CreateBlit(asked) => break (asked, resize),
            other => panic!("got {other:?}"),
        };
        (resize, action) = resize.advance(&mut renderer, event);
    };
    assert_eq!(asked.extent, extent(16, 16));
    assert_eq!(asked.command_buffer, renderer.frame.command_buffer);
    assert!(asked.render_pass != renderer.parts.render_pass);
    match resize.advance(&mut renderer, ResizeEvent::BlitFailed(Error::Vulkan(-2))) {
        (_, ResizeAction::Fail(Error::Vulkan(-2), destroy)) => {
            assert_eq!(destroy.len(), 2 + 3 + 1 + 3 + 1);
            assert!(destroy.contains(&Destroy::RenderPass(asked.render_pass)));
            assert!(!destroy.contains(&Destroy::Swapchain(swapchain)));
        }
        other => panic!("got {other:?}"),
    }
    assert_eq!(renderer.extent(), extent(8, 8));
    assert_eq!(renderer.parts.swapchain, swapchain);
    assert_eq!(renderer.blit, blit);
    assert!(renderer.compute.is_some());
    assert!(gpu.render_frame(&mut renderer).expect("a frame"));
}

#[test]
fn a_frame_waits_for_its_image_and_for_the_frame_before() {
    let mut gpu = FakeGpu::new();
    let mut renderer = gpu.headless_renderer(extent(8, 8));
    let frame = renderer.frame;
    let submission = Submission {
        command_buffer: frame.command_buffer,
        wait: frame.image_available,
        wait_stage: STAGE_COLOR_ATTACHMENT_OUTPUT,
        signal: frame.render_finished,
        fence: frame.in_flight,
    };
    assert_eq!(renderer.submission(), submission);
    gpu.render_frame(&mut renderer).expect("a frame");
    assert_eq!(gpu.submitted, vec![submission]);

    let (mut task, action) = renderer.render_frame();
    match action {
        FrameAction::WaitFence { fence } => assert_eq!(fence, frame.in_flight),
        other => panic!("got {other:?}"),
    }
    task.advance(&mut renderer, FrameEvent::Done);
    match task.advance(&mut renderer, FrameEvent::Ticks { start: 0, end: 1 }) {
        FrameAction::AcquireImage { swapchain, signal } => {
            assert_eq!((swapchain, signal), (renderer.parts.swapchain, frame.image_available));
        }
        other => panic!("got {other:?}"),
    }
    match task.advance(&mut renderer, FrameEvent::Acquired(2)) {
        FrameAction::BeginRecording { fence, command_buffer } => {
            assert_eq!((fence, command_buffer), (frame.in_flight, frame.command_buffer));
        }
        other => panic!("got {other:?}"),
    }
    match task.advance(&mut renderer, FrameEvent::Done) {
        FrameAction::Record { command_buffer, .. } => {
            assert_eq!(command_buffer, frame.command_buffer);
        }
        other => panic!("got {other:?}"),
    }
    match task.advance(&mut renderer, FrameEvent::Done) {
        FrameAction::Submit(submitted) => assert_eq!(submitted, submission),
        other => panic!("got {other:?}"),
    }
    match task.advance(&mut renderer, FrameEvent::Done) {
        FrameAction::Present { swapchain, wait, image } => {
            assert_eq!((swapchain, wait), (renderer.parts.swapchain, frame.render_finished));
            assert_eq!(image, 2);
        }
        other => panic!("got {other:?}"),
    }
}

#[test]
fn the_shader_that_was_asked_for_is_built() {
    let mut gpu = FakeGpu::new();
    let mut renderer = gpu.headless_renderer(extent(8, 8));
    let mut other = request(None);
    other.spirv = vec![9, 8, 7];
    other.entry_point = "imageMain".to_string();
    gpu.set_compute_shader(&mut renderer, other);
    assert_eq!(gpu.computed_with, Some((vec![9, 8, 7], "imageMain".to_string())));
    gpu.set_compute_shader(&mut renderer, request(None));
    assert_eq!(gpu.computed_with, Some((vec![1, 2, 3, 4], "main".to_string())));

    let (mut setup, action) = renderer.set_compute_shader(request(None));
    let one = Binding { binding: 2, descriptor: DESCRIPTOR_STORAGE_IMAGE };
    match action {
        SetupAction::CreateProgram { bindings, .. } => assert_eq!(bindings, vec![one]),
        other => panic!("got {other:?}"),
    }
    let reason = Error::Loading("gone".to_string());
    match setup.advance(&mut renderer, SetupEvent::Failed(reason)) {
        SetupAction::Finish(Err(Error::Loading(reason)), _) => assert_eq!(reason, "gone"),
        other => panic!("got {other:?}"),
    }
}

#[test]
fn everything_is_given_back_once_and_in_order() {
    let mut gpu = FakeGpu::new();
    let mut renderer = gpu.headless_renderer(extent(8, 8));
    gpu.set_compute_shader(&mut renderer, request(None));
    let order = renderer.drop_order();
    for (i, one) in order.iter().enumerate() {
        assert!(!order[i + 1..].contains(one), "{one:?} is given back twice");
    }
    let stage = renderer.compute.expect("a compute shader");
    let blit = renderer.blit.expect("a pass");
    assert_eq!(order[0], Destroy::DescriptorPool(stage.descriptor_pool));
    assert_eq!(order[4], Destroy::DescriptorPool(blit.descriptor_pool));
    assert_eq!(order[11], Destroy::Memory(blit.output_image_memory));
    assert_eq!(order[12], Destroy::QueryPool(renderer.frame.timestamp_query_pool));
    assert_eq!(order.len(), 12 + 5 + 2 + 3 + 1 + 3 + 1 + 1);
    assert_eq!(order[order.len() - 2], Destroy::Swapchain(renderer.parts.swapchain));
    assert_eq!(order[order.len() - 1], Destroy::Surface(7));
}

#[test]
fn every_image_gets_a_view_and_a_framebuffer() {
    let plan = FakeGpu::new().plan(extent(20, 10));
    let (setup, action) = PartsSetup::begin(plan, 9, 3, shaders(4));
    match action {
        PartsAction::CreateSwapchain { surface, plan, old_swapchain } => {
            assert_eq!((surface, old_swapchain), (9, 3));
            assert_eq!(plan.extent, extent(20, 10));
        }
        other => panic!("got {other:?}"),
    }
    let mut asked = Vec::new();
    let mut progress = setup.advance(PartsEvent::Made(1));
    let parts = loop {
        match progress {
            PartsProgress::Finished(parts) => break parts.expect("parts"),
            PartsProgress::Next(setup, action) => {
                asked.push(format!("{action:?}"));
                let event = match action {
                    PartsAction::GetImages { swapchain } => {
                        assert_eq!(swapchain, 1);
                        PartsEvent::Images(vec![10, 11])
                    }
                    PartsAction::CreateImageView { image, format } => {
                        assert_eq!(format, FORMAT_R8G8B8A8_UNORM);
                        PartsEvent::Made(image + 10)
                    }
                    PartsAction::CreateRenderPass { .. } => PartsEvent::Made(5),
                    PartsAction::CreateFramebuffer { render_pass, view, extent } => {
                        assert_eq!(render_pass, 5);
                        assert_eq!((extent.width, extent.height), (20, 10));
                        PartsEvent::Made(view + 10)
                    }
                    PartsAction::CreatePipeline(plan) => {
                        assert_eq!((plan.render_pass, plan.extent), (5, extent(20, 10)));
                        assert_eq!(plan.shaders, shaders(4));
                        PartsEvent::Pipeline(GraphicsProgram { pipeline: 6, pipeline_layout: 7 })
                    }
                    PartsAction::CreateSwapchain { .. } => panic!("only one swapchain"),
                };
                progress = setup.advance(event);
            }
        }
    };
    assert_eq!(asked.len(), 7);
    assert_eq!(parts.swapchain, 1);
    assert_eq!(parts.image_views, vec![20, 21]);
    assert_eq!(parts.framebuffers, vec![30, 31]);
    assert_eq!((parts.pipeline, parts.pipeline_layout), (6, 7));
    assert_eq!(parts.shaders, shaders(4));

    let (setup, _) = PartsSetup::begin(plan, 9, 0, shaders(4));
    assert!(matches!(
        setup.advance(PartsEvent::Failed(Error::Vulkan(-9))),
        PartsProgress::Finished(Err(Error::Vulkan(-9)))
    ));
}

#[test]
fn what_frames_need_is_made_in_order() {
    let (mut setup, mut action) = FramePartsSetup::begin();
    let mut asked = vec![action];
    let mut handle: u64 = 1;
    let parts = loop {
        match setup.advance(Ok(handle)) {
            FramePartsProgress::Finished(parts) => break parts.expect("parts"),
            FramePartsProgress::Next(next, what) => {
                setup = next;
                action = what;
                asked.push(action);
                handle += 1;
            }
        }
    };
    assert_eq!(
        asked,
        vec![
            FramePartsAction::CreateCommandPool,
            FramePartsAction::AllocateCommandBuffer { pool: 1 },
            FramePartsAction::CreateSemaphore,
            FramePartsAction::CreateSemaphore,
            FramePartsAction::CreateFence { signaled: true },
            FramePartsAction::CreateQueryPool { count: TIMESTAMPS_PER_FRAME },
        ]
    );
    assert_eq!(
        parts,
        FrameParts {
            command_pool: 1,
            command_buffer: 2,
            image_available: 3,
            render_finished: 4,
            in_flight: 5,
            timestamp_query_pool: 6,
        }
    );
    let (setup, _) = FramePartsSetup::begin();
    assert!(matches!(
        setup.advance(Err(Error::Vulkan(-2))),
        FramePartsProgress::Finished(Err(Error::Vulkan(-2)))
    ));
}

#[test]
fn the_blit_pass_leaves_the_first_layout_before_anything_uses_it() {
    let plan = plan_blit(extent(3, 4), 50, 60);
    assert_eq!((plan.render_pass, plan.command_buffer), (50, 60));
    assert_eq!(plan.sampler_binding, BLIT_SAMPLER_BINDING);
    assert_eq!(plan.sampler_descriptor, DESCRIPTOR_COMBINED_IMAGE_SAMPLER);
    assert_eq!((plan.descriptor_count, plan.max_sets), (1, 1));
    let (setup, action) = BlitSetup::create_blit_resources(plan);
    assert_eq!(
        action,
        BlitAction::CreateImage {
            extent: extent(3, 4),
            format: FORMAT_R8G8B8A8_UNORM,
            usage: USAGE_STORAGE | USAGE_SAMPLED,
        }
    );
    let image = BlitEvent::Image { image: 1, view: 2, memory: 3 };
    let (setup, action) = match setup.advance(image) {
        BlitProgress::Next(setup, action) => (setup, action),
        other => panic!("got {other:?}"),
    };
    assert_eq!(
        action,
        BlitAction::CreateSampler {
            filter: FILTER_LINEAR,
            mipmap_mode: FILTER_LINEAR,
            address_mode: ADDRESS_CLAMP_TO_EDGE,
        }
    );
    let (setup, action) = match setup.advance(BlitEvent::Made(4)) {
        BlitProgress::Next(setup, action) => (setup, action),
        other => panic!("got {other:?}"),
    };
    assert_eq!(
        action,
        BlitAction::Transition {
            command_buffer: 60,
            barrier: ImageBarrier {
                image: 1,
                old_layout: LAYOUT_UNDEFINED,
                new_layout: LAYOUT_GENERAL,
                src_stage: STAGE_TOP_OF_PIPE,
                dst_stage: STAGE_COMPUTE_SHADER | STAGE_FRAGMENT_SHADER,
                src_access: 0,
                dst_access: ACCESS_SHADER_WRITE | ACCESS_SHADER_READ,
            },
        }
    );
    assert!(matches!(
        setup.advance(BlitEvent::Failed(Error::Vulkan(-1))),
        BlitProgress::Finished(Err(Error::Vulkan(-1)))
    ));
    let blit = FakeGpu::new().blit(plan);
    assert_eq!((blit.output_image, blit.output_image_view), (101, 102));
    assert_eq!((blit.sampler, blit.descriptor_set), (104, 107));
    assert_eq!((blit.pipeline, blit.pipeline_layout), (108, 109));
}

#[test]
fn swapchains_are_planned_within_the_limits_of_the_surface() {
    let mut capabilities = sizeless();
    let bgra = SurfaceFormat { format: 44, color_space: 3 };
    let plan = plan_swapchain(&capabilities, &vec![bgra, rgba()], extent(9000, 0)).expect("a plan");
    assert_eq!(plan.format, rgba());
    assert_eq!(plan.extent, extent(4096, 1));
    assert_eq!(plan.min_image_count, 3);
    let plan = plan_swapchain(&capabilities, &vec![bgra], extent(10, 20)).expect("a plan");
    assert_eq!(plan.format, bgra);
    assert_eq!(plan.extent, extent(10, 20));
    capabilities.current_extent = extent(5, 6);
    capabilities.max_image_count = 2;
    let plan = plan_swapchain(&capabilities, &vec![rgba()], extent(10, 20)).expect("a plan");
    assert_eq!(plan.extent, extent(5, 6));
    assert_eq!(plan.min_image_count, 2);
    assert_eq!(plan.present_mode, PRESENT_MODE_FIFO);
    assert!(plan.clipped);
    assert!(matches!(
        plan_swapchain(&capabilities, &Vec::new(), extent(1, 1)),
        Err(Error::NoSuitableDevice)
    ));
}

#[test]
fn the_first_device_that_does_both_is_chosen() {
    let both = QUEUE_GRAPHICS | QUEUE_COMPUTE;
    let devices = vec![
        vec![QUEUE_GRAPHICS, QUEUE_COMPUTE],
        vec![],
        vec![4, both | 4, both],
        vec![both],
    ];
    let choice = choose_queue(&devices).expect("a device");
    assert_eq!((choice.device, choice.family), (2, 1));
    assert!(matches!(
        choose_queue(&vec![vec![QUEUE_GRAPHICS]]),
        Err(Error::NoSuitableDevice)
    ));
}

#[test]
fn the_first_memory_that_fits_is_chosen() {
    let wanted = vk::MemoryPropertyFlags::HOST_VISIBLE | vk::MemoryPropertyFlags::HOST_COHERENT;
    let kinds = vec![1, 2, 6, 7, 14];
    assert_eq!(choose_memory_kind(&kinds, u32::MAX, wanted.as_raw()), Some(2));
    assert_eq!(choose_memory_kind(&kinds, 0b11000, wanted.as_raw()), Some(3));
    assert_eq!(choose_memory_kind(&kinds, 0b00011, wanted.as_raw()), None);
    assert_eq!(choose_memory_kind(&kinds, 0b10000, 0), Some(4));
    assert_eq!(choose_memory_kind(&vec![7; 32], 0x8000_0000, 1), Some(31));
    assert_eq!(choose_memory_kind(&Vec::new(), u32::MAX, 0), None);
}

#[test]
fn devices_are_described_by_name_and_kind() {
    let mut field = [0u8; 16];
    field[..8].copy_from_slice(b"llvmpipe");
    field[9] = b'x';
    let info = PhysicalDeviceInfo::describe(&field, vk::PhysicalDeviceType::CPU.as_raw());
    assert_eq!(info.name, "llvmpipe");
    assert_eq!(info.kind, DeviceKind::Cpu);
    let info = PhysicalDeviceInfo::describe(&[0xff, b'a'], 99);
    assert_eq!(info.name, "\u{fffd}a");
    assert_eq!(info.kind, DeviceKind::Other);
    for (device_type, kind) in [
        (vk::PhysicalDeviceType::INTEGRATED_GPU, DeviceKind::IntegratedGpu),
        (vk::PhysicalDeviceType::DISCRETE_GPU, DeviceKind::DiscreteGpu),
        (vk::PhysicalDeviceType::VIRTUAL_GPU, DeviceKind::VirtualGpu),
        (vk::PhysicalDeviceType::CPU, DeviceKind::Cpu),
        (vk::PhysicalDeviceType::OTHER, DeviceKind::Other),
    ] {
        assert_eq!(DeviceKind::from_device_type(device_type.as_raw()), kind);
    }
}

#[test]
fn errors_have_sentences() {
    assert_eq!(
        Error::Loading("no libvulkan".to_string()).message(),
        "failed to load the Vulkan library: no libvulkan"
    );
    let lost = vk::Result::ERROR_DEVICE_LOST;
    assert_eq!(
        Error::Vulkan(lost.as_raw()).message(),
        format!("Vulkan call failed: {lost}")
    );
    assert_eq!(
        Error::Vulkan(12345).message(),
        format!("Vulkan call failed: {}", vk::Result::from_raw(12345))
    );
    assert_eq!(
        Error::NoSuitableDevice.message(),
        "no physical device with a graphics+compute queue family was found"
    );
}

#[test]
fn numbers_are_those_of_vulkan() {
    assert_eq!(OUT_OF_DATE, vk::Result::ERROR_OUT_OF_DATE_KHR.as_raw());
    assert_eq!(BIND_GRAPHICS, vk::PipelineBindPoint::GRAPHICS.as_raw());
    assert_eq!(BIND_COMPUTE, vk::PipelineBindPoint::COMPUTE.as_raw());
    assert_eq!(STAGE_TOP_OF_PIPE, vk::PipelineStageFlags::TOP_OF_PIPE.as_raw());
    assert_eq!(STAGE_FRAGMENT_SHADER, vk::PipelineStageFlags::FRAGMENT_SHADER.as_raw());
    assert_eq!(STAGE_COMPUTE_SHADER, vk::PipelineStageFlags::COMPUTE_SHADER.as_raw());
    assert_eq!(
        STAGE_COLOR_ATTACHMENT_OUTPUT,
        vk::PipelineStageFlags::COLOR_ATTACHMENT_OUTPUT.as_raw()
    );
    assert_eq!(STAGE_BOTTOM_OF_PIPE, vk::PipelineStageFlags::BOTTOM_OF_PIPE.as_raw());
    assert_eq!(ACCESS_SHADER_READ, vk::AccessFlags::SHADER_READ.as_raw());
    assert_eq!(ACCESS_SHADER_WRITE, vk::AccessFlags::SHADER_WRITE.as_raw());
    assert_eq!(LAYOUT_UNDEFINED, vk::ImageLayout::UNDEFINED.as_raw());
    assert_eq!(LAYOUT_GENERAL, vk::ImageLayout::GENERAL.as_raw());
    assert_eq!(QUEUE_GRAPHICS, vk::QueueFlags::GRAPHICS.as_raw());
    assert_eq!(QUEUE_COMPUTE, vk::QueueFlags::COMPUTE.as_raw());
    assert_eq!(TYPE_INTEGRATED_GPU, vk::PhysicalDeviceType::INTEGRATED_GPU.as_raw());
    assert_eq!(TYPE_DISCRETE_GPU, vk::PhysicalDeviceType::DISCRETE_GPU.as_raw());
    assert_eq!(TYPE_VIRTUAL_GPU, vk::PhysicalDeviceType::VIRTUAL_GPU.as_raw());
    assert_eq!(TYPE_CPU, vk::PhysicalDeviceType::CPU.as_raw());
    assert_eq!(FORMAT_R8G8B8A8_UNORM, vk::Format::R8G8B8A8_UNORM.as_raw());
    assert_eq!(PRESENT_MODE_FIFO, vk::PresentModeKHR::FIFO.as_raw());
    assert_eq!(SHARING_EXCLUSIVE, vk::SharingMode::EXCLUSIVE.as_raw());
    assert_eq!(COMPOSITE_ALPHA_OPAQUE, vk::CompositeAlphaFlagsKHR::OPAQUE.as_raw());
    assert_eq!(USAGE_COLOR_ATTACHMENT, vk::ImageUsageFlags::COLOR_ATTACHMENT.as_raw());
    assert_eq!(USAGE_SAMPLED, vk::ImageUsageFlags::SAMPLED.as_raw());
    assert_eq!(USAGE_STORAGE, vk::ImageUsageFlags::STORAGE.as_raw());
    assert_eq!(USAGE_STORAGE_BUFFER, vk::BufferUsageFlags::STORAGE_BUFFER.as_raw());
    assert_eq!(DESCRIPTOR_STORAGE_BUFFER, vk::DescriptorType::STORAGE_BUFFER.as_raw());
    assert_eq!(DESCRIPTOR_STORAGE_IMAGE, vk::DescriptorType::STORAGE_IMAGE.as_raw());
    assert_eq!(DESCRIPTOR_UNIFORM_BUFFER, vk::DescriptorType::UNIFORM_BUFFER.as_raw());
    assert_eq!(
        DESCRIPTOR_COMBINED_IMAGE_SAMPLER,
        vk::DescriptorType::COMBINED_IMAGE_SAMPLER.as_raw()
    );
    assert_eq!(FILTER_LINEAR, vk::Filter::LINEAR.as_raw());
    assert_eq!(FILTER_LINEAR, vk::SamplerMipmapMode::LINEAR.as_raw());
    assert_eq!(ADDRESS_CLAMP_TO_EDGE, vk::SamplerAddressMode::CLAMP_TO_EDGE.as_raw());
}

#[test]
fn a_sample_runs_from_nothing_to_the_contents_of_its_buffer() {
    let groups = ThreadGroups { x: 4, y: 2, z: 1 };
    let (mut sample, mut action) = ComputeSample::run_compute_sample(vec![5, 6], groups, 3);
    let mut asked: Vec<String> = Vec::new();
    let result = loop {
        asked.push(format!("{action:?}"));
        let event = match action {
            SampleAction::CreateShader(spirv) => {
                assert_eq!(spirv, vec![5, 6]);
                SampleEvent::Made(11)
            }
            SampleAction::CreatePipeline { shader, entry_point, binding } => {
                assert_eq!(shader, 11);
                assert_eq!(entry_point, "main");
                assert_eq!((binding.binding, binding.descriptor), (0, DESCRIPTOR_STORAGE_BUFFER));
                SampleEvent::MadePipeline(ComputeProgram {
                    pipeline: 1,
                    pipeline_layout: 2,
                    descriptor_set_layout: 3,
                })
            }
            SampleAction::CreateBuffer { size, usage } => {
                assert_eq!((size, usage), (3, USAGE_STORAGE_BUFFER));
                SampleEvent::Made(4)
            }
            SampleAction::CreateDescriptorPool { kind, count, max_sets } => {
                assert_eq!((kind, count, max_sets), (DESCRIPTOR_STORAGE_BUFFER, 1, 1));
                SampleEvent::Made(5)
            }
            SampleAction::AllocateSet { pool, layout } => {
                assert_eq!((pool, layout), (5, 3));
                SampleEvent::Made(6)
            }
            SampleAction::BindAndCreateCommandPool { set, binding, kind, buffer, range } => {
                assert_eq!((set, binding, kind), (6, 0, DESCRIPTOR_STORAGE_BUFFER));
                assert_eq!((buffer, range), (4, 3));
                SampleEvent::Made(7)
            }
            SampleAction::AllocateCommandBuffer { pool } => {
                assert_eq!(pool, 7);
                SampleEvent::Made(8)
            }
            SampleAction::BeginRecording { command_buffer } => {
                assert_eq!(command_buffer, 8);
                SampleEvent::Done
            }
            SampleAction::Submit { command_buffer } => {
                assert_eq!(command_buffer, 8);
                SampleEvent::Done
            }
            SampleAction::Record { command_buffer, commands } => {
                assert_eq!(command_buffer, 8);
                assert_eq!(
                    commands,
                    vec![
                        FrameCommand::BindPipeline { point: BIND_COMPUTE, pipeline: 1 },
                        FrameCommand::BindDescriptorSet {
                            point: BIND_COMPUTE,
                            layout: 2,
                            set: 6,
                        },
                        FrameCommand::Dispatch { x: 4, y: 2, z: 1 },
                    ]
                );
                SampleEvent::Done
            }
            SampleAction::DestroyPoolsAndRead { command_pool, descriptor_pool, buffer, size } => {
                assert_eq!((buffer, size), (4, 3));
                assert_eq!((command_pool, descriptor_pool), (7, 5));
                SampleEvent::Contents(vec![9, 8, 7])
            }
            SampleAction::Finish(result) => break result,
            _ => SampleEvent::Done,
        };
        action = sample.advance(event);
    };
    assert_eq!(asked.len(), 15);
    assert_eq!(asked[0], "CreateInstance(\"renderer-capi compute sample\")");
    let (status, data) = sample_status(Some(result));
    assert_eq!(status, RendererCapiStatus::Success);
    assert_eq!(status.code(), 0);
    assert_eq!(data, Some(vec![9, 8, 7]));
}

#[test]
fn a_sample_that_fails_says_only_so() {
    let groups = ThreadGroups { x: 1, y: 1, z: 1 };
    let (mut sample, _) = ComputeSample::run_compute_sample(vec![5, 6], groups, 3);
    let result = match sample.advance(SampleEvent::Failed(Error::NoSuitableDevice)) {
        SampleAction::Finish(result) => result,
        other => panic!("got {other:?}"),
    };
    assert!(matches!(result, Err(Error::NoSuitableDevice)));
    let (status, data) = sample_status(Some(result));
    assert_eq!(status, RendererCapiStatus::ErrorVulkan);
    assert_eq!(status.code(), 2);
    assert!(data.is_none());
    let (status, data) = sample_status(None);
    assert_eq!(status.code(), 1);
    assert_eq!(status, RendererCapiStatus::ErrorInvalidArgument);
    assert!(data.is_none());
}
