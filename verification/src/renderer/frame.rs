//! Rendering and presenting one frame, one fallible call at a time.
//!
//! `SwapchainRenderer::render_frame` begins a `FrameTask`. Each `FrameAction`
//! is carried out and answered with a `FrameEvent`, until the frame ends.

use crate::renderer::resources::{
    BlitResources, ComputeStage, SwapchainParts, ThreadGroups, UniformBuffer, UniformBufferLayout,
};
use crate::renderer::surface::{Error, Extent};
use crate::renderer::swapchain::SwapchainRenderer;
use crate::renderer::touch::TouchState;
use vstd::prelude::*;

verus! {

/// The surface changed and no longer fits the swapchain (`VkResult`).
pub const OUT_OF_DATE: i32 = -1_000_001_004;

/// Drawing (`VkPipelineBindPoint`).
pub const BIND_GRAPHICS: i32 = 0;

/// Computing (`VkPipelineBindPoint`).
pub const BIND_COMPUTE: i32 = 1;

/// Before any work (`VkPipelineStageFlagBits`).
pub const STAGE_TOP_OF_PIPE: u32 = 0x1;

/// Fragment shaders (`VkPipelineStageFlagBits`).
pub const STAGE_FRAGMENT_SHADER: u32 = 0x80;

/// Writing to the image that is drawn on (`VkPipelineStageFlagBits`).
pub const STAGE_COLOR_ATTACHMENT_OUTPUT: u32 = 0x400;

/// Compute shaders (`VkPipelineStageFlagBits`).
pub const STAGE_COMPUTE_SHADER: u32 = 0x800;

/// After all work (`VkPipelineStageFlagBits`).
pub const STAGE_BOTTOM_OF_PIPE: u32 = 0x2000;

/// Shaders read (`VkAccessFlagBits`).
pub const ACCESS_SHADER_READ: u32 = 0x20;

/// Shaders write (`VkAccessFlagBits`).
pub const ACCESS_SHADER_WRITE: u32 = 0x40;

/// An image with nothing in it (`VkImageLayout`).
pub const LAYOUT_UNDEFINED: i32 = 0;

/// An image that any use may follow (`VkImageLayout`).
pub const LAYOUT_GENERAL: i32 = 1;

/// A number to put in a uniform buffer.
#[derive(Clone, Copy, PartialEq, Eq, Structural, Debug)]
pub enum UniformValue {
    /// The seconds since the renderer was made.
    ElapsedSeconds,
    /// This count of frames.
    FrameNumber(u32),
    /// The number with this single-precision bit pattern.
    Bits(u32),
}

/// A single-precision number to write at a byte offset.
#[derive(Clone, Copy, PartialEq, Eq, Structural, Debug)]
pub struct UniformWrite {
    pub offset: u64,
    pub value: UniformValue,
}

/// A wait between two uses of an image.
#[derive(Clone, Copy, PartialEq, Eq, Structural, Debug)]
pub struct ImageBarrier {
    pub image: u64,
    pub old_layout: i32,
    pub new_layout: i32,
    pub src_stage: u32,
    pub dst_stage: u32,
    pub src_access: u32,
    pub dst_access: u32,
}

/// One command of a frame.
#[derive(Clone, Copy, PartialEq, Eq, Structural, Debug)]
pub enum FrameCommand {
    ResetQueries { pool: u64, first: u32, count: u32 },
    WriteTimestamp { stage: u32, pool: u64, query: u32 },
    BindPipeline { point: i32, pipeline: u64 },
    BindDescriptorSet { point: i32, layout: u64, set: u64 },
    Dispatch { x: u32, y: u32, z: u32 },
    Barrier(ImageBarrier),
    BeginRenderPass { render_pass: u64, framebuffer: u64, extent: Extent },
    Draw { vertices: u32, instances: u32 },
    EndRenderPass,
}

/// What a frame has reached. The image in hand is kept from when it was
/// acquired until it is presented.
#[derive(Clone, Copy, PartialEq, Eq, Structural, Debug)]
pub enum FrameStep {
    WaitFence,
    Timestamps,
    Acquire,
    Begin(u32),
    Record(u32),
    Submit(u32),
    Present(u32),
    Finished,
}

/// A frame under way.
#[derive(Clone, Copy, PartialEq, Eq, Structural, Debug)]
pub struct FrameTask {
    pub step: FrameStep,
}

/// Running a command buffer: what it waits for and before which stage, what
/// it signals, and the fence that tells when it has run.
#[derive(Clone, Copy, PartialEq, Eq, Structural, Debug)]
pub struct Submission {
    pub command_buffer: u64,
    pub wait: u64,
    pub wait_stage: u32,
    pub signal: u64,
    pub fence: u64,
}

/// What to do next.
#[derive(Debug)]
pub enum FrameAction {
    /// Wait for the fence: until the previous frame has finished.
    WaitFence { fence: u64 },
    /// Read the previous frame's timestamps.
    ReadTimestamps { pool: u64, first: u32, count: u32 },
    /// Acquire the next image, and signal a semaphore when it can be drawn on.
    AcquireImage { swapchain: u64, signal: u64 },
    /// Reset the fence and the command buffer, and begin recording.
    BeginRecording { fence: u64, command_buffer: u64 },
    /// Write the uniforms, record the commands, and end recording.
    Record { command_buffer: u64, writes: Vec<UniformWrite>, commands: Vec<FrameCommand> },
    /// Submit what was recorded.
    Submit(Submission),
    /// Present this image once a semaphore is signaled.
    Present { swapchain: u64, wait: u64, image: u32 },
    /// The frame is over: presented, skipped, or failed.
    Finish(Result<bool, Error>),
}

/// What came of an action.
#[derive(Clone, Copy, PartialEq, Eq, Structural, Debug)]
pub enum FrameEvent {
    Done,
    Ticks { start: u64, end: u64 },
    Acquired(u32),
    Failed(i32),
}

/// How many groups of `size` threads it takes to cover `length` pixels. A
/// size of zero counts as one.
pub open spec fn groups_to_cover(length: u32, size: u32) -> int {
    let group = if size == 0 {
        1
    } else {
        size as int
    };
    (length + group - 1) / group
}

/// The numbers a uniform buffer gets: elapsed time, frame number, and the
/// four numbers of the touch state, each where the shader declared it.
pub open spec fn uniform_writes(
    uniforms: UniformBuffer,
    frame_number: u32,
    touch: TouchState,
) -> Seq<UniformWrite> {
    let time = match uniforms.time_offset {
        Some(offset) => seq![
            UniformWrite { offset: offset as u64, value: UniformValue::ElapsedSeconds },
        ],
        None => Seq::empty(),
    };
    let frame = match uniforms.frame_id_offset {
        Some(offset) => seq![
            UniformWrite { offset: offset as u64, value: UniformValue::FrameNumber(frame_number) },
        ],
        None => Seq::empty(),
    };
    let mouse = match uniforms.mouse_position_offset {
        Some(offset) => Seq::new(
            4,
            |i: int|
                UniformWrite {
                    offset: (offset + 4 * i) as u64,
                    value: UniformValue::Bits(touch.encoded()[i]),
                },
        ),
        None => Seq::empty(),
    };
    time + frame + mouse
}

/// The wait between a compute shader's writes and the blit pass's reads of
/// the output image, whose layout stays the same.
pub open spec fn compute_barrier(image: u64) -> ImageBarrier {
    ImageBarrier {
        image,
        old_layout: LAYOUT_GENERAL,
        new_layout: LAYOUT_GENERAL,
        src_stage: STAGE_COMPUTE_SHADER,
        dst_stage: STAGE_FRAGMENT_SHADER,
        src_access: ACCESS_SHADER_WRITE,
        dst_access: ACCESS_SHADER_READ,
    }
}

/// The one time an output image changes its layout: before its first use.
pub open spec fn first_use_barrier(image: u64) -> ImageBarrier {
    ImageBarrier {
        image,
        old_layout: LAYOUT_UNDEFINED,
        new_layout: LAYOUT_GENERAL,
        src_stage: STAGE_TOP_OF_PIPE,
        dst_stage: STAGE_COMPUTE_SHADER | STAGE_FRAGMENT_SHADER,
        src_access: 0,
        dst_access: ACCESS_SHADER_WRITE | ACCESS_SHADER_READ,
    }
}

/// Running a compute pipeline once with one descriptor set.
pub open spec fn dispatch_commands(
    pipeline: u64,
    layout: u64,
    set: u64,
    x: u32,
    y: u32,
    z: u32,
) -> Seq<FrameCommand> {
    seq![
        FrameCommand::BindPipeline { point: BIND_COMPUTE, pipeline },
        FrameCommand::BindDescriptorSet { point: BIND_COMPUTE, layout, set },
        FrameCommand::Dispatch { x, y, z },
    ]
}

/// What a frame records before it draws: the compute shader run over the
/// whole output image of `blit`, which is then made ready to be read.
pub open spec fn compute_commands(
    compute: Option<ComputeStage>,
    blit: Option<BlitResources>,
    extent: Extent,
) -> Seq<FrameCommand> {
    match compute {
        Some(stage) => dispatch_commands(
            stage.pipeline,
            stage.pipeline_layout,
            stage.descriptor_set,
            groups_to_cover(extent.width, stage.thread_group_size.x) as u32,
            groups_to_cover(extent.height, stage.thread_group_size.y) as u32,
            if stage.thread_group_size.z == 0 {
                1
            } else {
                stage.thread_group_size.z
            },
        ) + seq![FrameCommand::Barrier(compute_barrier(blit->0.output_image))],
        None => Seq::empty(),
    }
}

/// What a frame draws with: the blit pass if a compute shader is in use, or
/// the renderer's own pipeline.
pub open spec fn drawing_pipeline(
    compute: Option<ComputeStage>,
    blit: Option<BlitResources>,
    pipeline: u64,
) -> Seq<FrameCommand> {
    match compute {
        Some(_) => seq![
            FrameCommand::BindPipeline { point: BIND_GRAPHICS, pipeline: blit->0.pipeline },
            FrameCommand::BindDescriptorSet {
                point: BIND_GRAPHICS,
                layout: blit->0.pipeline_layout,
                set: blit->0.descriptor_set,
            },
        ],
        None => seq![FrameCommand::BindPipeline { point: BIND_GRAPHICS, pipeline }],
    }
}

impl SwapchainRenderer {
    /// The uniforms of a frame.
    pub open spec fn frame_uniforms(self) -> Seq<UniformWrite> {
        match self.compute {
            Some(stage) => match stage.uniforms {
                Some(uniforms) => uniform_writes(uniforms, self.frame_counter, self.touch),
                None => Seq::empty(),
            },
            None => Seq::empty(),
        }
    }

    /// Everything a frame that shows image `image_index` records.
    pub open spec fn frame_commands(self, image_index: u32) -> Seq<FrameCommand> {
        let pool = self.frame.timestamp_query_pool;
        seq![
            FrameCommand::ResetQueries { pool, first: 0, count: 2 },
            FrameCommand::WriteTimestamp { stage: STAGE_TOP_OF_PIPE, pool, query: 0 },
        ] + compute_commands(self.compute, self.blit, self.extent) + seq![
            FrameCommand::BeginRenderPass {
                render_pass: self.parts.render_pass,
                framebuffer: self.parts.framebuffers@[image_index as int],
                extent: self.extent,
            },
        ] + drawing_pipeline(self.compute, self.blit, self.parts.pipeline) + seq![
            FrameCommand::Draw { vertices: 3, instances: 1 },
            FrameCommand::WriteTimestamp { stage: STAGE_BOTTOM_OF_PIPE, pool, query: 1 },
            FrameCommand::EndRenderPass,
        ]
    }

    /// The frame number after a frame was recorded: it counts the frames in
    /// which a compute shader ran, and starts over after the last number.
    pub open spec fn next_frame_counter(self) -> u32 {
        if self.compute is None {
            self.frame_counter
        } else if self.frame_counter == u32::MAX {
            0
        } else {
            (self.frame_counter + 1) as u32
        }
    }

    /// How a frame runs: it draws on its image only when that can be drawn
    /// on, and tells when the image can be presented.
    pub open spec fn frame_submission(self) -> Submission {
        Submission {
            command_buffer: self.frame.command_buffer,
            wait: self.frame.image_available,
            wait_stage: STAGE_COLOR_ATTACHMENT_OUTPUT,
            signal: self.frame.render_finished,
            fence: self.frame.in_flight,
        }
    }

    /// How a frame runs.
    pub fn submission(&self) -> (submission: Submission)
        ensures
            submission == self.frame_submission(),
    {
        Submission {
            command_buffer: self.frame.command_buffer,
            wait: self.frame.image_available,
            wait_stage: STAGE_COLOR_ATTACHMENT_OUTPUT,
            signal: self.frame.render_finished,
            fence: self.frame.in_flight,
        }
    }

    /// Begins a frame.
    pub fn render_frame(&self) -> (begun: (FrameTask, FrameAction))
        ensures
            begun.0.step is WaitFence,
            begun.1 == (FrameAction::WaitFence { fence: self.frame.in_flight }),
    {
        (
            FrameTask { step: FrameStep::WaitFence },
            FrameAction::WaitFence { fence: self.frame.in_flight },
        )
    }
}

fn cover(length: u32, size: u32) -> (groups: u32)
    ensures
        groups == groups_to_cover(length, size),
{
    let group: u32 = if size == 0 {
        1
    } else {
        size
    };
    let whole: u32 = length / group;
    let rest: u32 = length % group;
    proof {
        let l = length as int;
        let g = group as int;
        let q = l / g;
        vstd::arithmetic::div_mod::lemma_fundamental_div_mod(l, g);
        vstd::arithmetic::div_mod::lemma_mod_bound(l, g);
        assert(g * q == q * g) by (nonlinear_arith);
        if rest == 0 {
            vstd::arithmetic::div_mod::lemma_fundamental_div_mod_converse(l + g - 1, g, q, g - 1);
        } else {
            assert((q + 1) * g == q * g + g) by (nonlinear_arith);
            vstd::arithmetic::div_mod::lemma_fundamental_div_mod_converse(
                l + g - 1,
                g,
                q + 1,
                rest - 1,
            );
            assert(q < l) by (nonlinear_arith)
                requires
                    l == q * g + rest,
                    rest > 0,
                    g >= 1,
                    q >= 0,
            ;
        }
    }
    if rest == 0 {
        whole
    } else {
        whole + 1
    }
}

fn write_uniforms(uniforms: &UniformBuffer, frame_number: u32, touch: &TouchState) -> (writes: Vec<
    UniformWrite,
>)
    ensures
        writes@ == uniform_writes(*uniforms, frame_number, *touch),
{
    let mut writes: Vec<UniformWrite> = Vec::new();
    if let Some(offset) = uniforms.time_offset {
        writes.push(UniformWrite { offset: offset as u64, value: UniformValue::ElapsedSeconds });
    }
    if let Some(offset) = uniforms.frame_id_offset {
        writes.push(
            UniformWrite { offset: offset as u64, value: UniformValue::FrameNumber(frame_number) },
        );
    }
    if let Some(offset) = uniforms.mouse_position_offset {
        let four = touch.encode();
        writes.push(UniformWrite { offset: offset as u64, value: UniformValue::Bits(four[0]) });
        writes.push(UniformWrite { offset: offset as u64 + 4, value: UniformValue::Bits(four[1]) });
        writes.push(UniformWrite { offset: offset as u64 + 8, value: UniformValue::Bits(four[2]) });
        writes.push(
            UniformWrite { offset: offset as u64 + 12, value: UniformValue::Bits(four[3]) },
        );
    }
    assert(writes@ == uniform_writes(*uniforms, frame_number, *touch));
    writes
}

/// Appends running a compute pipeline once.
pub fn push_dispatch(
    out: &mut Vec<FrameCommand>,
    pipeline: u64,
    layout: u64,
    set: u64,
    groups: ThreadGroups,
)
    ensures
        final(out)@ == old(out)@ + dispatch_commands(
            pipeline,
            layout,
            set,
            groups.x,
            groups.y,
            groups.z,
        ),
{
    let ghost before = out@;
    out.push(FrameCommand::BindPipeline { point: BIND_COMPUTE, pipeline });
    out.push(FrameCommand::BindDescriptorSet { point: BIND_COMPUTE, layout, set });
    out.push(FrameCommand::Dispatch { x: groups.x, y: groups.y, z: groups.z });
    assert(out@ == before + dispatch_commands(pipeline, layout, set, groups.x, groups.y, groups.z));
}

fn record(renderer: &SwapchainRenderer, image_index: u32) -> (recording: (
    Vec<UniformWrite>,
    Vec<FrameCommand>,
))
    requires
        renderer.well_formed(),
        image_index < renderer.parts.framebuffers@.len(),
    ensures
        recording.0@ == renderer.frame_uniforms(),
        recording.1@ == renderer.frame_commands(image_index),
{
    let pool: u64 = renderer.frame.timestamp_query_pool;
    let mut writes: Vec<UniformWrite> = Vec::new();
    let mut commands: Vec<FrameCommand> = Vec::new();
    commands.push(FrameCommand::ResetQueries { pool, first: 0, count: 2 });
    commands.push(FrameCommand::WriteTimestamp { stage: STAGE_TOP_OF_PIPE, pool, query: 0 });
    let ghost opening = commands@;
    if let (Some(stage), Some(blit)) = (renderer.compute, renderer.blit) {
        if let Some(uniforms) = stage.uniforms {
            writes = write_uniforms(&uniforms, renderer.frame_counter, &renderer.touch);
        }
        push_dispatch(
            &mut commands,
            stage.pipeline,
            stage.pipeline_layout,
            stage.descriptor_set,
            ThreadGroups {
                x: cover(renderer.extent.width, stage.thread_group_size.x),
                y: cover(renderer.extent.height, stage.thread_group_size.y),
                z: if stage.thread_group_size.z == 0 {
                    1
                } else {
                    stage.thread_group_size.z
                },
            },
        );
        commands.push(
            FrameCommand::Barrier(
                ImageBarrier {
                    image: blit.output_image,
                    old_layout: LAYOUT_GENERAL,
                    new_layout: LAYOUT_GENERAL,
                    src_stage: STAGE_COMPUTE_SHADER,
                    dst_stage: STAGE_FRAGMENT_SHADER,
                    src_access: ACCESS_SHADER_WRITE,
                    dst_access: ACCESS_SHADER_READ,
                },
            ),
        );
    }
    assert(commands@ == opening + compute_commands(
        renderer.compute,
        renderer.blit,
        renderer.extent,
    ));
    commands.push(
        FrameCommand::BeginRenderPass {
            render_pass: renderer.parts.render_pass,
            framebuffer: renderer.parts.framebuffers[image_index as usize],
            extent: renderer.extent,
        },
    );
    let ghost before_drawing = commands@;
    match (renderer.compute, renderer.blit) {
        (Some(_), Some(blit)) => {
            commands.push(
                FrameCommand::BindPipeline { point: BIND_GRAPHICS, pipeline: blit.pipeline },
            );
            commands.push(
                FrameCommand::BindDescriptorSet {
                    point: BIND_GRAPHICS,
                    layout: blit.pipeline_layout,
                    set: blit.descriptor_set,
                },
            );
        },
        _ => {
            commands.push(
                FrameCommand::BindPipeline {
                    point: BIND_GRAPHICS,
                    pipeline: renderer.parts.pipeline,
                },
            );
        },
    }
    assert(commands@ == before_drawing + drawing_pipeline(
        renderer.compute,
        renderer.blit,
        renderer.parts.pipeline,
    ));
    commands.push(FrameCommand::Draw { vertices: 3, instances: 1 });
    commands.push(FrameCommand::WriteTimestamp { stage: STAGE_BOTTOM_OF_PIPE, pool, query: 1 });
    commands.push(FrameCommand::EndRenderPass);
    assert(commands@ == renderer.frame_commands(image_index));
    (writes, commands)
}

impl FrameTask {
    /// Whether `event` can answer what was last asked for. An image that is
    /// acquired is one of the swapchain's.
    pub open spec fn expects(self, event: FrameEvent, renderer: SwapchainRenderer) -> bool {
        match self.step {
            FrameStep::Timestamps => event is Ticks || event is Failed,
            FrameStep::Acquire => event is Failed || (event is Acquired && event->Acquired_0
                < renderer.parts.framebuffers@.len()),
            FrameStep::Begin(image) => (event is Done || event is Failed) && image
                < renderer.parts.framebuffers@.len(),
            FrameStep::Finished => false,
            _ => event is Done || event is Failed,
        }
    }

    /// The step that follows.
    pub open spec fn next_step(self, event: FrameEvent, has_submitted: bool) -> FrameStep {
        if event is Failed {
            FrameStep::Finished
        } else {
            match self.step {
                FrameStep::WaitFence => if has_submitted {
                    FrameStep::Timestamps
                } else {
                    FrameStep::Acquire
                },
                FrameStep::Timestamps => FrameStep::Acquire,
                FrameStep::Acquire => FrameStep::Begin(event->Acquired_0),
                FrameStep::Begin(image) => FrameStep::Record(image),
                FrameStep::Record(image) => FrameStep::Submit(image),
                FrameStep::Submit(image) => FrameStep::Present(image),
                FrameStep::Present(_) => FrameStep::Finished,
                FrameStep::Finished => FrameStep::Finished,
            }
        }
    }

    /// The renderer after `event`: the time the previous frame took, the
    /// frame number, and whether a frame was ever submitted are kept as soon
    /// as they are known, even if a later step fails.
    pub open spec fn effect(self, event: FrameEvent, renderer: SwapchainRenderer) -> SwapchainRenderer {
        if event is Failed {
            renderer
        } else {
            match self.step {
                FrameStep::Timestamps => SwapchainRenderer {
                    last_gpu_ticks: Some(elapsed_ticks(event->start, event->end)),
                    ..renderer
                },
                FrameStep::Begin(_) => SwapchainRenderer {
                    frame_counter: renderer.next_frame_counter(),
                    ..renderer
                },
                FrameStep::Submit(_) => SwapchainRenderer { has_submitted_frame: true, ..renderer },
                _ => renderer,
            }
        }
    }

    /// How the frame ends if `event` ends it. A surface that changed while an
    /// image was acquired or presented means a skipped frame, not an error.
    pub open spec fn outcome(self, event: FrameEvent) -> Result<bool, Error> {
        match event {
            FrameEvent::Failed(code) => if code == OUT_OF_DATE && (self.step is Acquire
                || self.step is Present) {
                Ok(false)
            } else {
                Err(Error::Vulkan(code))
            },
            _ => Ok(true),
        }
    }

    /// Whether `action` is what to do at `step`, coming from `self`, before
    /// whose event the renderer was `renderer`.
    pub open spec fn leads_to(
        self,
        event: FrameEvent,
        step: FrameStep,
        renderer: SwapchainRenderer,
        action: FrameAction,
    ) -> bool {
        match step {
            FrameStep::WaitFence => action == (FrameAction::WaitFence {
                fence: renderer.frame.in_flight,
            }),
            FrameStep::Timestamps => action == (FrameAction::ReadTimestamps {
                pool: renderer.frame.timestamp_query_pool,
                first: 0,
                count: 2,
            }),
            FrameStep::Acquire => action == (FrameAction::AcquireImage {
                swapchain: renderer.parts.swapchain,
                signal: renderer.frame.image_available,
            }),
            FrameStep::Begin(_) => action == (FrameAction::BeginRecording {
                fence: renderer.frame.in_flight,
                command_buffer: renderer.frame.command_buffer,
            }),
            FrameStep::Record(image) => action matches FrameAction::Record {
                command_buffer,
                writes,
                commands,
            } && {
                &&& command_buffer == renderer.frame.command_buffer
                &&& writes@ == renderer.frame_uniforms()
                &&& commands@ == renderer.frame_commands(image)
            },
            FrameStep::Submit(_) => action == FrameAction::Submit(renderer.frame_submission()),
            FrameStep::Present(image) => action == (FrameAction::Present {
                swapchain: renderer.parts.swapchain,
                wait: renderer.frame.render_finished,
                image,
            }),
            FrameStep::Finished => action == FrameAction::Finish(self.outcome(event)),
        }
    }

    /// Takes what came of the last action and says what to do next.
    pub fn advance(&mut self, renderer: &mut SwapchainRenderer, event: FrameEvent) -> (action:
        FrameAction)
        requires
            old(renderer).well_formed(),
            old(self).expects(event, *old(renderer)),
        ensures
            final(renderer).well_formed(),
            final(self).step == old(self).next_step(event, old(renderer).has_submitted_frame),
            *final(renderer) == old(self).effect(event, *old(renderer)),
            old(self).leads_to(event, final(self).step, *old(renderer), action),
    {
        if let FrameEvent::Failed(code) = event {
            let skipped: bool = code == OUT_OF_DATE && (match self.step {
                FrameStep::Acquire => true,
                FrameStep::Present(_) => true,
                _ => false,
            });
            self.step = FrameStep::Finished;
            return FrameAction::Finish(
                if skipped {
                    Ok(false)
                } else {
                    Err(Error::Vulkan(code))
                },
            );
        }
        match self.step {
            FrameStep::WaitFence => {
                if renderer.has_submitted_frame {
                    self.step = FrameStep::Timestamps;
                    FrameAction::ReadTimestamps {
                        pool: renderer.frame.timestamp_query_pool,
                        first: 0,
                        count: 2,
                    }
                } else {
                    self.step = FrameStep::Acquire;
                    FrameAction::AcquireImage {
                        swapchain: renderer.parts.swapchain,
                        signal: renderer.frame.image_available,
                    }
                }
            },
            FrameStep::Timestamps => {
                if let FrameEvent::Ticks { start, end } = event {
                    renderer.last_gpu_ticks = Some(end.wrapping_sub(start));
                }
                self.step = FrameStep::Acquire;
                FrameAction::AcquireImage {
                    swapchain: renderer.parts.swapchain,
                    signal: renderer.frame.image_available,
                }
            },
            FrameStep::Acquire => {
                if let FrameEvent::Acquired(image) = event {
                    self.step = FrameStep::Begin(image);
                }
                FrameAction::BeginRecording {
                    fence: renderer.frame.in_flight,
                    command_buffer: renderer.frame.command_buffer,
                }
            },
            FrameStep::Begin(image) => {
                let (writes, commands) = record(renderer, image);
                if renderer.compute.is_some() {
                    renderer.frame_counter = renderer.frame_counter.wrapping_add(1);
                }
                self.step = FrameStep::Record(image);
                FrameAction::Record {
                    command_buffer: renderer.frame.command_buffer,
                    writes,
                    commands,
                }
            },
            FrameStep::Record(image) => {
                self.step = FrameStep::Submit(image);
                FrameAction::Submit(renderer.submission())
            },
            FrameStep::Submit(image) => {
                renderer.has_submitted_frame = true;
                self.step = FrameStep::Present(image);
                FrameAction::Present {
                    swapchain: renderer.parts.swapchain,
                    wait: renderer.frame.render_finished,
                    image,
                }
            },
            FrameStep::Present(_) => {
                self.step = FrameStep::Finished;
                FrameAction::Finish(Ok(true))
            },
            FrameStep::Finished => FrameAction::Finish(Ok(true)),
        }
    }
}

/// The ticks from `start` to `end`, of a clock that starts over after its
/// last tick.
pub open spec fn elapsed_ticks(start: u64, end: u64) -> u64 {
    if start <= end {
        (end - start) as u64
    } else {
        (end - start + 0x1_0000_0000_0000_0000) as u64
    }
}

/// The groups that are dispatched cover every pixel, and no group is spare.
pub proof fn groups_cover_exactly(length: u32, size: u32)
    ensures
        ({
            let group = if size == 0 {
                1
            } else {
                size as int
            };
            let groups = groups_to_cover(length, size);
            &&& groups * group >= length
            &&& (groups - 1) * group < length
            &&& 0 <= groups <= length
        }),
{
    let group = if size == 0 {
        1
    } else {
        size as int
    };
    let l = length as int;
    let groups = groups_to_cover(length, size);
    vstd::arithmetic::div_mod::lemma_fundamental_div_mod(l + group - 1, group);
    vstd::arithmetic::div_mod::lemma_mod_bound(l + group - 1, group);
    vstd::arithmetic::div_mod::lemma_div_pos_is_pos(l + group - 1, group);
    let rest = (l + group - 1) % group;
    assert(group * groups == groups * group) by (nonlinear_arith);
    assert((groups - 1) * group == groups * group - group) by (nonlinear_arith);
    assert(groups <= l) by (nonlinear_arith)
        requires
            groups * group + rest == l + group - 1,
            0 <= rest,
            group >= 1,
            l >= 0,
            groups >= 0,
    ;
}

/// Whether a layout has room for every value it asks for.
pub open spec fn layout_has_room(layout: UniformBufferLayout) -> bool {
    &&& layout.time_offset is Some ==> layout.time_offset->0 + 4 <= layout.size
    &&& layout.frame_id_offset is Some ==> layout.frame_id_offset->0 + 4 <= layout.size
    &&& layout.mouse_position_offset is Some ==> layout.mouse_position_offset->0 + 16
        <= layout.size
}

/// A frame writes only inside a uniform buffer whose layout has room.
pub proof fn uniform_writes_stay_inside(
    layout: UniformBufferLayout,
    uniforms: UniformBuffer,
    frame_number: u32,
    touch: TouchState,
    i: int,
)
    requires
        layout_has_room(layout),
        uniforms.time_offset == layout.time_offset,
        uniforms.frame_id_offset == layout.frame_id_offset,
        uniforms.mouse_position_offset == layout.mouse_position_offset,
        0 <= i < uniform_writes(uniforms, frame_number, touch).len(),
    ensures
        uniform_writes(uniforms, frame_number, touch)[i].offset + 4 <= layout.size,
{
}

/// The first frame has no previous one to read the time of, and every frame
/// after a submitted one does.
pub proof fn timestamps_follow_a_submission(task: FrameTask, event: FrameEvent, submitted: bool)
    requires
        task.step is WaitFence,
        event is Done,
    ensures
        task.next_step(event, submitted) is Timestamps <==> submitted,
{
}

/// Once a compute shader is in use, every frame shows its image, whatever
/// pipeline the renderer has of its own; and no frame takes it out of use.
pub proof fn a_compute_shader_stays_in_use(
    renderer: SwapchainRenderer,
    pipeline: u64,
    task: FrameTask,
    event: FrameEvent,
    image: u32,
)
    requires
        renderer.compute is Some,
    ensures
        ({
            let other = SwapchainRenderer {
                parts: SwapchainParts { pipeline, ..renderer.parts },
                ..renderer
            };
            &&& other.frame_commands(image) == renderer.frame_commands(image)
            &&& task.effect(event, renderer).compute == renderer.compute
            &&& task.effect(event, renderer).blit == renderer.blit
        }),
{
}

/// A moment of a frame: where it stands, the renderer, what was last asked
/// for, and what comes of that.
pub struct FrameMoment {
    pub task: FrameTask,
    pub renderer: SwapchainRenderer,
    pub action: FrameAction,
    pub event: FrameEvent,
}

/// Whether a frame begins with the first moment, and each of the others
/// follows from the one before it.
pub open spec fn is_frame(moments: Seq<FrameMoment>) -> bool {
    &&& moments.len() > 0
    &&& moments[0].action == (FrameAction::WaitFence {
        fence: moments[0].renderer.frame.in_flight,
    })
    &&& forall|i: int|
        0 < i < moments.len() ==> {
            let before = moments[i - 1];
            let now = #[trigger] moments[i];
            &&& before.task.expects(before.event, before.renderer)
            &&& now.task.step == before.task.next_step(
                before.event,
                before.renderer.has_submitted_frame,
            )
            &&& now.renderer == before.task.effect(before.event, before.renderer)
            &&& before.task.leads_to(
                before.event,
                now.task.step,
                before.renderer,
                now.action,
            )
        }
}

/// Nothing a frame does gets ahead of what it needs. It waits for the fence
/// that frames are submitted with, and resets that fence and no other. What it
/// submits is what it recorded, and waits for the semaphore its image was
/// acquired with. Its image is presented after the semaphore that what it
/// submitted signals.
pub proof fn a_frame_waits_for_what_it_needs(moments: Seq<FrameMoment>, i: int)
    requires
        is_frame(moments),
        0 <= i < moments.len(),
    ensures
        ({
            let first = moments[0].renderer;
            let submission = first.frame_submission();
            &&& moments[i].renderer.frame == first.frame
            &&& moments[i].renderer.parts == first.parts
            &&& match moments[i].action {
                FrameAction::WaitFence { fence } => fence == submission.fence,
                FrameAction::AcquireImage { swapchain, signal } => {
                    &&& swapchain == first.parts.swapchain
                    &&& signal == submission.wait
                },
                FrameAction::BeginRecording { fence, command_buffer } => {
                    &&& fence == submission.fence
                    &&& command_buffer == submission.command_buffer
                },
                FrameAction::Record { command_buffer, .. } => command_buffer
                    == submission.command_buffer,
                FrameAction::Submit(submitted) => submitted == submission,
                FrameAction::Present { swapchain, wait, .. } => {
                    &&& swapchain == first.parts.swapchain
                    &&& wait == submission.signal
                },
                _ => true,
            }
        }),
    decreases i,
{
    if i > 0 {
        a_frame_waits_for_what_it_needs(moments, i - 1);
        let before = moments[i - 1];
        let now = moments[i];
        assert(before.task.leads_to(before.event, now.task.step, before.renderer, now.action));
    }
}

/// A frame in which no call fails takes its steps in order and is presented.
pub proof fn an_undisturbed_frame_is_presented(renderer: SwapchainRenderer, image: u32, start: u64, end: u64)
    requires
        image < renderer.parts.framebuffers@.len(),
    ensures
        ({
            let submitted = renderer.has_submitted_frame;
            let ticks = FrameEvent::Ticks { start, end };
            let first = FrameTask { step: FrameStep::WaitFence };
            let waited = FrameTask { step: first.next_step(FrameEvent::Done, submitted) };
            let acquiring = if submitted {
                FrameTask { step: waited.next_step(ticks, submitted) }
            } else {
                waited
            };
            let acquired = FrameTask {
                step: acquiring.next_step(FrameEvent::Acquired(image), submitted),
            };
            let recorded = FrameTask { step: acquired.next_step(FrameEvent::Done, submitted) };
            let ended = FrameTask { step: recorded.next_step(FrameEvent::Done, submitted) };
            let presenting = FrameTask { step: ended.next_step(FrameEvent::Done, submitted) };
            &&& presenting.step == FrameStep::Present(image)
            &&& presenting.next_step(FrameEvent::Done, true) is Finished
            &&& presenting.outcome(FrameEvent::Done) == Ok::<bool, Error>(true)
            &&& ended.effect(FrameEvent::Done, renderer).has_submitted_frame
        }),
{
}

} // verus!
