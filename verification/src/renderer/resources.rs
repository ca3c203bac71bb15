//! What a renderer owns, and the order in which it is given back.
//!
//! Handles are carried as plain numbers; what kind of object one names is
//! told by the field or variant that holds it.

use crate::bytes::copy_bytes;
use vstd::prelude::*;

verus! {

/// Giving back one object.
#[derive(Clone, Copy, PartialEq, Eq, Structural, Debug)]
pub enum Destroy {
    DescriptorPool(u64),
    DescriptorSetLayout(u64),
    Pipeline(u64),
    PipelineLayout(u64),
    UnmapMemory(u64),
    Buffer(u64),
    Memory(u64),
    Sampler(u64),
    ImageView(u64),
    Image(u64),
    QueryPool(u64),
    Fence(u64),
    Semaphore(u64),
    CommandPool(u64),
    Framebuffer(u64),
    RenderPass(u64),
    Swapchain(u64),
    Surface(u64),
}

/// The packed uniform buffer a compute shader expects: its size in bytes, and
/// where in it the values this renderer supplies belong, if the shader
/// declares them.
#[derive(Clone, Copy, PartialEq, Eq, Debug)]
pub struct UniformBufferLayout {
    pub size: u32,
    pub time_offset: Option<u32>,
    pub frame_id_offset: Option<u32>,
    pub mouse_position_offset: Option<u32>,
}

/// A uniform buffer, mapped at `mapped` for as long as it lives.
#[derive(Clone, Copy, PartialEq, Eq, Debug)]
pub struct UniformBuffer {
    pub buffer: u64,
    pub memory: u64,
    pub mapped: u64,
    pub time_offset: Option<u32>,
    pub frame_id_offset: Option<u32>,
    pub mouse_position_offset: Option<u32>,
}

/// The image a compute shader writes, and the pass that shows it.
#[derive(Clone, Copy, PartialEq, Eq, Structural, Debug)]
pub struct BlitResources {
    pub output_image: u64,
    pub output_image_view: u64,
    pub output_image_memory: u64,
    pub sampler: u64,
    pub pipeline: u64,
    pub pipeline_layout: u64,
    pub descriptor_set_layout: u64,
    pub descriptor_pool: u64,
    pub descriptor_set: u64,
}

/// How many threads run together in each direction.
#[derive(Clone, Copy, PartialEq, Eq, Structural, Debug)]
pub struct ThreadGroups {
    pub x: u32,
    pub y: u32,
    pub z: u32,
}

/// The compute shader in use.
#[derive(Clone, Copy, PartialEq, Eq, Debug)]
pub struct ComputeStage {
    pub pipeline: u64,
    pub pipeline_layout: u64,
    pub descriptor_set_layout: u64,
    pub descriptor_pool: u64,
    pub descriptor_set: u64,
    pub output_texture_binding: u32,
    pub thread_group_size: ThreadGroups,
    pub uniforms: Option<UniformBuffer>,
}

/// The shaders that a graphics pipeline is built from.
#[derive(Debug, Clone, PartialEq, Eq)]
pub struct GraphicsShaders {
    pub vertex: Vec<u8>,
    pub fragment: Vec<u8>,
}

impl GraphicsShaders {
    /// The bytes of both shaders.
    pub open spec fn code(self) -> (Seq<u8>, Seq<u8>) {
        (self.vertex@, self.fragment@)
    }

    /// A copy of both.
    pub fn duplicate(&self) -> (copy: GraphicsShaders)
        ensures
            copy.code() == self.code(),
    {
        GraphicsShaders {
            vertex: copy_bytes(self.vertex.as_slice()),
            fragment: copy_bytes(self.fragment.as_slice()),
        }
    }
}

/// What depends on the size of the surface, apart from the blit pass. The
/// pipeline was built from `shaders`.
#[derive(Debug)]
pub struct SwapchainParts {
    pub swapchain: u64,
    pub image_views: Vec<u64>,
    pub render_pass: u64,
    pub framebuffers: Vec<u64>,
    pub pipeline: u64,
    pub pipeline_layout: u64,
    pub shaders: GraphicsShaders,
}

/// What drives one frame at a time, whatever the size of the surface.
#[derive(Clone, Copy, PartialEq, Eq, Structural, Debug)]
pub struct FrameParts {
    pub command_pool: u64,
    pub command_buffer: u64,
    pub image_available: u64,
    pub render_finished: u64,
    pub in_flight: u64,
    pub timestamp_query_pool: u64,
}

/// Giving back a uniform buffer.
pub open spec fn uniform_teardown(uniforms: Option<UniformBuffer>) -> Seq<Destroy> {
    match uniforms {
        Some(u) => seq![
            Destroy::UnmapMemory(u.memory),
            Destroy::Buffer(u.buffer),
            Destroy::Memory(u.memory),
        ],
        None => Seq::empty(),
    }
}

/// Giving back what belongs to one compute shader alone.
pub open spec fn shader_teardown(stage: ComputeStage) -> Seq<Destroy> {
    seq![
        Destroy::DescriptorPool(stage.descriptor_pool),
        Destroy::DescriptorSetLayout(stage.descriptor_set_layout),
        Destroy::Pipeline(stage.pipeline),
        Destroy::PipelineLayout(stage.pipeline_layout),
    ] + uniform_teardown(stage.uniforms)
}

/// Giving back the blit pass and its image.
pub open spec fn blit_teardown(blit: BlitResources) -> Seq<Destroy> {
    seq![
        Destroy::DescriptorPool(blit.descriptor_pool),
        Destroy::DescriptorSetLayout(blit.descriptor_set_layout),
        Destroy::Pipeline(blit.pipeline),
        Destroy::PipelineLayout(blit.pipeline_layout),
        Destroy::Sampler(blit.sampler),
        Destroy::ImageView(blit.output_image_view),
        Destroy::Image(blit.output_image),
        Destroy::Memory(blit.output_image_memory),
    ]
}

/// Giving back the compute shader in use, if there is one.
pub open spec fn compute_teardown(compute: Option<ComputeStage>) -> Seq<Destroy> {
    match compute {
        Some(stage) => shader_teardown(stage),
        None => Seq::empty(),
    }
}

/// Giving back the blit pass and its image, if they were built.
pub open spec fn pass_teardown(blit: Option<BlitResources>) -> Seq<Destroy> {
    match blit {
        Some(blit) => blit_teardown(blit),
        None => Seq::empty(),
    }
}

/// Giving back each of `framebuffers`.
pub open spec fn framebuffers_teardown(framebuffers: Seq<u64>) -> Seq<Destroy> {
    framebuffers.map_values(|h: u64| Destroy::Framebuffer(h))
}

/// Giving back each of `views`.
pub open spec fn views_teardown(views: Seq<u64>) -> Seq<Destroy> {
    views.map_values(|h: u64| Destroy::ImageView(h))
}

/// Giving back what depends on the size of the surface.
pub open spec fn parts_teardown(parts: SwapchainParts) -> Seq<Destroy> {
    seq![Destroy::Pipeline(parts.pipeline), Destroy::PipelineLayout(parts.pipeline_layout)]
        + framebuffers_teardown(parts.framebuffers@) + seq![Destroy::RenderPass(parts.render_pass)]
        + views_teardown(parts.image_views@) + seq![Destroy::Swapchain(parts.swapchain)]
}

/// Giving back what drives the frames.
pub open spec fn frame_teardown(frame: FrameParts) -> Seq<Destroy> {
    seq![
        Destroy::QueryPool(frame.timestamp_query_pool),
        Destroy::Fence(frame.in_flight),
        Destroy::Semaphore(frame.render_finished),
        Destroy::Semaphore(frame.image_available),
        Destroy::CommandPool(frame.command_pool),
    ]
}

/// Appends the teardown of a uniform buffer.
pub fn push_uniforms(out: &mut Vec<Destroy>, uniforms: &Option<UniformBuffer>)
    ensures
        final(out)@ == old(out)@ + uniform_teardown(*uniforms),
{
    let ghost before = out@;
    match uniforms {
        Some(u) => {
            out.push(Destroy::UnmapMemory(u.memory));
            out.push(Destroy::Buffer(u.buffer));
            out.push(Destroy::Memory(u.memory));
        },
        None => {},
    }
    assert(out@ == before + uniform_teardown(*uniforms));
}

/// Appends the teardown of what belongs to one compute shader alone.
pub fn push_shader(out: &mut Vec<Destroy>, stage: &ComputeStage)
    ensures
        final(out)@ == old(out)@ + shader_teardown(*stage),
{
    let ghost before = out@;
    out.push(Destroy::DescriptorPool(stage.descriptor_pool));
    out.push(Destroy::DescriptorSetLayout(stage.descriptor_set_layout));
    out.push(Destroy::Pipeline(stage.pipeline));
    out.push(Destroy::PipelineLayout(stage.pipeline_layout));
    push_uniforms(out, &stage.uniforms);
    assert(out@ == before + shader_teardown(*stage));
}

/// Appends the teardown of the blit pass, if it was built.
pub fn push_pass(out: &mut Vec<Destroy>, blit: &Option<BlitResources>)
    ensures
        final(out)@ == old(out)@ + pass_teardown(*blit),
{
    let ghost before = out@;
    match blit {
        Some(blit) => {
            out.push(Destroy::DescriptorPool(blit.descriptor_pool));
            out.push(Destroy::DescriptorSetLayout(blit.descriptor_set_layout));
            out.push(Destroy::Pipeline(blit.pipeline));
            out.push(Destroy::PipelineLayout(blit.pipeline_layout));
            out.push(Destroy::Sampler(blit.sampler));
            out.push(Destroy::ImageView(blit.output_image_view));
            out.push(Destroy::Image(blit.output_image));
            out.push(Destroy::Memory(blit.output_image_memory));
        },
        None => {},
    }
    assert(out@ == before + pass_teardown(*blit));
}

/// Appends the teardown of the compute shader in use, if there is one.
pub fn push_compute(out: &mut Vec<Destroy>, compute: &Option<ComputeStage>)
    ensures
        final(out)@ == old(out)@ + compute_teardown(*compute),
{
    let ghost before = out@;
    match compute {
        Some(stage) => {
            push_shader(out, stage);
        },
        None => {},
    }
    assert(out@ == before + compute_teardown(*compute));
}

/// Appends the teardown of what drives the frames.
pub fn push_frame(out: &mut Vec<Destroy>, frame: &FrameParts)
    ensures
        final(out)@ == old(out)@ + frame_teardown(*frame),
{
    let ghost before = out@;
    out.push(Destroy::QueryPool(frame.timestamp_query_pool));
    out.push(Destroy::Fence(frame.in_flight));
    out.push(Destroy::Semaphore(frame.render_finished));
    out.push(Destroy::Semaphore(frame.image_available));
    out.push(Destroy::CommandPool(frame.command_pool));
    assert(out@ == before + frame_teardown(*frame));
}

/// Appends the teardown of what depends on the size of the surface.
pub fn push_parts(out: &mut Vec<Destroy>, parts: &SwapchainParts)
    ensures
        final(out)@ == old(out)@ + parts_teardown(*parts),
{
    let ghost before = out@;
    out.push(Destroy::Pipeline(parts.pipeline));
    out.push(Destroy::PipelineLayout(parts.pipeline_layout));
    let ghost start = out@;
    let mut i: usize = 0;
    while i < parts.framebuffers.len()
        invariant
            i <= parts.framebuffers.len(),
            out@ == start + framebuffers_teardown(parts.framebuffers@.take(i as int)),
        decreases parts.framebuffers.len() - i,
    {
        out.push(Destroy::Framebuffer(parts.framebuffers[i]));
        assert(out@ == start + framebuffers_teardown(parts.framebuffers@.take(i + 1)));
        i += 1;
    }
    assert(parts.framebuffers@.take(parts.framebuffers@.len() as int) == parts.framebuffers@);
    out.push(Destroy::RenderPass(parts.render_pass));
    let ghost middle = out@;
    let mut j: usize = 0;
    while j < parts.image_views.len()
        invariant
            j <= parts.image_views.len(),
            out@ == middle + views_teardown(parts.image_views@.take(j as int)),
        decreases parts.image_views.len() - j,
    {
        out.push(Destroy::ImageView(parts.image_views[j]));
        assert(out@ == middle + views_teardown(parts.image_views@.take(j + 1)));
        j += 1;
    }
    assert(parts.image_views@.take(parts.image_views@.len() as int) == parts.image_views@);
    out.push(Destroy::Swapchain(parts.swapchain));
    assert(out@ == before + parts_teardown(*parts));
}

} // verus!
