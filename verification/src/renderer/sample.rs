//! Running a compute shader once on a buffer, from nothing to the contents of
//! the buffer, one fallible call at a time.

use crate::bytes::copy_bytes;
use crate::renderer::compute::{Binding, ComputeProgram};
use crate::renderer::frame::{dispatch_commands, push_dispatch, FrameCommand};
use crate::renderer::resources::ThreadGroups;
use crate::renderer::surface::Error;
use vstd::prelude::*;

verus! {

/// A storage buffer (`VkDescriptorType`).
pub const DESCRIPTOR_STORAGE_BUFFER: i32 = 7;

/// A buffer that shaders store to (`VkBufferUsageFlagBits`).
pub const USAGE_STORAGE_BUFFER: u32 = 0x20;

/// What running a shader came to, for callers that know only numbers.
#[derive(Clone, Copy, PartialEq, Eq, Structural, Debug)]
pub enum RendererCapiStatus {
    Success,
    ErrorInvalidArgument,
    /// Anything Vulkan or the driver did not do.
    ErrorVulkan,
}

/// What a run has reached.
#[derive(Clone, Copy, PartialEq, Eq, Structural, Debug)]
pub enum SampleStep {
    Instance,
    Device,
    Shader,
    Pipeline,
    Buffer,
    DescriptorPool,
    DescriptorSet,
    CommandPool,
    CommandBuffer,
    Begin,
    End,
    Submit,
    WaitIdle,
    Read,
    Over,
}

/// A shader being run. What was made is kept from when it was made; before,
/// it is zero.
#[derive(Debug)]
pub struct ComputeSample {
    pub spirv: Vec<u8>,
    pub groups: ThreadGroups,
    pub buffer_size: u64,
    pub shader: u64,
    pub pipeline: ComputeProgram,
    pub buffer: u64,
    pub descriptor_pool: u64,
    pub descriptor_set: u64,
    pub command_pool: u64,
    pub command_buffer: u64,
    pub step: SampleStep,
}

/// What to do next.
#[derive(Debug)]
pub enum SampleAction {
    /// Create an instance for an application of this name.
    CreateInstance(String),
    /// Pick a device and create it.
    CreateDevice,
    /// Load the shader that these bytes hold.
    CreateShader(Vec<u8>),
    /// Create a pipeline from this entry point of the shader, which expects
    /// this resource.
    CreatePipeline { shader: u64, entry_point: String, binding: Binding },
    /// Create a buffer of this many bytes for this use.
    CreateBuffer { size: u64, usage: u32 },
    /// Create a pool for so many sets of so many descriptors of this kind.
    CreateDescriptorPool { kind: i32, count: u32, max_sets: u32 },
    /// Allocate a set of this layout.
    AllocateSet { pool: u64, layout: u64 },
    /// Bind the whole buffer to the set, and create a command pool.
    BindAndCreateCommandPool { set: u64, binding: u32, kind: i32, buffer: u64, range: u64 },
    /// Allocate a command buffer.
    AllocateCommandBuffer { pool: u64 },
    /// Begin recording.
    BeginRecording { command_buffer: u64 },
    /// Record these commands and end recording.
    Record { command_buffer: u64, commands: Vec<FrameCommand> },
    /// Submit what was recorded.
    Submit { command_buffer: u64 },
    /// Wait until it has run.
    WaitIdle,
    /// Give back the pools, the one for commands first, and read the buffer.
    DestroyPoolsAndRead { command_pool: u64, descriptor_pool: u64, buffer: u64, size: u64 },
    /// The run is over, with the contents of the buffer or without.
    Finish(Result<Vec<u8>, Error>),
}

/// What came of an action.
#[derive(Debug)]
pub enum SampleEvent {
    Done,
    Made(u64),
    MadePipeline(ComputeProgram),
    Contents(Vec<u8>),
    Failed(Error),
}

impl RendererCapiStatus {
    /// The number for this status.
    pub open spec fn number(self) -> i32 {
        match self {
            RendererCapiStatus::Success => 0,
            RendererCapiStatus::ErrorInvalidArgument => 1,
            RendererCapiStatus::ErrorVulkan => 2,
        }
    }

    /// The number for this status.
    pub fn code(self) -> (code: i32)
        ensures
            code == self.number(),
    {
        match self {
            RendererCapiStatus::Success => 0,
            RendererCapiStatus::ErrorInvalidArgument => 1,
            RendererCapiStatus::ErrorVulkan => 2,
        }
    }
}

impl SampleStep {
    /// The step that follows, if this one succeeds.
    pub open spec fn following(self) -> SampleStep {
        match self {
            SampleStep::Instance => SampleStep::Device,
            SampleStep::Device => SampleStep::Shader,
            SampleStep::Shader => SampleStep::Pipeline,
            SampleStep::Pipeline => SampleStep::Buffer,
            SampleStep::Buffer => SampleStep::DescriptorPool,
            SampleStep::DescriptorPool => SampleStep::DescriptorSet,
            SampleStep::DescriptorSet => SampleStep::CommandPool,
            SampleStep::CommandPool => SampleStep::CommandBuffer,
            SampleStep::CommandBuffer => SampleStep::Begin,
            SampleStep::Begin => SampleStep::End,
            SampleStep::End => SampleStep::Submit,
            SampleStep::Submit => SampleStep::WaitIdle,
            SampleStep::WaitIdle => SampleStep::Read,
            SampleStep::Read => SampleStep::Over,
            SampleStep::Over => SampleStep::Over,
        }
    }
}

/// The resource the shader expects: the buffer.
pub open spec fn buffer_binding() -> Binding {
    Binding { binding: 0, descriptor: DESCRIPTOR_STORAGE_BUFFER }
}

impl ComputeSample {
    /// Whether an event can answer what was last asked for. The contents of
    /// the buffer are as long as the buffer.
    pub open spec fn expects(self, event: SampleEvent) -> bool {
        event is Failed && !(self.step is Over) || match self.step {
            SampleStep::Shader => event is Made,
            SampleStep::Pipeline => event is MadePipeline,
            SampleStep::Buffer => event is Made,
            SampleStep::DescriptorPool => event is Made,
            SampleStep::DescriptorSet => event is Made,
            SampleStep::CommandPool => event is Made,
            SampleStep::CommandBuffer => event is Made,
            SampleStep::Read => event is Contents && event->Contents_0@.len() == self.buffer_size,
            SampleStep::Over => false,
            _ => event is Done,
        }
    }

    /// The run after an event.
    pub open spec fn after(self, event: SampleEvent) -> ComputeSample {
        let step = self.step.following();
        match (self.step, event) {
            (_, SampleEvent::Failed(_)) => ComputeSample { step: SampleStep::Over, ..self },
            (_, SampleEvent::MadePipeline(pipeline)) => ComputeSample { pipeline, step, ..self },
            (SampleStep::Shader, SampleEvent::Made(shader)) => ComputeSample {
                shader,
                step,
                ..self
            },
            (SampleStep::Buffer, SampleEvent::Made(buffer)) => ComputeSample {
                buffer,
                step,
                ..self
            },
            (SampleStep::DescriptorPool, SampleEvent::Made(descriptor_pool)) => ComputeSample {
                descriptor_pool,
                step,
                ..self
            },
            (SampleStep::DescriptorSet, SampleEvent::Made(descriptor_set)) => ComputeSample {
                descriptor_set,
                step,
                ..self
            },
            (SampleStep::CommandPool, SampleEvent::Made(command_pool)) => ComputeSample {
                command_pool,
                step,
                ..self
            },
            (SampleStep::CommandBuffer, SampleEvent::Made(command_buffer)) => ComputeSample {
                command_buffer,
                step,
                ..self
            },
            _ => ComputeSample { step, ..self },
        }
    }

    /// Whether an action is what to do at this step. The last step is told
    /// apart by what led to it.
    pub open spec fn asks(self, event: SampleEvent, action: SampleAction) -> bool {
        match self.step {
            SampleStep::Instance => action matches SampleAction::CreateInstance(name) && name@
                == "renderer-capi compute sample"@,
            SampleStep::Device => action is CreateDevice,
            SampleStep::Shader => action matches SampleAction::CreateShader(spirv) && spirv@
                == self.spirv@,
            SampleStep::Pipeline => action matches SampleAction::CreatePipeline {
                shader,
                entry_point,
                binding,
            } && {
                &&& shader == self.shader
                &&& entry_point@ == "main"@
                &&& binding == buffer_binding()
            },
            SampleStep::Buffer => action == (SampleAction::CreateBuffer {
                size: self.buffer_size,
                usage: USAGE_STORAGE_BUFFER,
            }),
            SampleStep::DescriptorPool => action == (SampleAction::CreateDescriptorPool {
                kind: DESCRIPTOR_STORAGE_BUFFER,
                count: 1,
                max_sets: 1,
            }),
            SampleStep::DescriptorSet => action == (SampleAction::AllocateSet {
                pool: self.descriptor_pool,
                layout: self.pipeline.descriptor_set_layout,
            }),
            SampleStep::CommandPool => action == (SampleAction::BindAndCreateCommandPool {
                set: self.descriptor_set,
                binding: 0,
                kind: DESCRIPTOR_STORAGE_BUFFER,
                buffer: self.buffer,
                range: self.buffer_size,
            }),
            SampleStep::CommandBuffer => action == (SampleAction::AllocateCommandBuffer {
                pool: self.command_pool,
            }),
            SampleStep::Begin => action == (SampleAction::BeginRecording {
                command_buffer: self.command_buffer,
            }),
            SampleStep::End => action matches SampleAction::Record { command_buffer, commands } && {
                &&& command_buffer == self.command_buffer
                &&& commands@ == dispatch_commands(
                    self.pipeline.pipeline,
                    self.pipeline.pipeline_layout,
                    self.descriptor_set,
                    self.groups.x,
                    self.groups.y,
                    self.groups.z,
                )
            },
            SampleStep::Submit => action == (SampleAction::Submit {
                command_buffer: self.command_buffer,
            }),
            SampleStep::WaitIdle => action is WaitIdle,
            SampleStep::Read => action == (SampleAction::DestroyPoolsAndRead {
                command_pool: self.command_pool,
                descriptor_pool: self.descriptor_pool,
                buffer: self.buffer,
                size: self.buffer_size,
            }),
            SampleStep::Over => match event {
                SampleEvent::Failed(error) => action == SampleAction::Finish(Err(error)),
                SampleEvent::Contents(data) => action == SampleAction::Finish(Ok(data)),
                _ => false,
            },
        }
    }

    /// Begins to run a shader in so many groups on a buffer of so many bytes.
    pub fn run_compute_sample(spirv: Vec<u8>, groups: ThreadGroups, buffer_size: usize) -> (begun: (
        ComputeSample,
        SampleAction,
    ))
        ensures
            begun.0 == (ComputeSample {
                spirv,
                groups,
                buffer_size: buffer_size as u64,
                shader: 0,
                pipeline: ComputeProgram {
                    pipeline: 0,
                    pipeline_layout: 0,
                    descriptor_set_layout: 0,
                },
                buffer: 0,
                descriptor_pool: 0,
                descriptor_set: 0,
                command_pool: 0,
                command_buffer: 0,
                step: SampleStep::Instance,
            }),
            begun.0.asks(SampleEvent::Done, begun.1),
    {
        let sample = ComputeSample {
            spirv,
            groups,
            buffer_size: buffer_size as u64,
            shader: 0,
            pipeline: ComputeProgram { pipeline: 0, pipeline_layout: 0, descriptor_set_layout: 0 },
            buffer: 0,
            descriptor_pool: 0,
            descriptor_set: 0,
            command_pool: 0,
            command_buffer: 0,
            step: SampleStep::Instance,
        };
        (sample, SampleAction::CreateInstance("renderer-capi compute sample".to_string()))
    }

    /// Takes what came of the last action and says what to do next.
    pub fn advance(&mut self, event: SampleEvent) -> (action: SampleAction)
        requires
            old(self).expects(event),
        ensures
            *final(self) == old(self).after(event),
            final(self).asks(event, action),
    {
        match event {
            SampleEvent::Failed(error) => {
                self.step = SampleStep::Over;
                return SampleAction::Finish(Err(error));
            },
            SampleEvent::Contents(data) => {
                self.step = SampleStep::Over;
                return SampleAction::Finish(Ok(data));
            },
            SampleEvent::MadePipeline(pipeline) => {
                self.pipeline = pipeline;
            },
            SampleEvent::Made(handle) => {
                match self.step {
                    SampleStep::Shader => self.shader = handle,
                    SampleStep::Buffer => self.buffer = handle,
                    SampleStep::DescriptorPool => self.descriptor_pool = handle,
                    SampleStep::DescriptorSet => self.descriptor_set = handle,
                    SampleStep::CommandPool => self.command_pool = handle,
                    _ => self.command_buffer = handle,
                }
            },
            SampleEvent::Done => {},
        }
        self.proceed()
    }

    /// Goes on to the step that follows.
    fn proceed(&mut self) -> (action: SampleAction)
        requires
            !(old(self).step is Read),
            !(old(self).step is Over),
        ensures
            *final(self) == (ComputeSample { step: old(self).step.following(), ..*old(self) }),
            forall|event: SampleEvent| #[trigger] final(self).asks(event, action),
    {
        match self.step {
            SampleStep::Instance => {
                self.step = SampleStep::Device;
                SampleAction::CreateDevice
            },
            SampleStep::Device => {
                self.step = SampleStep::Shader;
                SampleAction::CreateShader(copy_bytes(self.spirv.as_slice()))
            },
            SampleStep::Shader => {
                self.step = SampleStep::Pipeline;
                SampleAction::CreatePipeline {
                    shader: self.shader,
                    entry_point: "main".to_string(),
                    binding: Binding { binding: 0, descriptor: DESCRIPTOR_STORAGE_BUFFER },
                }
            },
            SampleStep::Pipeline => {
                self.step = SampleStep::Buffer;
                SampleAction::CreateBuffer { size: self.buffer_size, usage: USAGE_STORAGE_BUFFER }
            },
            SampleStep::Buffer => {
                self.step = SampleStep::DescriptorPool;
                SampleAction::CreateDescriptorPool {
                    kind: DESCRIPTOR_STORAGE_BUFFER,
                    count: 1,
                    max_sets: 1,
                }
            },
            SampleStep::DescriptorPool => {
                self.step = SampleStep::DescriptorSet;
                SampleAction::AllocateSet {
                    pool: self.descriptor_pool,
                    layout: self.pipeline.descriptor_set_layout,
                }
            },
            SampleStep::DescriptorSet => {
                self.step = SampleStep::CommandPool;
                SampleAction::BindAndCreateCommandPool {
                    set: self.descriptor_set,
                    binding: 0,
                    kind: DESCRIPTOR_STORAGE_BUFFER,
                    buffer: self.buffer,
                    range: self.buffer_size,
                }
            },
            SampleStep::CommandPool => {
                self.step = SampleStep::CommandBuffer;
                SampleAction::AllocateCommandBuffer { pool: self.command_pool }
            },
            SampleStep::CommandBuffer => {
                self.step = SampleStep::Begin;
                SampleAction::BeginRecording { command_buffer: self.command_buffer }
            },
            SampleStep::Begin => {
                self.step = SampleStep::End;
                let mut commands: Vec<FrameCommand> = Vec::new();
                push_dispatch(
                    &mut commands,
                    self.pipeline.pipeline,
                    self.pipeline.pipeline_layout,
                    self.descriptor_set,
                    self.groups,
                );
                proof {
                    let recorded = dispatch_commands(
                        self.pipeline.pipeline,
                        self.pipeline.pipeline_layout,
                        self.descriptor_set,
                        self.groups.x,
                        self.groups.y,
                        self.groups.z,
                    );
                    assert(Seq::<FrameCommand>::empty() + recorded == recorded);
                }
                SampleAction::Record { command_buffer: self.command_buffer, commands }
            },
            SampleStep::End => {
                self.step = SampleStep::Submit;
                SampleAction::Submit { command_buffer: self.command_buffer }
            },
            SampleStep::Submit => {
                self.step = SampleStep::WaitIdle;
                SampleAction::WaitIdle
            },
            _ => {
                self.step = SampleStep::Read;
                SampleAction::DestroyPoolsAndRead {
                    command_pool: self.command_pool,
                    descriptor_pool: self.descriptor_pool,
                    buffer: self.buffer,
                    size: self.buffer_size,
                }
            },
        }
    }
}

/// The status and, if all went well, the bytes to hand out. Without a shader
/// or without a place for the bytes nothing is run at all.
pub fn sample_status(run: Option<Result<Vec<u8>, Error>>) -> (status: (
    RendererCapiStatus,
    Option<Vec<u8>>,
))
    ensures
        match run {
            None => status == (RendererCapiStatus::ErrorInvalidArgument, None::<Vec<u8>>),
            Some(Err(_)) => status == (RendererCapiStatus::ErrorVulkan, None::<Vec<u8>>),
            Some(Ok(data)) => status == (RendererCapiStatus::Success, Some(data)),
        },
{
    match run {
        None => (RendererCapiStatus::ErrorInvalidArgument, None),
        Some(Err(_)) => (RendererCapiStatus::ErrorVulkan, None),
        Some(Ok(data)) => (RendererCapiStatus::Success, Some(data)),
    }
}

/// Nothing is handed out that does not fit the place for it: the bytes of a
/// run that went well are as many as the buffer has.
pub proof fn the_contents_fit(sample: ComputeSample, event: SampleEvent, data: Vec<u8>)
    requires
        sample.expects(event),
        sample.after(event).asks(event, SampleAction::Finish(Ok(data))),
    ensures
        data@.len() == sample.buffer_size,
        sample.step is Read,
{
}

} // verus!
