//! Building what a renderer owns, one fallible call at a time: what depends
//! on the size of the surface, and what does not.

use crate::renderer::resources::{FrameParts, GraphicsShaders, SwapchainParts};
use crate::renderer::surface::{Error, Extent, SwapchainPlan};
use crate::renderer::swapchain::GraphicsProgram;
use vstd::prelude::*;

verus! {

/// How many timestamps a frame writes.
pub const TIMESTAMPS_PER_FRAME: u32 = 2;

/// What building for a size has reached. There is a view and a framebuffer
/// for each image, and both are built one after the other.
#[derive(Clone, Copy, PartialEq, Eq, Structural, Debug)]
pub enum PartsStep {
    Swapchain,
    Images,
    View,
    RenderPass,
    Framebuffer,
    Pipeline,
}

/// A graphics pipeline to build.
#[derive(Debug)]
pub struct PipelinePlan {
    pub render_pass: u64,
    pub extent: Extent,
    pub shaders: GraphicsShaders,
}

/// Building for a size, with what there is so far. What there is not yet is
/// zero, or empty. `old_swapchain` is the one that is to be replaced, or zero.
#[derive(Debug)]
pub struct PartsSetup {
    pub plan: SwapchainPlan,
    pub surface: u64,
    pub old_swapchain: u64,
    pub shaders: GraphicsShaders,
    pub swapchain: u64,
    pub images: Vec<u64>,
    pub image_views: Vec<u64>,
    pub render_pass: u64,
    pub framebuffers: Vec<u64>,
    pub step: PartsStep,
}

/// What to do next.
#[derive(Debug)]
pub enum PartsAction {
    /// Create a swapchain for the surface, in place of an old one if there is
    /// one.
    CreateSwapchain { surface: u64, plan: SwapchainPlan, old_swapchain: u64 },
    /// Ask for the images of the swapchain.
    GetImages { swapchain: u64 },
    /// Create a view of an image.
    CreateImageView { image: u64, format: i32 },
    /// Create a render pass that presents.
    CreateRenderPass { format: i32 },
    /// Create a framebuffer that shows a view.
    CreateFramebuffer { render_pass: u64, view: u64, extent: Extent },
    /// Create the graphics pipeline.
    CreatePipeline(PipelinePlan),
}

/// What came of an action.
#[derive(Debug)]
pub enum PartsEvent {
    Made(u64),
    Images(Vec<u64>),
    Pipeline(GraphicsProgram),
    Failed(Error),
}

/// What follows.
#[derive(Debug)]
pub enum PartsProgress {
    /// There is more to do.
    Next(PartsSetup, PartsAction),
    /// Everything is built, or something failed.
    Finished(Result<SwapchainParts, Error>),
}

impl PartsSetup {
    /// The steps come in order, and each finds what it builds on.
    pub open spec fn well_formed(self) -> bool {
        &&& self.step is Swapchain || self.step is Images ==> self.image_views@.len() == 0
        &&& self.step is View ==> self.image_views@.len() < self.images@.len()
        &&& self.step is RenderPass || self.step is Framebuffer || self.step is Pipeline
            ==> self.image_views@.len() == self.images@.len()
        &&& self.step is Framebuffer ==> self.framebuffers@.len() < self.image_views@.len()
        &&& self.step is Pipeline ==> self.framebuffers@.len() == self.image_views@.len()
        &&& !(self.step is Framebuffer || self.step is Pipeline) ==> self.framebuffers@.len() == 0
    }

    /// Whether an event can answer what was last asked for.
    pub open spec fn expects(self, event: PartsEvent) -> bool {
        event is Failed || match self.step {
            PartsStep::Images => event is Images,
            PartsStep::Pipeline => event is Pipeline,
            _ => event is Made,
        }
    }

    /// The step after the views so far.
    pub open spec fn after_views(views: nat, images: nat) -> PartsStep {
        if views < images {
            PartsStep::View
        } else {
            PartsStep::RenderPass
        }
    }

    /// The step after the framebuffers so far.
    pub open spec fn after_framebuffers(framebuffers: nat, views: nat) -> PartsStep {
        if framebuffers < views {
            PartsStep::Framebuffer
        } else {
            PartsStep::Pipeline
        }
    }

    /// Whether `next` is where an event leads: what was made is added to what
    /// there was, in order.
    pub open spec fn leads_to(self, event: PartsEvent, next: PartsSetup) -> bool {
        match (self.step, event) {
            (PartsStep::Swapchain, PartsEvent::Made(swapchain)) => next == (PartsSetup {
                swapchain,
                step: PartsStep::Images,
                ..self
            }),
            (PartsStep::Images, PartsEvent::Images(images)) => next == (PartsSetup {
                images,
                step: Self::after_views(0, images@.len()),
                ..self
            }),
            (PartsStep::View, PartsEvent::Made(view)) => {
                &&& next.image_views@ == self.image_views@.push(view)
                &&& next == (PartsSetup {
                    image_views: next.image_views,
                    step: Self::after_views(self.image_views@.len() + 1, self.images@.len()),
                    ..self
                })
            },
            (PartsStep::RenderPass, PartsEvent::Made(render_pass)) => next == (PartsSetup {
                render_pass,
                step: Self::after_framebuffers(0, self.image_views@.len()),
                ..self
            }),
            (PartsStep::Framebuffer, PartsEvent::Made(framebuffer)) => {
                &&& next.framebuffers@ == self.framebuffers@.push(framebuffer)
                &&& next == (PartsSetup {
                    framebuffers: next.framebuffers,
                    step: Self::after_framebuffers(
                        self.framebuffers@.len() + 1,
                        self.image_views@.len(),
                    ),
                    ..self
                })
            },
            _ => false,
        }
    }

    /// Whether `action` is what the present step asks for: the next view is of
    /// the next image, the next framebuffer shows the next view, and the
    /// pipeline is built from the shaders that were given.
    pub open spec fn asks(self, action: PartsAction) -> bool {
        match self.step {
            PartsStep::Swapchain => action == (PartsAction::CreateSwapchain {
                surface: self.surface,
                plan: self.plan,
                old_swapchain: self.old_swapchain,
            }),
            PartsStep::Images => action == (PartsAction::GetImages { swapchain: self.swapchain }),
            PartsStep::View => action == (PartsAction::CreateImageView {
                image: self.images@[self.image_views@.len() as int],
                format: self.plan.format.format,
            }),
            PartsStep::RenderPass => action == (PartsAction::CreateRenderPass {
                format: self.plan.format.format,
            }),
            PartsStep::Framebuffer => action == (PartsAction::CreateFramebuffer {
                render_pass: self.render_pass,
                view: self.image_views@[self.framebuffers@.len() as int],
                extent: self.plan.extent,
            }),
            PartsStep::Pipeline => action matches PartsAction::CreatePipeline(plan) && {
                &&& plan.render_pass == self.render_pass
                &&& plan.extent == self.plan.extent
                &&& plan.shaders.code() == self.shaders.code()
            },
        }
    }

    /// Everything, once there is a pipeline.
    pub open spec fn parts(self, program: GraphicsProgram) -> SwapchainParts {
        SwapchainParts {
            swapchain: self.swapchain,
            image_views: self.image_views,
            render_pass: self.render_pass,
            framebuffers: self.framebuffers,
            pipeline: program.pipeline,
            pipeline_layout: program.pipeline_layout,
            shaders: self.shaders,
        }
    }

    /// Whether `progress` is where an event leads.
    pub open spec fn yields(self, event: PartsEvent, progress: PartsProgress) -> bool {
        match event {
            PartsEvent::Failed(error) => progress == PartsProgress::Finished(Err(error)),
            PartsEvent::Pipeline(program) => {
                &&& progress == PartsProgress::Finished(Ok(self.parts(program)))
                &&& self.image_views@.len() == self.images@.len()
                &&& self.framebuffers@.len() == self.images@.len()
            },
            _ => {
                &&& progress is Next
                &&& self.leads_to(event, progress->Next_0)
                &&& progress->Next_0.well_formed()
                &&& progress->Next_0.asks(progress->Next_1)
            },
        }
    }

    fn ask(&self) -> (action: PartsAction)
        requires
            self.well_formed(),
        ensures
            self.asks(action),
    {
        match self.step {
            PartsStep::Swapchain => PartsAction::CreateSwapchain {
                surface: self.surface,
                plan: self.plan,
                old_swapchain: self.old_swapchain,
            },
            PartsStep::Images => PartsAction::GetImages { swapchain: self.swapchain },
            PartsStep::View => PartsAction::CreateImageView {
                image: self.images[self.image_views.len()],
                format: self.plan.format.format,
            },
            PartsStep::RenderPass => PartsAction::CreateRenderPass {
                format: self.plan.format.format,
            },
            PartsStep::Framebuffer => PartsAction::CreateFramebuffer {
                render_pass: self.render_pass,
                view: self.image_views[self.framebuffers.len()],
                extent: self.plan.extent,
            },
            PartsStep::Pipeline => PartsAction::CreatePipeline(
                PipelinePlan {
                    render_pass: self.render_pass,
                    extent: self.plan.extent,
                    shaders: self.shaders.duplicate(),
                },
            ),
        }
    }

    /// Begins to build for a planned swapchain, which replaces an old one
    /// unless that is zero, and to draw with these shaders.
    pub fn begin(
        plan: SwapchainPlan,
        surface: u64,
        old_swapchain: u64,
        shaders: GraphicsShaders,
    ) -> (begun: (PartsSetup, PartsAction))
        ensures
            begun.0.well_formed(),
            begun.0.step is Swapchain,
            begun.0.plan == plan,
            begun.0.surface == surface,
            begun.0.old_swapchain == old_swapchain,
            begun.0.shaders == shaders,
            begun.0.asks(begun.1),
    {
        let setup = PartsSetup {
            plan,
            surface,
            old_swapchain,
            shaders,
            swapchain: 0,
            images: Vec::new(),
            image_views: Vec::new(),
            render_pass: 0,
            framebuffers: Vec::new(),
            step: PartsStep::Swapchain,
        };
        let action = setup.ask();
        (setup, action)
    }

    /// Takes what came of the last action and says what to do next. Every
    /// image of a finished swapchain has a view and a framebuffer.
    pub fn advance(self, event: PartsEvent) -> (progress: PartsProgress)
        requires
            self.well_formed(),
            self.expects(event),
        ensures
            self.yields(event, progress),
    {
        let mut next = self;
        match event {
            PartsEvent::Failed(error) => {
                return PartsProgress::Finished(Err(error));
            },
            PartsEvent::Pipeline(program) => {
                return PartsProgress::Finished(
                    Ok(
                        SwapchainParts {
                            swapchain: next.swapchain,
                            image_views: next.image_views,
                            render_pass: next.render_pass,
                            framebuffers: next.framebuffers,
                            pipeline: program.pipeline,
                            pipeline_layout: program.pipeline_layout,
                            shaders: next.shaders,
                        },
                    ),
                );
            },
            PartsEvent::Images(images) => {
                next.step = if images.len() > 0 {
                    PartsStep::View
                } else {
                    PartsStep::RenderPass
                };
                next.images = images;
            },
            PartsEvent::Made(handle) => {
                match next.step {
                    PartsStep::Swapchain => {
                        next.swapchain = handle;
                        next.step = PartsStep::Images;
                    },
                    PartsStep::View => {
                        next.image_views.push(handle);
                        if next.image_views.len() == next.images.len() {
                            next.step = PartsStep::RenderPass;
                        }
                    },
                    PartsStep::RenderPass => {
                        next.render_pass = handle;
                        next.step = if next.image_views.len() > 0 {
                            PartsStep::Framebuffer
                        } else {
                            PartsStep::Pipeline
                        };
                    },
                    _ => {
                        next.framebuffers.push(handle);
                        if next.framebuffers.len() == next.image_views.len() {
                            next.step = PartsStep::Pipeline;
                        }
                    },
                }
            },
        }
        let action = next.ask();
        PartsProgress::Next(next, action)
    }
}

/// What building for frames has reached.
#[derive(Clone, Copy, PartialEq, Eq, Structural, Debug)]
pub enum FramePartsStep {
    CommandPool,
    CommandBuffer,
    ImageAvailable,
    RenderFinished,
    InFlight,
    QueryPool,
}

/// Building for frames, with what there is so far. What there is not yet is
/// zero.
#[derive(Clone, Copy, PartialEq, Eq, Structural, Debug)]
pub struct FramePartsSetup {
    pub parts: FrameParts,
    pub step: FramePartsStep,
}

/// What to do next.
#[derive(Clone, Copy, PartialEq, Eq, Structural, Debug)]
pub enum FramePartsAction {
    /// Create a command pool whose buffers can be reset.
    CreateCommandPool,
    /// Allocate a command buffer.
    AllocateCommandBuffer { pool: u64 },
    /// Create a semaphore.
    CreateSemaphore,
    /// Create a fence, signaled or not.
    CreateFence { signaled: bool },
    /// Create a pool of timestamps.
    CreateQueryPool { count: u32 },
}

/// What follows.
#[derive(Debug)]
pub enum FramePartsProgress {
    /// There is more to do.
    Next(FramePartsSetup, FramePartsAction),
    /// Everything is built, or something failed.
    Finished(Result<FrameParts, Error>),
}

impl FramePartsSetup {
    /// What the present step asks for. The fence starts out signaled, so that
    /// the first frame has nothing to wait for.
    pub open spec fn asks(self) -> FramePartsAction {
        match self.step {
            FramePartsStep::CommandPool => FramePartsAction::CreateCommandPool,
            FramePartsStep::CommandBuffer => FramePartsAction::AllocateCommandBuffer {
                pool: self.parts.command_pool,
            },
            FramePartsStep::ImageAvailable => FramePartsAction::CreateSemaphore,
            FramePartsStep::RenderFinished => FramePartsAction::CreateSemaphore,
            FramePartsStep::InFlight => FramePartsAction::CreateFence { signaled: true },
            FramePartsStep::QueryPool => FramePartsAction::CreateQueryPool {
                count: TIMESTAMPS_PER_FRAME,
            },
        }
    }

    /// Where something made leads.
    pub open spec fn after(self, handle: u64) -> FramePartsSetup {
        match self.step {
            FramePartsStep::CommandPool => FramePartsSetup {
                parts: FrameParts { command_pool: handle, ..self.parts },
                step: FramePartsStep::CommandBuffer,
            },
            FramePartsStep::CommandBuffer => FramePartsSetup {
                parts: FrameParts { command_buffer: handle, ..self.parts },
                step: FramePartsStep::ImageAvailable,
            },
            FramePartsStep::ImageAvailable => FramePartsSetup {
                parts: FrameParts { image_available: handle, ..self.parts },
                step: FramePartsStep::RenderFinished,
            },
            FramePartsStep::RenderFinished => FramePartsSetup {
                parts: FrameParts { render_finished: handle, ..self.parts },
                step: FramePartsStep::InFlight,
            },
            FramePartsStep::InFlight => FramePartsSetup {
                parts: FrameParts { in_flight: handle, ..self.parts },
                step: FramePartsStep::QueryPool,
            },
            FramePartsStep::QueryPool => FramePartsSetup {
                parts: FrameParts { timestamp_query_pool: handle, ..self.parts },
                step: FramePartsStep::QueryPool,
            },
        }
    }

    fn ask(&self) -> (action: FramePartsAction)
        ensures
            action == self.asks(),
    {
        match self.step {
            FramePartsStep::CommandPool => FramePartsAction::CreateCommandPool,
            FramePartsStep::CommandBuffer => FramePartsAction::AllocateCommandBuffer {
                pool: self.parts.command_pool,
            },
            FramePartsStep::ImageAvailable => FramePartsAction::CreateSemaphore,
            FramePartsStep::RenderFinished => FramePartsAction::CreateSemaphore,
            FramePartsStep::InFlight => FramePartsAction::CreateFence { signaled: true },
            FramePartsStep::QueryPool => FramePartsAction::CreateQueryPool {
                count: TIMESTAMPS_PER_FRAME,
            },
        }
    }

    /// Begins to build, with nothing there yet.
    pub fn begin() -> (begun: (FramePartsSetup, FramePartsAction))
        ensures
            begun.0 == (FramePartsSetup {
                parts: FrameParts {
                    command_pool: 0,
                    command_buffer: 0,
                    image_available: 0,
                    render_finished: 0,
                    in_flight: 0,
                    timestamp_query_pool: 0,
                },
                step: FramePartsStep::CommandPool,
            }),
            begun.1 is CreateCommandPool,
    {
        let setup = FramePartsSetup {
            parts: FrameParts {
                command_pool: 0,
                command_buffer: 0,
                image_available: 0,
                render_finished: 0,
                in_flight: 0,
                timestamp_query_pool: 0,
            },
            step: FramePartsStep::CommandPool,
        };
        let action = setup.ask();
        (setup, action)
    }

    /// Takes what was made, or why it was not, and says what to do next.
    pub fn advance(self, made: Result<u64, Error>) -> (progress: FramePartsProgress)
        ensures
            match made {
                Err(error) => progress == FramePartsProgress::Finished(Err(error)),
                Ok(handle) => if self.step is QueryPool {
                    progress == FramePartsProgress::Finished(Ok(self.after(handle).parts))
                } else {
                    progress == FramePartsProgress::Next(
                        self.after(handle),
                        self.after(handle).asks(),
                    )
                },
            },
    {
        let handle: u64 = match made {
            Ok(handle) => handle,
            Err(error) => {
                return FramePartsProgress::Finished(Err(error));
            },
        };
        let mut next = self;
        match next.step {
            FramePartsStep::CommandPool => {
                next.parts.command_pool = handle;
                next.step = FramePartsStep::CommandBuffer;
            },
            FramePartsStep::CommandBuffer => {
                next.parts.command_buffer = handle;
                next.step = FramePartsStep::ImageAvailable;
            },
            FramePartsStep::ImageAvailable => {
                next.parts.image_available = handle;
                next.step = FramePartsStep::RenderFinished;
            },
            FramePartsStep::RenderFinished => {
                next.parts.render_finished = handle;
                next.step = FramePartsStep::InFlight;
            },
            FramePartsStep::InFlight => {
                next.parts.in_flight = handle;
                next.step = FramePartsStep::QueryPool;
            },
            FramePartsStep::QueryPool => {
                next.parts.timestamp_query_pool = handle;
                return FramePartsProgress::Finished(Ok(next.parts));
            },
        }
        let action = next.ask();
        FramePartsProgress::Next(next, action)
    }
}

/// Nothing that was made for frames is lost: what comes out holds each of
/// the handles, in the order they were made.
pub proof fn everything_made_for_frames_is_kept(
    begun: FramePartsSetup,
    pool: u64,
    buffer: u64,
    available: u64,
    finished: u64,
    fence: u64,
    queries: u64,
)
    requires
        begun.step is CommandPool,
    ensures
        begun.after(pool).after(buffer).after(available).after(finished).after(fence).after(
            queries,
        ).parts == (FrameParts {
            command_pool: pool,
            command_buffer: buffer,
            image_available: available,
            render_finished: finished,
            in_flight: fence,
            timestamp_query_pool: queries,
        }),
{
}

} // verus!
