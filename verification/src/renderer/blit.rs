//! Building the image a compute shader writes and the pass that shows it,
//! one fallible call at a time.

use crate::renderer::compute::{
    blit_plan, BlitPlan, BLIT_SAMPLER_BINDING, DESCRIPTOR_COMBINED_IMAGE_SAMPLER,
};
use crate::renderer::frame::{
    first_use_barrier, ImageBarrier, ACCESS_SHADER_READ, ACCESS_SHADER_WRITE, LAYOUT_GENERAL,
    LAYOUT_UNDEFINED, STAGE_COMPUTE_SHADER, STAGE_FRAGMENT_SHADER, STAGE_TOP_OF_PIPE,
};
use crate::renderer::resources::BlitResources;
use crate::renderer::surface::{Error, Extent};
use crate::renderer::swapchain::GraphicsProgram;
use vstd::prelude::*;

verus! {

/// Between the nearest pixels (`VkFilter`, `VkSamplerMipmapMode`).
pub const FILTER_LINEAR: i32 = 1;

/// The nearest pixel of the edge, outside (`VkSamplerAddressMode`).
pub const ADDRESS_CLAMP_TO_EDGE: i32 = 2;

/// What building has reached.
#[derive(Clone, Copy, PartialEq, Eq, Structural, Debug)]
pub enum BlitStep {
    Image,
    Sampler,
    Transition,
    Layout,
    Pool,
    DescriptorSet,
    Pipeline,
}

/// Building for a plan, with what there is so far. What there is not yet is
/// zero.
#[derive(Clone, Copy, PartialEq, Eq, Structural, Debug)]
pub struct BlitSetup {
    pub plan: BlitPlan,
    pub blit: BlitResources,
    pub step: BlitStep,
}

/// What to do next.
#[derive(Clone, Copy, PartialEq, Eq, Structural, Debug)]
pub enum BlitAction {
    /// Create an image, and a view of it.
    CreateImage { extent: Extent, format: i32, usage: u32 },
    /// Create a sampler.
    CreateSampler { filter: i32, mipmap_mode: i32, address_mode: i32 },
    /// Run nothing but this barrier, and wait until it has run.
    Transition { command_buffer: u64, barrier: ImageBarrier },
    /// Create a layout of so many descriptors for fragment shaders.
    CreateSetLayout { binding: u32, kind: i32, count: u32 },
    /// Create a pool for so many sets of so many descriptors.
    CreatePool { kind: i32, count: u32, max_sets: u32 },
    /// Allocate a set.
    AllocateSet { pool: u64, layout: u64 },
    /// Bind the image to the set, and create the pipeline that shows it.
    BindAndCreatePipeline {
        set: u64,
        binding: u32,
        kind: i32,
        sampler: u64,
        image_view: u64,
        image_layout: i32,
        set_layout: u64,
        render_pass: u64,
        extent: Extent,
    },
}

/// What came of an action.
#[derive(Debug)]
pub enum BlitEvent {
    Image { image: u64, view: u64, memory: u64 },
    Made(u64),
    Done,
    Pipeline(GraphicsProgram),
    Failed(Error),
}

/// What follows.
#[derive(Debug)]
pub enum BlitProgress {
    /// There is more to do.
    Next(BlitSetup, BlitAction),
    /// Everything is built, or something failed.
    Finished(Result<BlitResources, Error>),
}

impl BlitSetup {
    /// Whether an event can answer what was last asked for.
    pub open spec fn expects(self, event: BlitEvent) -> bool {
        event is Failed || match self.step {
            BlitStep::Image => event is Image,
            BlitStep::Transition => event is Done,
            BlitStep::Pipeline => event is Pipeline,
            _ => event is Made,
        }
    }

    /// Where an event leads.
    pub open spec fn after(self, event: BlitEvent) -> BlitSetup {
        match (self.step, event) {
            (BlitStep::Image, BlitEvent::Image { image, view, memory }) => BlitSetup {
                blit: BlitResources {
                    output_image: image,
                    output_image_view: view,
                    output_image_memory: memory,
                    ..self.blit
                },
                step: BlitStep::Sampler,
                ..self
            },
            (BlitStep::Sampler, BlitEvent::Made(sampler)) => BlitSetup {
                blit: BlitResources { sampler, ..self.blit },
                step: BlitStep::Transition,
                ..self
            },
            (BlitStep::Transition, _) => BlitSetup { step: BlitStep::Layout, ..self },
            (BlitStep::Layout, BlitEvent::Made(descriptor_set_layout)) => BlitSetup {
                blit: BlitResources { descriptor_set_layout, ..self.blit },
                step: BlitStep::Pool,
                ..self
            },
            (BlitStep::Pool, BlitEvent::Made(descriptor_pool)) => BlitSetup {
                blit: BlitResources { descriptor_pool, ..self.blit },
                step: BlitStep::DescriptorSet,
                ..self
            },
            (BlitStep::DescriptorSet, BlitEvent::Made(descriptor_set)) => BlitSetup {
                blit: BlitResources { descriptor_set, ..self.blit },
                step: BlitStep::Pipeline,
                ..self
            },
            (BlitStep::Pipeline, BlitEvent::Pipeline(program)) => BlitSetup {
                blit: BlitResources {
                    pipeline: program.pipeline,
                    pipeline_layout: program.pipeline_layout,
                    ..self.blit
                },
                ..self
            },
            _ => self,
        }
    }

    /// What the present step asks for. The image leaves its first layout for
    /// good before anything uses it.
    pub open spec fn asks(self) -> BlitAction {
        match self.step {
            BlitStep::Image => BlitAction::CreateImage {
                extent: self.plan.extent,
                format: self.plan.format,
                usage: self.plan.usage,
            },
            BlitStep::Sampler => BlitAction::CreateSampler {
                filter: FILTER_LINEAR,
                mipmap_mode: FILTER_LINEAR,
                address_mode: ADDRESS_CLAMP_TO_EDGE,
            },
            BlitStep::Transition => BlitAction::Transition {
                command_buffer: self.plan.command_buffer,
                barrier: first_use_barrier(self.blit.output_image),
            },
            BlitStep::Layout => BlitAction::CreateSetLayout {
                binding: self.plan.sampler_binding,
                kind: self.plan.sampler_descriptor,
                count: self.plan.descriptor_count,
            },
            BlitStep::Pool => BlitAction::CreatePool {
                kind: self.plan.sampler_descriptor,
                count: self.plan.descriptor_count,
                max_sets: self.plan.max_sets,
            },
            BlitStep::DescriptorSet => BlitAction::AllocateSet {
                pool: self.blit.descriptor_pool,
                layout: self.blit.descriptor_set_layout,
            },
            BlitStep::Pipeline => BlitAction::BindAndCreatePipeline {
                set: self.blit.descriptor_set,
                binding: self.plan.sampler_binding,
                kind: self.plan.sampler_descriptor,
                sampler: self.blit.sampler,
                image_view: self.blit.output_image_view,
                image_layout: LAYOUT_GENERAL,
                set_layout: self.blit.descriptor_set_layout,
                render_pass: self.plan.render_pass,
                extent: self.plan.extent,
            },
        }
    }

    fn ask(&self) -> (action: BlitAction)
        ensures
            action == self.asks(),
    {
        match self.step {
            BlitStep::Image => BlitAction::CreateImage {
                extent: self.plan.extent,
                format: self.plan.format,
                usage: self.plan.usage,
            },
            BlitStep::Sampler => BlitAction::CreateSampler {
                filter: FILTER_LINEAR,
                mipmap_mode: FILTER_LINEAR,
                address_mode: ADDRESS_CLAMP_TO_EDGE,
            },
            BlitStep::Transition => BlitAction::Transition {
                command_buffer: self.plan.command_buffer,
                barrier: first_use(self.blit.output_image),
            },
            BlitStep::Layout => BlitAction::CreateSetLayout {
                binding: self.plan.sampler_binding,
                kind: self.plan.sampler_descriptor,
                count: self.plan.descriptor_count,
            },
            BlitStep::Pool => BlitAction::CreatePool {
                kind: self.plan.sampler_descriptor,
                count: self.plan.descriptor_count,
                max_sets: self.plan.max_sets,
            },
            BlitStep::DescriptorSet => BlitAction::AllocateSet {
                pool: self.blit.descriptor_pool,
                layout: self.blit.descriptor_set_layout,
            },
            BlitStep::Pipeline => BlitAction::BindAndCreatePipeline {
                set: self.blit.descriptor_set,
                binding: self.plan.sampler_binding,
                kind: self.plan.sampler_descriptor,
                sampler: self.blit.sampler,
                image_view: self.blit.output_image_view,
                image_layout: LAYOUT_GENERAL,
                set_layout: self.blit.descriptor_set_layout,
                render_pass: self.plan.render_pass,
                extent: self.plan.extent,
            },
        }
    }

    /// Begins to build what a plan describes, with nothing there yet.
    pub fn create_blit_resources(plan: BlitPlan) -> (begun: (BlitSetup, BlitAction))
        ensures
            begun.0 == (BlitSetup {
                plan,
                blit: BlitResources {
                    output_image: 0,
                    output_image_view: 0,
                    output_image_memory: 0,
                    sampler: 0,
                    pipeline: 0,
                    pipeline_layout: 0,
                    descriptor_set_layout: 0,
                    descriptor_pool: 0,
                    descriptor_set: 0,
                },
                step: BlitStep::Image,
            }),
            begun.1 == begun.0.asks(),
    {
        let setup = BlitSetup {
            plan,
            blit: BlitResources {
                output_image: 0,
                output_image_view: 0,
                output_image_memory: 0,
                sampler: 0,
                pipeline: 0,
                pipeline_layout: 0,
                descriptor_set_layout: 0,
                descriptor_pool: 0,
                descriptor_set: 0,
            },
            step: BlitStep::Image,
        };
        let action = setup.ask();
        (setup, action)
    }

    /// Takes what came of the last action and says what to do next.
    pub fn advance(self, event: BlitEvent) -> (progress: BlitProgress)
        requires
            self.expects(event),
        ensures
            match event {
                BlitEvent::Failed(error) => progress == BlitProgress::Finished(Err(error)),
                BlitEvent::Pipeline(_) => progress == BlitProgress::Finished(
                    Ok(self.after(event).blit),
                ),
                _ => progress == BlitProgress::Next(self.after(event), self.after(event).asks()),
            },
    {
        let mut next = self;
        match event {
            BlitEvent::Failed(error) => {
                return BlitProgress::Finished(Err(error));
            },
            BlitEvent::Pipeline(program) => {
                next.blit.pipeline = program.pipeline;
                next.blit.pipeline_layout = program.pipeline_layout;
                return BlitProgress::Finished(Ok(next.blit));
            },
            BlitEvent::Image { image, view, memory } => {
                next.blit.output_image = image;
                next.blit.output_image_view = view;
                next.blit.output_image_memory = memory;
                next.step = BlitStep::Sampler;
            },
            BlitEvent::Done => {
                next.step = BlitStep::Layout;
            },
            BlitEvent::Made(handle) => {
                match next.step {
                    BlitStep::Sampler => {
                        next.blit.sampler = handle;
                        next.step = BlitStep::Transition;
                    },
                    BlitStep::Layout => {
                        next.blit.descriptor_set_layout = handle;
                        next.step = BlitStep::Pool;
                    },
                    BlitStep::Pool => {
                        next.blit.descriptor_pool = handle;
                        next.step = BlitStep::DescriptorSet;
                    },
                    _ => {
                        next.blit.descriptor_set = handle;
                        next.step = BlitStep::Pipeline;
                    },
                }
            },
        }
        let action = next.ask();
        BlitProgress::Next(next, action)
    }
}

fn first_use(image: u64) -> (barrier: ImageBarrier)
    ensures
        barrier == first_use_barrier(image),
{
    ImageBarrier {
        image,
        old_layout: LAYOUT_UNDEFINED,
        new_layout: LAYOUT_GENERAL,
        src_stage: STAGE_TOP_OF_PIPE,
        dst_stage: STAGE_COMPUTE_SHADER | STAGE_FRAGMENT_SHADER,
        src_access: 0,
        dst_access: ACCESS_SHADER_WRITE | ACCESS_SHADER_READ,
    }
}

/// The pass is built around the image it shows: the set is of the layout the
/// pipeline expects, and is bound to the view that was made along with the
/// image.
pub proof fn the_pass_shows_its_image(
    begun: BlitSetup,
    image: u64,
    view: u64,
    memory: u64,
    sampler: u64,
    layout: u64,
    pool: u64,
    set: u64,
    program: GraphicsProgram,
)
    requires
        begun.step is Image,
        begun.plan == blit_plan(
            begun.plan.extent,
            begun.plan.render_pass,
            begun.plan.command_buffer,
        ),
    ensures
        ({
            let ready = begun.after(BlitEvent::Image { image, view, memory }).after(
                BlitEvent::Made(sampler),
            ).after(BlitEvent::Done).after(BlitEvent::Made(layout)).after(
                BlitEvent::Made(pool),
            ).after(BlitEvent::Made(set));
            &&& ready.asks() == (BlitAction::BindAndCreatePipeline {
                set,
                binding: BLIT_SAMPLER_BINDING,
                kind: DESCRIPTOR_COMBINED_IMAGE_SAMPLER,
                sampler,
                image_view: view,
                image_layout: LAYOUT_GENERAL,
                set_layout: layout,
                render_pass: begun.plan.render_pass,
                extent: begun.plan.extent,
            })
            &&& ready.after(BlitEvent::Pipeline(program)).blit == (BlitResources {
                output_image: image,
                output_image_view: view,
                output_image_memory: memory,
                sampler,
                pipeline: program.pipeline,
                pipeline_layout: program.pipeline_layout,
                descriptor_set_layout: layout,
                descriptor_pool: pool,
                descriptor_set: set,
            })
        }),
{
}

} // verus!
