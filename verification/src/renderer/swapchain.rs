//! A renderer that presents to one surface: what it owns and remembers
//! between frames, apart from the calls that act on it.

use crate::renderer::creation::PipelinePlan;
use crate::renderer::resources::{
    compute_teardown, frame_teardown, parts_teardown, pass_teardown, push_compute, push_frame,
    push_parts, push_pass, BlitResources, ComputeStage, Destroy, FrameParts, GraphicsShaders,
    SwapchainParts,
};
use crate::renderer::surface::{Error, Extent, SwapchainPlan};
use crate::renderer::touch::{TouchEvent, TouchState};
use vstd::prelude::*;

verus! {

/// Who made the device and its driver.
#[derive(Debug)]
pub struct DeviceInfo {
    pub gpu_name: String,
    pub driver_version: u32,
    pub vendor_id: u32,
    pub device_id: u32,
    pub api_version: u32,
}

/// A graphics pipeline and its layout.
#[derive(Clone, Copy, PartialEq, Eq, Structural, Debug)]
pub struct GraphicsProgram {
    pub pipeline: u64,
    pub pipeline_layout: u64,
}

/// A storage image that a descriptor set must be made to refer to.
#[derive(Clone, Copy, PartialEq, Eq, Structural, Debug)]
pub struct ImageWrite {
    pub descriptor_set: u64,
    pub binding: u32,
    pub image_view: u64,
}

/// What follows a change of size: what to give back, and the descriptor to
/// point at the new output image, if a compute shader is in use.
#[derive(Debug)]
pub struct Recreated {
    pub destroy: Vec<Destroy>,
    pub rebind: Option<ImageWrite>,
}

/// A renderer for one surface, with one frame in flight at a time.
///
/// `blit` is the pass that shows what a compute shader writes. It is built
/// for the first one, whether or not that comes into use, and serves every
/// later one. `frame_counter` counts the frames a compute shader ran in and, unlike
/// `touch`, outlives the shader. `last_gpu_ticks` is how long the last
/// finished frame took on the device, known one frame late.
#[derive(Debug)]
pub struct SwapchainRenderer {
    pub surface: u64,
    pub extent: Extent,
    pub parts: SwapchainParts,
    pub frame: FrameParts,
    pub device_info: DeviceInfo,
    pub has_submitted_frame: bool,
    pub last_gpu_ticks: Option<u64>,
    pub blit: Option<BlitResources>,
    pub compute: Option<ComputeStage>,
    pub frame_counter: u32,
    pub touch: TouchState,
}

/// Where the output image must be bound after the blit pass changed.
pub open spec fn rebinding(compute: Option<ComputeStage>, blit: Option<BlitResources>) -> Option<
    ImageWrite,
> {
    match (compute, blit) {
        (Some(stage), Some(fresh)) => Some(
            ImageWrite {
                descriptor_set: stage.descriptor_set,
                binding: stage.output_texture_binding,
                image_view: fresh.output_image_view,
            },
        ),
        _ => None,
    }
}

impl SwapchainRenderer {
    /// Every image has a framebuffer, and what a compute shader in use writes
    /// can be shown.
    pub open spec fn well_formed(self) -> bool {
        &&& self.parts.image_views@.len() == self.parts.framebuffers@.len()
        &&& self.compute is Some ==> self.blit is Some
    }

    /// Giving back everything, in an order in which nothing is used by what
    /// is still there.
    pub open spec fn teardown(self) -> Seq<Destroy> {
        compute_teardown(self.compute) + pass_teardown(self.blit) + frame_teardown(self.frame)
            + parts_teardown(self.parts) + seq![Destroy::Surface(self.surface)]
    }

    /// A renderer that has not rendered anything. It takes over the surface
    /// along with everything in `parts` and `frame`.
    pub fn new(
        plan: &SwapchainPlan,
        surface: u64,
        parts: SwapchainParts,
        frame: FrameParts,
        device_info: DeviceInfo,
    ) -> (renderer: SwapchainRenderer)
        requires
            parts.image_views@.len() == parts.framebuffers@.len(),
        ensures
            renderer.well_formed(),
            renderer == (SwapchainRenderer {
                surface,
                extent: plan.extent,
                parts,
                frame,
                device_info,
                has_submitted_frame: false,
                last_gpu_ticks: None,
                blit: None,
                compute: None,
                frame_counter: 0,
                touch: TouchState::untouched(),
            }),
    {
        SwapchainRenderer {
            surface,
            extent: plan.extent,
            parts,
            frame,
            device_info,
            has_submitted_frame: false,
            last_gpu_ticks: None,
            blit: None,
            compute: None,
            frame_counter: 0,
            touch: TouchState::default(),
        }
    }

    /// The size of the surface in pixels.
    pub fn extent(&self) -> (extent: Extent)
        ensures
            extent == self.extent,
    {
        self.extent
    }

    /// Who made the device and its driver.
    pub fn device_info(&self) -> (info: &DeviceInfo)
        ensures
            *info == self.device_info,
    {
        &self.device_info
    }

    /// How long the last finished frame took on the device, in ticks.
    pub fn last_gpu_frame_ticks(&self) -> (ticks: Option<u64>)
        ensures
            ticks == self.last_gpu_ticks,
    {
        self.last_gpu_ticks
    }

    /// A press at `(x, y)`.
    pub fn touch_down(&mut self, x: u32, y: u32)
        ensures
            *final(self) == (SwapchainRenderer {
                touch: old(self).touch.after(TouchEvent::Down { x, y }),
                ..*old(self)
            }),
    {
        self.touch.down(x, y);
    }

    /// A movement to `(x, y)`.
    pub fn touch_move(&mut self, x: u32, y: u32)
        ensures
            *final(self) == (SwapchainRenderer {
                touch: old(self).touch.after(TouchEvent::Move { x, y }),
                ..*old(self)
            }),
    {
        self.touch.moved(x, y);
    }

    /// A release.
    pub fn touch_up(&mut self)
        ensures
            *final(self) == (SwapchainRenderer {
                touch: old(self).touch.after(TouchEvent::Up),
                ..*old(self)
            }),
    {
        self.touch.up();
    }

    /// Takes each of `events` into account, in order.
    pub fn touch_all(&mut self, events: &Vec<TouchEvent>)
        ensures
            *final(self) == (SwapchainRenderer {
                touch: old(self).touch.after_all(events@),
                ..*old(self)
            }),
    {
        let ghost before = *self;
        let mut i: usize = 0;
        assert(events@.take(0).len() == 0);
        while i < events.len()
            invariant
                i <= events.len(),
                *self == (SwapchainRenderer {
                    touch: before.touch.after_all(events@.take(i as int)),
                    ..before
                }),
            decreases events.len() - i,
        {
            assert(events@.take(i + 1).drop_last() == events@.take(i as int));
            match events[i] {
                TouchEvent::Down { x, y } => self.touch_down(x, y),
                TouchEvent::Move { x, y } => self.touch_move(x, y),
                TouchEvent::Up => self.touch_up(),
            }
            i += 1;
        }
        assert(events@.take(events@.len() as int) == events@);
    }

    /// Plans a pipeline that draws with other shaders.
    pub fn plan_shaders(&self, shaders: GraphicsShaders) -> (plan: PipelinePlan)
        ensures
            plan == (PipelinePlan {
                render_pass: self.parts.render_pass,
                extent: self.extent,
                shaders,
            }),
    {
        PipelinePlan { render_pass: self.parts.render_pass, extent: self.extent, shaders }
    }

    /// The renderer with a pipeline that was built from `shaders`.
    pub open spec fn drawing_with(
        self,
        shaders: GraphicsShaders,
        program: GraphicsProgram,
    ) -> SwapchainRenderer {
        SwapchainRenderer {
            parts: SwapchainParts {
                pipeline: program.pipeline,
                pipeline_layout: program.pipeline_layout,
                shaders,
                ..self.parts
            },
            ..self
        }
    }

    /// Puts a graphics pipeline that was just built to a plan in place of the
    /// one in use, which is to be given back once the device is idle. If
    /// building it failed, the one in use stays.
    pub fn set_shaders(
        &mut self,
        plan: PipelinePlan,
        built: Result<GraphicsProgram, Error>,
    ) -> (destroy: Result<Vec<Destroy>, Error>)
        ensures
            match built {
                Ok(program) => {
                    &&& destroy is Ok
                    &&& destroy->Ok_0@ == seq![
                        Destroy::Pipeline(old(self).parts.pipeline),
                        Destroy::PipelineLayout(old(self).parts.pipeline_layout),
                    ]
                    &&& *final(self) == old(self).drawing_with(plan.shaders, program)
                },
                Err(error) => {
                    &&& destroy == Err::<Vec<Destroy>, Error>(error)
                    &&& *final(self) == *old(self)
                },
            },
    {
        match built {
            Ok(program) => {
                let mut destroy: Vec<Destroy> = Vec::new();
                destroy.push(Destroy::Pipeline(self.parts.pipeline));
                destroy.push(Destroy::PipelineLayout(self.parts.pipeline_layout));
                self.parts.pipeline = program.pipeline;
                self.parts.pipeline_layout = program.pipeline_layout;
                self.parts.shaders = plan.shaders;
                Ok(destroy)
            },
            Err(error) => Err(error),
        }
    }

    /// The renderer at another size.
    pub open spec fn resized(
        self,
        extent: Extent,
        parts: SwapchainParts,
        blit: Option<BlitResources>,
    ) -> SwapchainRenderer {
        SwapchainRenderer { extent, parts, blit, ..self }
    }

    /// Moves to a new size. `parts` and, if there is a blit pass, `blit` were
    /// built for it; what they replace is given back. A compute shader stays
    /// in use, writing to the new output image.
    pub(crate) fn take_over(
        &mut self,
        extent: Extent,
        parts: SwapchainParts,
        blit: Option<BlitResources>,
    ) -> (recreated: Recreated)
        requires
            old(self).well_formed(),
            parts.image_views@.len() == parts.framebuffers@.len(),
            blit is Some <==> old(self).blit is Some,
        ensures
            final(self).well_formed(),
            *final(self) == old(self).resized(extent, parts, blit),
            recreated.destroy@ == pass_teardown(old(self).blit) + parts_teardown(old(self).parts),
            recreated.rebind == rebinding(old(self).compute, blit),
    {
        let mut destroy: Vec<Destroy> = Vec::new();
        let rebind = match (self.compute, blit) {
            (Some(stage), Some(fresh)) => Some(
                ImageWrite {
                    descriptor_set: stage.descriptor_set,
                    binding: stage.output_texture_binding,
                    image_view: fresh.output_image_view,
                },
            ),
            _ => None,
        };
        push_pass(&mut destroy, &self.blit);
        push_parts(&mut destroy, &self.parts);
        assert(destroy@ == pass_teardown(old(self).blit) + parts_teardown(old(self).parts));
        self.extent = extent;
        self.parts = parts;
        self.blit = blit;
        Recreated { destroy, rebind }
    }

    /// Everything to give back when the renderer goes away, in order.
    pub fn drop_order(&self) -> (destroy: Vec<Destroy>)
        ensures
            destroy@ == self.teardown(),
    {
        let mut destroy: Vec<Destroy> = Vec::new();
        push_compute(&mut destroy, &self.compute);
        push_pass(&mut destroy, &self.blit);
        push_frame(&mut destroy, &self.frame);
        push_parts(&mut destroy, &self.parts);
        destroy.push(Destroy::Surface(self.surface));
        assert(destroy@ == self.teardown());
        destroy
    }
}

/// Nothing is given back before what was made from it: framebuffers go
/// before the render pass and the views they show, views before the
/// swapchain, and everything before the surface.
pub proof fn teardown_order_is_safe(renderer: SwapchainRenderer, f: int, v: int)
    requires
        0 <= f < renderer.parts.framebuffers@.len(),
        0 <= v < renderer.parts.image_views@.len(),
    ensures
        ({
            let order = renderer.teardown();
            let n = order.len() as int;
            let views = renderer.parts.image_views@.len() as int;
            let framebuffers = renderer.parts.framebuffers@.len() as int;
            &&& order[n - 1] == Destroy::Surface(renderer.surface)
            &&& order[n - 2] == Destroy::Swapchain(renderer.parts.swapchain)
            &&& order[n - 2 - views + v] == Destroy::ImageView(renderer.parts.image_views@[v])
            &&& order[n - 3 - views] == Destroy::RenderPass(renderer.parts.render_pass)
            &&& order[n - 3 - views - framebuffers + f] == Destroy::Framebuffer(
                renderer.parts.framebuffers@[f],
            )
        }),
{
    let front = compute_teardown(renderer.compute) + pass_teardown(renderer.blit)
        + frame_teardown(renderer.frame);
    let parts = parts_teardown(renderer.parts);
    let order = renderer.teardown();
    assert(order == front + parts + seq![Destroy::Surface(renderer.surface)]);
    let views = renderer.parts.image_views@.len() as int;
    let framebuffers = renderer.parts.framebuffers@.len() as int;
    assert(parts.len() == 4 + views + framebuffers);
    assert(order[order.len() - 2 - views + v] == parts[parts.len() - 1 - views + v]);
    assert(order[order.len() - 3 - views - framebuffers + f] == parts[parts.len() - 2 - views
        - framebuffers + f]);
}

proof fn lemma_multiset_of_concat(a: Seq<Destroy>, b: Seq<Destroy>)
    ensures
        (a + b).to_multiset() == a.to_multiset().add(b.to_multiset()),
{
    vstd::seq_lib::lemma_multiset_commutative(a, b);
}

/// A change of size neither leaks nor gives anything back twice: what the
/// renderer owned and what was built for the new size is what it owns now
/// and what was given back.
pub proof fn recreating_accounts_for_everything(
    before: SwapchainRenderer,
    parts: SwapchainParts,
    blit: Option<BlitResources>,
    extent: Extent,
)
    requires
        blit is Some <==> before.blit is Some,
    ensures
        ({
            let after = before.resized(extent, parts, blit);
            let given_back = pass_teardown(before.blit) + parts_teardown(before.parts);
            let built = pass_teardown(blit) + parts_teardown(parts);
            after.teardown().to_multiset().add(given_back.to_multiset())
                =~= before.teardown().to_multiset().add(built.to_multiset())
        }),
{
    let surface = seq![Destroy::Surface(before.surface)];
    let frame = frame_teardown(before.frame);
    let shader = compute_teardown(before.compute);
    let new_blit = pass_teardown(blit);
    let old_blit = pass_teardown(before.blit);
    lemma_multiset_of_concat(shader, old_blit);
    lemma_multiset_of_concat(shader, new_blit);
    lemma_multiset_of_concat(shader + old_blit, frame);
    lemma_multiset_of_concat(shader + new_blit, frame);
    lemma_multiset_of_concat(shader + old_blit + frame, parts_teardown(before.parts));
    lemma_multiset_of_concat(shader + new_blit + frame, parts_teardown(parts));
    lemma_multiset_of_concat(
        shader + old_blit + frame + parts_teardown(before.parts),
        surface,
    );
    lemma_multiset_of_concat(shader + new_blit + frame + parts_teardown(parts), surface);
    lemma_multiset_of_concat(old_blit, parts_teardown(before.parts));
    lemma_multiset_of_concat(new_blit, parts_teardown(parts));
}

} // verus!
