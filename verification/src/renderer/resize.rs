//! Moving a renderer to a new size, one fallible step at a time.
//!
//! `SwapchainRenderer::recreate` begins a `Resize`. Each `ResizeAction` is
//! carried out and answered with a `ResizeEvent`, until the resize is over.
//! Until then the renderer stays as it is, and a resize that fails leaves it
//! so.

use crate::renderer::compute::{blit_plan, plan_blit, BlitPlan};
use crate::renderer::creation::{PartsAction, PartsEvent, PartsProgress, PartsSetup};
use crate::renderer::resources::{
    parts_teardown, pass_teardown, push_parts, BlitResources, Destroy, GraphicsShaders,
    SwapchainParts,
};
use crate::renderer::surface::{Error, SwapchainPlan};
use crate::renderer::swapchain::{rebinding, GraphicsProgram, Recreated, SwapchainRenderer};
use vstd::prelude::*;

verus! {

/// What a resize has reached.
#[derive(Debug)]
pub enum ResizeStep {
    /// What depends on the size is being built.
    Parts(PartsSetup),
    /// It is built, and the blit pass is being built for it.
    Blit(SwapchainParts),
    /// The resize is over.
    Over,
}

/// A move to the size of a planned swapchain.
#[derive(Debug)]
pub struct Resize {
    pub plan: SwapchainPlan,
    pub step: ResizeStep,
}

/// What to do next.
#[derive(Debug)]
pub enum ResizeAction {
    /// Build one of the things that depend on the size.
    Build(PartsAction),
    /// Build the output image and the blit pass.
    CreateBlit(BlitPlan),
    /// The renderer has the new size: bind what is to be bound, and give back
    /// what it had before.
    Finish(Recreated),
    /// The renderer is as it was: give back what was built in vain.
    Fail(Error, Vec<Destroy>),
}

/// What came of an action.
#[derive(Debug)]
pub enum ResizeEvent {
    Part(PartsEvent),
    Blit(BlitResources),
    BlitFailed(Error),
}

impl Resize {
    /// The steps go with the renderer, and build on the shaders it draws with.
    pub open spec fn well_formed(self, renderer: SwapchainRenderer) -> bool {
        match self.step {
            ResizeStep::Parts(setup) => {
                &&& setup.well_formed()
                &&& setup.plan == self.plan
                &&& setup.surface == renderer.surface
                &&& setup.old_swapchain == renderer.parts.swapchain
                &&& setup.shaders.code() == renderer.parts.shaders.code()
            },
            ResizeStep::Blit(parts) => {
                &&& renderer.blit is Some
                &&& parts.image_views@.len() == parts.framebuffers@.len()
                &&& parts.shaders.code() == renderer.parts.shaders.code()
            },
            ResizeStep::Over => true,
        }
    }

    /// Whether an event can answer what was last asked for.
    pub open spec fn expects(self, event: ResizeEvent) -> bool {
        match self.step {
            ResizeStep::Parts(setup) => event matches ResizeEvent::Part(event) && setup.expects(
                event,
            ),
            ResizeStep::Blit(_) => event is Blit || event is BlitFailed,
            ResizeStep::Over => false,
        }
    }

    /// Whether the renderer takes over what was built: it is given a new size
    /// and gives back what it had for the old one.
    pub open spec fn ends(
        self,
        before: SwapchainRenderer,
        parts: SwapchainParts,
        blit: Option<BlitResources>,
        next: Resize,
        after: SwapchainRenderer,
        action: ResizeAction,
    ) -> bool {
        &&& after == before.resized(self.plan.extent, parts, blit)
        &&& next.step is Over
        &&& action matches ResizeAction::Finish(recreated) && {
            &&& recreated.destroy@ == pass_teardown(before.blit) + parts_teardown(before.parts)
            &&& recreated.rebind == rebinding(before.compute, blit)
        }
    }

    /// Whether nothing comes of it: the renderer stays as it was, and what was
    /// built is given back.
    pub open spec fn fails(
        before: SwapchainRenderer,
        error: Error,
        built: Seq<Destroy>,
        next: Resize,
        after: SwapchainRenderer,
        action: ResizeAction,
    ) -> bool {
        &&& after == before
        &&& next.step is Over
        &&& action matches ResizeAction::Fail(reason, destroy) && {
            &&& reason == error
            &&& destroy@ == built
        }
    }

    /// Whether an event makes this resize the resize `next`, and the renderer
    /// `before` the renderer `after`, and calls for `action`. There is a blit
    /// pass afterwards if there was one before.
    pub open spec fn leads_to(
        self,
        before: SwapchainRenderer,
        event: ResizeEvent,
        next: Resize,
        after: SwapchainRenderer,
        action: ResizeAction,
    ) -> bool {
        &&& next.plan == self.plan
        &&& match (self.step, event) {
            (ResizeStep::Parts(_), ResizeEvent::Part(PartsEvent::Failed(error))) => Self::fails(
                before,
                error,
                Seq::empty(),
                next,
                after,
                action,
            ),
            (ResizeStep::Parts(setup), ResizeEvent::Part(PartsEvent::Pipeline(program))) => {
                let parts = setup.parts(program);
                if before.blit is Some {
                    &&& after == before
                    &&& next.step == ResizeStep::Blit(parts)
                    &&& action == ResizeAction::CreateBlit(
                        blit_plan(
                            self.plan.extent,
                            parts.render_pass,
                            before.frame.command_buffer,
                        ),
                    )
                } else {
                    self.ends(before, parts, None, next, after, action)
                }
            },
            (ResizeStep::Parts(setup), ResizeEvent::Part(event)) => {
                &&& after == before
                &&& next.step is Parts
                &&& setup.leads_to(event, next.step->Parts_0)
                &&& action is Build
                &&& next.step->Parts_0.asks(action->Build_0)
            },
            (ResizeStep::Blit(parts), ResizeEvent::Blit(blit)) => self.ends(
                before,
                parts,
                Some(blit),
                next,
                after,
                action,
            ),
            (ResizeStep::Blit(parts), ResizeEvent::BlitFailed(error)) => Self::fails(
                before,
                error,
                parts_teardown(parts),
                next,
                after,
                action,
            ),
            _ => false,
        }
    }

    /// Takes what came of the last action and says what to do next.
    pub fn advance(self, renderer: &mut SwapchainRenderer, event: ResizeEvent) -> (next: (
        Resize,
        ResizeAction,
    ))
        requires
            old(renderer).well_formed(),
            self.well_formed(*old(renderer)),
            self.expects(event),
        ensures
            final(renderer).well_formed(),
            next.0.well_formed(*final(renderer)),
            self.leads_to(*old(renderer), event, next.0, *final(renderer), next.1),
    {
        let Resize { plan, step } = self;
        let (step, action) = match (step, event) {
            (ResizeStep::Parts(setup), ResizeEvent::Part(event)) => match setup.advance(event) {
                PartsProgress::Next(setup, action) => {
                    (ResizeStep::Parts(setup), ResizeAction::Build(action))
                },
                PartsProgress::Finished(Err(error)) => {
                    (ResizeStep::Over, ResizeAction::Fail(error, Vec::new()))
                },
                PartsProgress::Finished(Ok(parts)) => if renderer.blit.is_some() {
                    let asked = plan_blit(
                        plan.extent,
                        parts.render_pass,
                        renderer.frame.command_buffer,
                    );
                    (ResizeStep::Blit(parts), ResizeAction::CreateBlit(asked))
                } else {
                    let recreated = renderer.take_over(plan.extent, parts, None);
                    (ResizeStep::Over, ResizeAction::Finish(recreated))
                },
            },
            (ResizeStep::Blit(parts), ResizeEvent::Blit(blit)) => {
                let recreated = renderer.take_over(plan.extent, parts, Some(blit));
                (ResizeStep::Over, ResizeAction::Finish(recreated))
            },
            (ResizeStep::Blit(parts), ResizeEvent::BlitFailed(error)) => {
                let mut destroy: Vec<Destroy> = Vec::new();
                push_parts(&mut destroy, &parts);
                assert(destroy@ == parts_teardown(parts));
                (ResizeStep::Over, ResizeAction::Fail(error, destroy))
            },
            _ => (ResizeStep::Over, ResizeAction::Fail(Error::NoSuitableDevice, Vec::new())),
        };
        (Resize { plan, step }, action)
    }
}

impl SwapchainRenderer {
    /// Begins to move to the size of a planned swapchain, which replaces the
    /// present one. The pipeline is built anew, from the shaders it draws with
    /// at present.
    pub fn recreate(&self, plan: SwapchainPlan) -> (begun: (Resize, ResizeAction))
        ensures
            begun.0.well_formed(*self),
            begun.0.plan == plan,
            begun.0.step is Parts,
            begun.0.step->Parts_0.step is Swapchain,
            begun.1 == ResizeAction::Build(
                PartsAction::CreateSwapchain {
                    surface: self.surface,
                    plan,
                    old_swapchain: self.parts.swapchain,
                },
            ),
    {
        let (setup, action) = PartsSetup::begin(
            plan,
            self.surface,
            self.parts.swapchain,
            self.parts.shaders.duplicate(),
        );
        (Resize { plan, step: ResizeStep::Parts(setup) }, ResizeAction::Build(action))
    }
}

/// A moment of a resize: where it stands, the renderer, what was last asked
/// for, and what comes of that.
pub struct Moment {
    pub resize: Resize,
    pub renderer: SwapchainRenderer,
    pub action: ResizeAction,
    pub event: ResizeEvent,
}

/// Whether each moment follows from the one before it.
pub open spec fn is_resize(moments: Seq<Moment>) -> bool {
    forall|i: int|
        0 < i < moments.len() ==> {
            let before = moments[i - 1];
            let now = #[trigger] moments[i];
            &&& before.resize.well_formed(before.renderer)
            &&& before.resize.expects(before.event)
            &&& now.resize.well_formed(now.renderer)
            &&& before.resize.leads_to(
                before.renderer,
                before.event,
                now.resize,
                now.renderer,
                now.action,
            )
        }
}

/// A change of size keeps the shaders, whatever comes of it: at every moment
/// the renderer draws with those it drew with before, and if a pipeline is
/// built, it is built from them.
pub proof fn a_change_of_size_keeps_the_shaders(moments: Seq<Moment>, i: int)
    requires
        is_resize(moments),
        0 <= i < moments.len(),
    ensures
        moments[i].renderer.parts.shaders.code() == moments[0].renderer.parts.shaders.code(),
        i > 0 ==> match moments[i].action {
            ResizeAction::Build(PartsAction::CreatePipeline(plan)) => plan.shaders.code()
                == moments[0].renderer.parts.shaders.code(),
            _ => true,
        },
    decreases i,
{
    if i > 0 {
        a_change_of_size_keeps_the_shaders(moments, i - 1);
        let before = moments[i - 1];
        let now = moments[i];
        assert(before.resize.leads_to(
            before.renderer,
            before.event,
            now.resize,
            now.renderer,
            now.action,
        ));
    }
}

/// The shaders last set stay through a change of size, and are what a pipeline
/// for the new size is built from.
pub proof fn the_shaders_last_set_stay(
    renderer: SwapchainRenderer,
    shaders: GraphicsShaders,
    program: GraphicsProgram,
    moments: Seq<Moment>,
    i: int,
)
    requires
        is_resize(moments),
        0 <= i < moments.len(),
        moments[0].renderer == renderer.drawing_with(shaders, program),
    ensures
        moments[i].renderer.parts.shaders.code() == shaders.code(),
        i > 0 ==> match moments[i].action {
            ResizeAction::Build(PartsAction::CreatePipeline(plan)) => plan.shaders.code()
                == shaders.code(),
            _ => true,
        },
{
    a_change_of_size_keeps_the_shaders(moments, i);
}

/// A change of size keeps a compute shader in use, and touches nothing that
/// does not depend on the size; and it keeps everything if it fails.
pub proof fn a_change_of_size_keeps_the_rest(
    resize: Resize,
    before: SwapchainRenderer,
    event: ResizeEvent,
    next: Resize,
    after: SwapchainRenderer,
    action: ResizeAction,
)
    requires
        resize.leads_to(before, event, next, after, action),
    ensures
        after == before.resized(after.extent, after.parts, after.blit),
        !(action is Finish) ==> after == before,
{
}

} // verus!
