//! What the render loop of the device app does for a frame: it puts a shader
//! that arrived in use, applies the touches that came in, renders, and leaves
//! the time a frame took for the bridge, in this order.

use crate::android::pending_perf::{set_perf_sample, PerfSampleRecord, PerfSlots};
use crate::android::pending_shader::{take, PendingShader, ShaderSlot};
use crate::android::touch_input::{drain, TouchQueue};
use crate::renderer::compute::{
    begun_setup, ComputeRequest, ComputeSetup, SetupAction, SetupEvent,
};
use crate::renderer::frame::{FrameAction, FrameEvent, FrameStep, FrameTask};
use crate::renderer::resources::{Destroy, UniformBufferLayout};
use crate::renderer::surface::Error;
use crate::renderer::swapchain::SwapchainRenderer;
use crate::renderer::touch::TouchEvent;
use vstd::prelude::*;

verus! {

/// The renderer of one surface of the device app. `frame_counter` numbers
/// its frames, whether or not a compute shader ran in them.
#[derive(Debug)]
pub struct Renderer {
    pub swapchain_renderer: SwapchainRenderer,
    pub frame_counter: u32,
}

/// What a frame of the device app has reached.
#[derive(Debug)]
pub enum DeviceStep {
    /// The shader that arrived is being put in use.
    Preparing(ComputeSetup),
    /// What is not needed any more is being given back.
    GivingBack,
    /// The touches are applied, and the frame is being rendered.
    Rendering(FrameTask),
    /// The frame ended like this, and it is being found out how long the last
    /// finished one took.
    Measuring(Result<bool, Error>),
    /// The frame is over.
    Over,
}

/// A frame of the device app under way.
#[derive(Debug)]
pub struct DeviceFrame {
    pub step: DeviceStep,
}

/// What to do next.
#[derive(Debug)]
pub enum DeviceAction {
    /// Do this to put the requested shader in use.
    Prepare(SetupAction),
    /// Give these back.
    GiveBack(Vec<Destroy>),
    /// Do this to render.
    Render(FrameAction),
    /// Find out how long the last finished frame took.
    Measure,
    /// The frame is over: presented, skipped, or failed.
    Finish(Result<bool, Error>),
}

/// What came of it.
#[derive(Debug)]
pub enum DeviceEvent {
    Setup(SetupEvent),
    GivenBack,
    Frame(FrameEvent),
    /// The bit pattern of a single-precision number of milliseconds, if it is
    /// known.
    Measured(Option<u32>),
}

/// What a frame of the device app reads and changes.
pub struct Scene {
    pub renderer: Renderer,
    pub touches: Seq<TouchEvent>,
    pub perf: PerfSlots,
}

/// What a shader needs for the numbers it asks for, if it asks for any.
pub open spec fn uniforms_of(shader: PendingShader) -> Option<UniformBufferLayout> {
    if shader.uniform_buffer_size > 0 {
        Some(
            UniformBufferLayout {
                size: shader.uniform_buffer_size,
                time_offset: shader.time_offset,
                frame_id_offset: shader.frame_id_offset,
                mouse_position_offset: shader.mouse_position_offset,
            },
        )
    } else {
        None
    }
}

/// What putting a shader in use asks of the renderer.
pub open spec fn request_of(shader: PendingShader) -> ComputeRequest {
    ComputeRequest {
        spirv: shader.compute_spirv,
        entry_point: shader.entry_point,
        thread_group_size: shader.thread_group_size,
        output_texture_binding: shader.output_texture_binding,
        uniforms: uniforms_of(shader),
    }
}

/// The number that follows a frame's.
pub open spec fn following(frame_number: u32) -> u32 {
    if frame_number == u32::MAX {
        0
    } else {
        (frame_number + 1) as u32
    }
}

/// The slots once the time of the last finished frame is left in them, if it
/// is known, under a frame's number.
pub open spec fn sampled(perf: PerfSlots, frame_id: u32, gpu_time_ms: Option<u32>) -> PerfSlots {
    match gpu_time_ms {
        Some(gpu_time_ms) => PerfSlots {
            perf_sample: Some(PerfSampleRecord { frame_id, gpu_time_ms }),
            ..perf
        },
        None => perf,
    }
}

impl Renderer {
    /// The renderer with other contents.
    pub open spec fn holding(self, swapchain_renderer: SwapchainRenderer) -> Renderer {
        Renderer { swapchain_renderer, ..self }
    }

    /// The renderer once touches are applied, in order, and a frame is
    /// numbered.
    pub open spec fn drawing(self, touches: Seq<TouchEvent>) -> Renderer {
        Renderer {
            swapchain_renderer: SwapchainRenderer {
                touch: self.swapchain_renderer.touch.after_all(touches),
                ..self.swapchain_renderer
            },
            frame_counter: following(self.frame_counter),
        }
    }

    /// A renderer that has not rendered anything.
    pub fn new(swapchain_renderer: SwapchainRenderer) -> (renderer: Renderer)
        ensures
            renderer == (Renderer { swapchain_renderer, frame_counter: 0 }),
    {
        Renderer { swapchain_renderer, frame_counter: 0 }
    }

    /// Begins a frame. If a shader arrived, putting it in use comes first, and
    /// the touches wait.
    pub fn render_frame(&mut self, slot: &mut ShaderSlot, touches: &mut TouchQueue) -> (begun: (
        DeviceFrame,
        DeviceAction,
    ))
        requires
            old(self).swapchain_renderer.well_formed(),
        ensures
            final(self).swapchain_renderer.well_formed(),
            begun.0.well_formed(final(self).swapchain_renderer),
            *final(slot) is None,
            match *old(slot) {
                None => {
                    &&& draws(begun.0.step, begun.1, *old(self))
                    &&& *final(self) == old(self).drawing(old(touches)@)
                    &&& final(touches)@ == Seq::<TouchEvent>::empty()
                },
                Some(shader) => {
                    let setup = begun_setup(request_of(shader), old(self).swapchain_renderer);
                    &&& begun.0.step == DeviceStep::Preparing(setup)
                    &&& begun.1 is Prepare
                    &&& setup.asks(begun.1->Prepare_0, final(self).swapchain_renderer)
                    &&& *final(self) == old(self).holding(
                        old(self).swapchain_renderer.untouched(),
                    )
                    &&& final(touches)@ == old(touches)@
                },
            },
    {
        match take(slot) {
            None => {
                let (step, action) = self.draw(touches);
                (DeviceFrame { step }, action)
            },
            Some(shader) => {
                let uniforms = if shader.uniform_buffer_size > 0 {
                    Some(
                        UniformBufferLayout {
                            size: shader.uniform_buffer_size,
                            time_offset: shader.time_offset,
                            frame_id_offset: shader.frame_id_offset,
                            mouse_position_offset: shader.mouse_position_offset,
                        },
                    )
                } else {
                    None
                };
                let request = ComputeRequest {
                    spirv: shader.compute_spirv,
                    entry_point: shader.entry_point,
                    thread_group_size: shader.thread_group_size,
                    output_texture_binding: shader.output_texture_binding,
                    uniforms,
                };
                let (setup, action) = self.swapchain_renderer.set_compute_shader(request);
                (
                    DeviceFrame { step: DeviceStep::Preparing(setup) },
                    DeviceAction::Prepare(action),
                )
            },
        }
    }

    /// Applies the touches that came in, in order, numbers the frame, and
    /// begins to render it.
    fn draw(&mut self, touches: &mut TouchQueue) -> (begun: (DeviceStep, DeviceAction))
        ensures
            *final(self) == old(self).drawing(old(touches)@),
            final(touches)@ == Seq::<TouchEvent>::empty(),
            draws(begun.0, begun.1, *old(self)),
    {
        let events = drain(touches);
        self.swapchain_renderer.touch_all(&events);
        self.frame_counter = self.frame_counter.wrapping_add(1);
        let (task, action) = self.swapchain_renderer.render_frame();
        (DeviceStep::Rendering(task), DeviceAction::Render(action))
    }
}

/// Whether a frame has just begun to be rendered.
pub open spec fn draws(step: DeviceStep, action: DeviceAction, renderer: Renderer) -> bool {
    let fence = renderer.swapchain_renderer.frame.in_flight;
    &&& step == DeviceStep::Rendering(FrameTask { step: FrameStep::WaitFence })
    &&& action == DeviceAction::Render(FrameAction::WaitFence { fence })
}

impl DeviceFrame {
    /// What is under way is not over, and goes with the renderer.
    pub open spec fn well_formed(self, renderer: SwapchainRenderer) -> bool {
        match self.step {
            DeviceStep::Preparing(setup) => {
                &&& setup.well_formed()
                &&& setup.begun_by(renderer)
                &&& !(setup.step is Finished)
            },
            DeviceStep::Rendering(task) => !(task.step is Finished),
            _ => true,
        }
    }

    /// Whether an event can come next.
    pub open spec fn expects(self, event: DeviceEvent, renderer: SwapchainRenderer) -> bool {
        match self.step {
            DeviceStep::Preparing(setup) => event matches DeviceEvent::Setup(event)
                && setup.expects(event),
            DeviceStep::GivingBack => event is GivenBack,
            DeviceStep::Rendering(task) => event matches DeviceEvent::Frame(event)
                && task.expects(event, renderer),
            DeviceStep::Measuring(_) => event is Measured,
            DeviceStep::Over => false,
        }
    }

    /// Whether an event makes this frame the frame `next`, and the scene
    /// `before` the scene `after`, and calls for `action`. A shader that
    /// cannot be put in use is let go, and the frame goes on without it.
    pub open spec fn leads_to(
        self,
        before: Scene,
        event: DeviceEvent,
        next: DeviceFrame,
        after: Scene,
        action: DeviceAction,
    ) -> bool {
        let renderer = before.renderer.swapchain_renderer;
        match (self.step, event) {
            (DeviceStep::Preparing(setup), DeviceEvent::Setup(event)) => {
                let now = setup.after(event);
                &&& after == (Scene {
                    renderer: before.renderer.holding(setup.effect(event, renderer)),
                    ..before
                })
                &&& if now.step is Finished {
                    &&& next.step is GivingBack
                    &&& action is GiveBack
                    &&& action->GiveBack_0@ == setup.given_back(event, renderer)
                } else {
                    &&& next.step == DeviceStep::Preparing(now)
                    &&& action is Prepare
                    &&& now.asks(action->Prepare_0, after.renderer.swapchain_renderer)
                }
            },
            (DeviceStep::GivingBack, DeviceEvent::GivenBack) => {
                &&& after == (Scene {
                    renderer: before.renderer.drawing(before.touches),
                    touches: Seq::empty(),
                    ..before
                })
                &&& draws(next.step, action, before.renderer)
            },
            (DeviceStep::Rendering(task), DeviceEvent::Frame(event)) => {
                let step = task.next_step(event, renderer.has_submitted_frame);
                &&& after == (Scene {
                    renderer: before.renderer.holding(task.effect(event, renderer)),
                    ..before
                })
                &&& if step is Finished {
                    &&& next.step == DeviceStep::Measuring(task.outcome(event))
                    &&& action is Measure
                } else {
                    &&& next.step == DeviceStep::Rendering(FrameTask { step })
                    &&& action is Render
                    &&& task.leads_to(event, step, renderer, action->Render_0)
                }
            },
            (DeviceStep::Measuring(result), DeviceEvent::Measured(gpu_time_ms)) => {
                &&& after == (Scene {
                    perf: sampled(before.perf, before.renderer.frame_counter, gpu_time_ms),
                    ..before
                })
                &&& next.step is Over
                &&& action == DeviceAction::Finish(result)
            },
            _ => false,
        }
    }

    /// Takes what came of the last action and says what to do next.
    pub fn advance(
        self,
        renderer: &mut Renderer,
        touches: &mut TouchQueue,
        perf: &mut PerfSlots,
        event: DeviceEvent,
    ) -> (next: (DeviceFrame, DeviceAction))
        requires
            old(renderer).swapchain_renderer.well_formed(),
            self.well_formed(old(renderer).swapchain_renderer),
            self.expects(event, old(renderer).swapchain_renderer),
        ensures
            final(renderer).swapchain_renderer.well_formed(),
            next.0.well_formed(final(renderer).swapchain_renderer),
            self.leads_to(
                (Scene { renderer: *old(renderer), touches: old(touches)@, perf: *old(perf) }),
                event,
                next.0,
                (Scene {
                    renderer: *final(renderer),
                    touches: final(touches)@,
                    perf: *final(perf),
                }),
                next.1,
            ),
    {
        let (step, action) = match (self.step, event) {
            (DeviceStep::Preparing(begun), DeviceEvent::Setup(event)) => {
                let mut setup = begun;
                match setup.advance(&mut renderer.swapchain_renderer, event) {
                    SetupAction::Finish(_, destroy) => {
                        (DeviceStep::GivingBack, DeviceAction::GiveBack(destroy))
                    },
                    action => (DeviceStep::Preparing(setup), DeviceAction::Prepare(action)),
                }
            },
            (DeviceStep::GivingBack, _) => renderer.draw(touches),
            (DeviceStep::Rendering(begun), DeviceEvent::Frame(event)) => {
                let mut task = begun;
                match task.advance(&mut renderer.swapchain_renderer, event) {
                    FrameAction::Finish(result) => {
                        (DeviceStep::Measuring(result), DeviceAction::Measure)
                    },
                    action => (DeviceStep::Rendering(task), DeviceAction::Render(action)),
                }
            },
            (DeviceStep::Measuring(result), DeviceEvent::Measured(gpu_time_ms)) => {
                if let Some(gpu_time_ms) = gpu_time_ms {
                    let frame_id: u32 = renderer.frame_counter;
                    set_perf_sample(perf, PerfSampleRecord { frame_id, gpu_time_ms });
                }
                (DeviceStep::Over, DeviceAction::Finish(result))
            },
            _ => (DeviceStep::Over, DeviceAction::Measure),
        };
        (DeviceFrame { step }, action)
    }
}

/// How far a frame is.
pub open spec fn progress(step: DeviceStep) -> int {
    match step {
        DeviceStep::Preparing(_) => 0,
        DeviceStep::GivingBack => 1,
        DeviceStep::Rendering(_) => 2,
        DeviceStep::Measuring(_) => 3,
        DeviceStep::Over => 4,
    }
}

/// A frame takes its steps in order and skips none. Shaders come into use
/// only before it renders; the touches are taken, and the frame is numbered,
/// when the shader is settled and before anything is rendered; and a sample is
/// left only when rendering is over, under the number of this frame.
pub proof fn a_frame_takes_its_steps_in_order(
    frame: DeviceFrame,
    before: Scene,
    event: DeviceEvent,
    next: DeviceFrame,
    after: Scene,
    action: DeviceAction,
)
    requires
        frame.expects(event, before.renderer.swapchain_renderer),
        frame.leads_to(before, event, next, after, action),
    ensures
        ({
            let was = before.renderer.swapchain_renderer;
            let now = after.renderer.swapchain_renderer;
            let from = progress(frame.step);
            let to = progress(next.step);
            &&& to == from || to == from + 1
            &&& now.compute != was.compute || now.blit != was.blit ==> from == 0
            &&& if from == 1 {
                &&& to == 2
                &&& after.touches.len() == 0
                &&& now.touch == was.touch.after_all(before.touches)
                &&& after.renderer.frame_counter == following(before.renderer.frame_counter)
            } else {
                &&& after.touches == before.touches
                &&& now.touch == was.touch
                &&& after.renderer.frame_counter == before.renderer.frame_counter
            }
            &&& if from == 3 {
                &&& to == 4
                &&& after.perf == sampled(
                    before.perf,
                    before.renderer.frame_counter,
                    event->Measured_0,
                )
            } else {
                after.perf == before.perf
            }
        }),
{
}

/// Whether a frame made it to the screen: not if there is no renderer, if it
/// was skipped, or if it failed.
pub fn was_presented(rendered: Option<Result<bool, Error>>) -> (presented: bool)
    ensures
        presented == (rendered == Some(Ok::<bool, Error>(true))),
{
    match rendered {
        Some(Ok(presented)) => presented,
        _ => false,
    }
}

/// The number of a renderer after so many more frames.
pub open spec fn number_after(frame_number: u32, frames: nat) -> u32
    decreases frames,
{
    if frames == 0 {
        frame_number
    } else {
        following(number_after(frame_number, (frames - 1) as nat))
    }
}

/// Frame numbers count up from the first frame on, starting over at the end
/// of the numbers.
pub proof fn frame_numbers_count_up(frames: nat)
    ensures
        number_after(0, frames) == frames % 0x1_0000_0000,
    decreases frames,
{
    if frames > 0 {
        frame_numbers_count_up((frames - 1) as nat);
    }
}

} // verus!
