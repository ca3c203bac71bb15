//! What a renderer does for its shaders and its surface, stated of what goes
//! in and what comes out.

use crate::renderer::compute::{
    begun_setup, setup_after, Binding, BufferWrite, ComputeRequest, ComputeSetup, Descriptors,
    SetupAction, SetupEvent, SetupStep,
};
use crate::renderer::frame::{
    groups_cover_exactly, groups_to_cover, uniform_writes, FrameAction, FrameCommand, FrameEvent,
    FrameStep, FrameTask, ImageBarrier, Submission, UniformValue, UniformWrite,
};
use crate::renderer::resources::{ComputeStage, Destroy, UniformBuffer};
use crate::renderer::surface::Error;
use crate::renderer::swapchain::SwapchainRenderer;
use crate::renderer::touch::{TouchEvent, TouchState};
use vstd::prelude::*;

verus! {

/// A press is where the pointer is and where it last went down, and it is down
/// from then on. It moves only while it is down, which leaves the last press
/// where it was. A lift leaves both where they were.
pub proof fn the_pointer_is_where_it_was_last_seen(
    pressed: &mut TouchState,
    moved: &mut TouchState,
    lifted: &mut TouchState,
    fresh: TouchState,
    x: u32,
    y: u32,
)
    requires
        call_ensures(TouchState::down, (pressed, x, y), ()),
        call_ensures(TouchState::moved, (moved, x, y), ()),
        call_ensures(TouchState::up, (lifted,), ()),
        call_ensures(<TouchState as Default>::default, (), fresh),
    ensures
        ({
            let after = *final(pressed);
            &&& after.current_x == x && after.current_y == y
            &&& after.last_down_x == x && after.last_down_y == y
            &&& after.is_down && after.ever_clicked
        }),
        ({
            let before = *old(moved);
            let after = *final(moved);
            &&& before.is_down ==> after.current_x == x && after.current_y == y
            &&& !before.is_down ==> after.current_x == before.current_x && after.current_y
                == before.current_y
            &&& after.last_down_x == before.last_down_x && after.last_down_y == before.last_down_y
            &&& after.is_down == before.is_down && after.ever_clicked == before.ever_clicked
        }),
        ({
            let before = *old(lifted);
            let after = *final(lifted);
            &&& after.current_x == before.current_x && after.current_y == before.current_y
            &&& after.last_down_x == before.last_down_x && after.last_down_y == before.last_down_y
            &&& !after.is_down && after.ever_clicked == before.ever_clicked
        }),
        fresh.current_x == 0 && fresh.current_y == 0 && fresh.last_down_x == 0
            && fresh.last_down_y == 0 && !fresh.is_down && !fresh.ever_clicked,
{
}

/// Whether four numbers are what a shader reads of the touches: where the
/// pointer is, and where it last went down, with the sign of the first of these
/// two flipped while it is down, and that of the second once it has been.
pub open spec fn tells_touches(four: Seq<u32>, touch: TouchState) -> bool {
    let sign = 0x8000_0000u32;
    &&& four.len() == 4
    &&& four[0] == touch.current_x
    &&& four[1] == touch.current_y
    &&& touch.is_down ==> four[2] == touch.last_down_x ^ sign
    &&& !touch.is_down ==> four[2] == touch.last_down_x
    &&& touch.ever_clicked ==> four[3] == touch.last_down_y ^ sign
    &&& !touch.ever_clicked ==> four[3] == touch.last_down_y
}

/// A shader reads where the pointer is and where it went down, and by their
/// signs whether it is down and whether it ever was.
pub proof fn a_shader_is_told_the_touches(touch: TouchState, four: [u32; 4])
    requires
        call_ensures(TouchState::encode, (&touch,), four),
    ensures
        tells_touches(four@, touch),
{
}

/// Touches are applied one after the other, the first one first.
pub proof fn touches_are_applied_in_order(
    touch: TouchState,
    first: TouchEvent,
    rest: Seq<TouchEvent>,
)
    ensures
        touch.after_all(seq![first] + rest) == touch.after(first).after_all(rest),
        touch.after_all(Seq::empty()) == touch,
{
    crate::renderer::touch::events_in_batches(touch, seq![first], rest);
    assert(seq![first].drop_last() == Seq::<TouchEvent>::empty());
    assert(touch.after_all(Seq::<TouchEvent>::empty()) == touch);
    assert(seq![first].last() == first);
    assert(touch.after_all(seq![first]) == touch.after(first));
}

/// Whether some writes refresh a uniform buffer: each number that the shader
/// declared is written once, where the shader declared it, whatever else it
/// declared; and nothing else is.
pub open spec fn refreshes(
    writes: Seq<UniformWrite>,
    uniforms: UniformBuffer,
    frame_number: u32,
    touch: TouchState,
) -> bool {
    let time = uniforms.time_offset;
    let frame = uniforms.frame_id_offset;
    let mouse = uniforms.mouse_position_offset;
    &&& time is Some ==> exists|i: int|
        0 <= i < writes.len() && (#[trigger] writes[i]).offset == time->0
            && writes[i].value is ElapsedSeconds
    &&& frame is Some ==> exists|i: int|
        0 <= i < writes.len() && (#[trigger] writes[i]).offset == frame->0 && writes[i].value
            == UniformValue::FrameNumber(frame_number)
    &&& mouse is Some ==> exists|four: Seq<u32>|
        tells_touches(four, touch) && forall|k: int|
            0 <= k < 4 ==> exists|i: int|
                0 <= i < writes.len() && (#[trigger] writes[i]).offset == mouse->0 + 4 * k
                    && writes[i].value == UniformValue::Bits(#[trigger] four[k])
    &&& writes.len() == (if time is Some {
        1int
    } else {
        0
    }) + (if frame is Some {
        1int
    } else {
        0
    }) + (if mouse is Some {
        4int
    } else {
        0
    })
}

proof fn lemma_refreshes(uniforms: UniformBuffer, frame_number: u32, touch: TouchState)
    ensures
        refreshes(
            uniform_writes(uniforms, frame_number, touch),
            uniforms,
            frame_number,
            touch,
        ),
{
    let writes = uniform_writes(uniforms, frame_number, touch);
    let t: int = if uniforms.time_offset is Some {
        1
    } else {
        0
    };
    let f: int = if uniforms.frame_id_offset is Some {
        1
    } else {
        0
    };
    if uniforms.time_offset is Some {
        assert(writes[0].value is ElapsedSeconds);
    }
    if uniforms.frame_id_offset is Some {
        assert(writes[t].value == UniformValue::FrameNumber(frame_number));
    }
    if uniforms.mouse_position_offset is Some {
        let four = touch.encoded();
        assert(tells_touches(four, touch));
        assert forall|k: int| 0 <= k < 4 implies exists|i: int|
            0 <= i < writes.len() && (#[trigger] writes[i]).offset
                == uniforms.mouse_position_offset->0 + 4 * k && writes[i].value
                == UniformValue::Bits(#[trigger] four[k]) by {
            assert(writes[t + f + k].value == UniformValue::Bits(four[k]));
            assert(writes[t + f + k].offset == uniforms.mouse_position_offset->0 + 4 * k);
        }
    }
}

/// When a frame is recorded, the uniforms of the shader in use are refreshed:
/// the time, the number of the frame and the touches, each on its own if the
/// shader declared it. Without a shader, or if it declared none, nothing is
/// written.
pub proof fn a_frame_refreshes_the_uniforms(
    image: u32,
    task: &mut FrameTask,
    renderer: &mut SwapchainRenderer,
    action: FrameAction,
)
    requires
        old(renderer).well_formed(),
        old(task).step == FrameStep::Begin(image),
        image < old(renderer).parts.framebuffers@.len(),
        call_ensures(FrameTask::advance, (task, renderer, FrameEvent::Done), action),
    ensures
        action is Record,
        old(renderer).compute is Some && old(renderer).compute->0.uniforms is Some ==> refreshes(
            action->writes@,
            old(renderer).compute->0.uniforms->0,
            old(renderer).frame_counter,
            old(renderer).touch,
        ),
        old(renderer).compute is None || old(renderer).compute->0.uniforms is None
            ==> action->writes@.len() == 0,
{
    if old(renderer).compute is Some && old(renderer).compute->0.uniforms is Some {
        lemma_refreshes(
            old(renderer).compute->0.uniforms->0,
            old(renderer).frame_counter,
            old(renderer).touch,
        );
    }
}

/// Whether some groups of threads cover a length: together they reach its end,
/// and without the last one they would not.
pub open spec fn covers(groups: u32, size: u32, length: u32) -> bool {
    let threads = if size == 0 {
        1
    } else {
        size as int
    };
    groups * threads >= length && (groups - 1) * threads < length
}

/// With a compute shader in use, a frame runs it over the whole surface, waits
/// until its image can be read, and then draws that image, with the blit pass,
/// on the image of the swapchain that was acquired. It takes the time from
/// before all of this to after it.
pub proof fn a_frame_runs_the_shader_and_shows_its_image(
    image: u32,
    task: &mut FrameTask,
    renderer: &mut SwapchainRenderer,
    action: FrameAction,
)
    requires
        old(renderer).well_formed(),
        old(renderer).compute is Some,
        old(task).step == FrameStep::Begin(image),
        image < old(renderer).parts.framebuffers@.len(),
        call_ensures(FrameTask::advance, (task, renderer, FrameEvent::Done), action),
    ensures
        ({
            let r = *old(renderer);
            let stage = r.compute->0;
            let blit = r.blit->0;
            let pool = r.frame.timestamp_query_pool;
            let commands = action->commands@;
            &&& action is Record
            &&& action->Record_command_buffer == r.frame.command_buffer
            &&& commands.len() == 12
            &&& commands[0] == (FrameCommand::ResetQueries { pool, first: 0, count: 2 })
            &&& commands[1] == (FrameCommand::WriteTimestamp { stage: 0x1, pool, query: 0 })
            &&& commands[2] == (FrameCommand::BindPipeline { point: 1, pipeline: stage.pipeline })
            &&& commands[3] == (FrameCommand::BindDescriptorSet {
                point: 1,
                layout: stage.pipeline_layout,
                set: stage.descriptor_set,
            })
            &&& commands[4] is Dispatch
            &&& covers(commands[4]->x, stage.thread_group_size.x, r.extent.width)
            &&& covers(commands[4]->y, stage.thread_group_size.y, r.extent.height)
            &&& stage.thread_group_size.z > 0 ==> commands[4]->z == stage.thread_group_size.z
            &&& stage.thread_group_size.z == 0 ==> commands[4]->z == 1
            &&& commands[5] == FrameCommand::Barrier(
                ImageBarrier {
                    image: blit.output_image,
                    old_layout: 1,
                    new_layout: 1,
                    src_stage: 0x800,
                    dst_stage: 0x80,
                    src_access: 0x40,
                    dst_access: 0x20,
                },
            )
            &&& commands[6] == (FrameCommand::BeginRenderPass {
                render_pass: r.parts.render_pass,
                framebuffer: r.parts.framebuffers@[image as int],
                extent: r.extent,
            })
            &&& commands[7] == (FrameCommand::BindPipeline { point: 0, pipeline: blit.pipeline })
            &&& commands[8] == (FrameCommand::BindDescriptorSet {
                point: 0,
                layout: blit.pipeline_layout,
                set: blit.descriptor_set,
            })
            &&& commands[9] == (FrameCommand::Draw { vertices: 3, instances: 1 })
            &&& commands[10] == (FrameCommand::WriteTimestamp { stage: 0x2000, pool, query: 1 })
            &&& commands[11] is EndRenderPass
        }),
{
    let r = *old(renderer);
    let stage = r.compute->0;
    groups_cover_exactly(r.extent.width, stage.thread_group_size.x);
    groups_cover_exactly(r.extent.height, stage.thread_group_size.y);
    let commands = action->commands@;
    assert(commands == r.frame_commands(image));
    assert(commands[4]->x == groups_to_cover(r.extent.width, stage.thread_group_size.x));
    assert(commands[4]->y == groups_to_cover(r.extent.height, stage.thread_group_size.y));
}

/// Without a compute shader a frame draws with the renderer's own pipeline, on
/// the image of the swapchain that was acquired.
pub proof fn a_frame_draws_with_its_own_pipeline(
    image: u32,
    task: &mut FrameTask,
    renderer: &mut SwapchainRenderer,
    action: FrameAction,
)
    requires
        old(renderer).well_formed(),
        old(renderer).compute is None,
        old(task).step == FrameStep::Begin(image),
        image < old(renderer).parts.framebuffers@.len(),
        call_ensures(FrameTask::advance, (task, renderer, FrameEvent::Done), action),
    ensures
        ({
            let r = *old(renderer);
            let pool = r.frame.timestamp_query_pool;
            let commands = action->commands@;
            &&& action is Record
            &&& action->Record_command_buffer == r.frame.command_buffer
            &&& commands.len() == 7
            &&& commands[0] == (FrameCommand::ResetQueries { pool, first: 0, count: 2 })
            &&& commands[1] == (FrameCommand::WriteTimestamp { stage: 0x1, pool, query: 0 })
            &&& commands[2] == (FrameCommand::BeginRenderPass {
                render_pass: r.parts.render_pass,
                framebuffer: r.parts.framebuffers@[image as int],
                extent: r.extent,
            })
            &&& commands[3] == (FrameCommand::BindPipeline {
                point: 0,
                pipeline: r.parts.pipeline,
            })
            &&& commands[4] == (FrameCommand::Draw { vertices: 3, instances: 1 })
            &&& commands[5] == (FrameCommand::WriteTimestamp { stage: 0x2000, pool, query: 1 })
            &&& commands[6] is EndRenderPass
        }),
{
}

/// A frame goes from one step to the next: it waits for the frame before it,
/// reads how long that took if there was one, acquires an image, records,
/// submits, and presents that image. Along the way the renderer learns how
/// long the frame before took, which frame it is at if a compute shader ran,
/// and that a frame was submitted, and nothing else.
pub proof fn a_frame_goes_step_by_step(
    event: FrameEvent,
    task: &mut FrameTask,
    renderer: &mut SwapchainRenderer,
    action: FrameAction,
)
    requires
        old(renderer).well_formed(),
        old(task).expects(event, *old(renderer)),
        !(event is Failed),
        call_ensures(FrameTask::advance, (task, renderer, event), action),
    ensures
        ({
            let r = *old(renderer);
            let after = *final(renderer);
            let step = old(task).step;
            let next = final(task).step;
            let acquire = FrameAction::AcquireImage {
                swapchain: r.parts.swapchain,
                signal: r.frame.image_available,
            };
            &&& step is WaitFence && r.has_submitted_frame ==> next is Timestamps && action == (
            FrameAction::ReadTimestamps {
                pool: r.frame.timestamp_query_pool,
                first: 0,
                count: 2,
            })
            &&& step is WaitFence && !r.has_submitted_frame || step is Timestamps
                ==> next is Acquire && action == acquire
            &&& step is Acquire ==> next == FrameStep::Begin(event->Acquired_0) && action == (
            FrameAction::BeginRecording {
                fence: r.frame.in_flight,
                command_buffer: r.frame.command_buffer,
            })
            &&& step is Begin ==> next == FrameStep::Record(step->Begin_0) && action is Record
            &&& step is Record ==> next == FrameStep::Submit(step->Record_0) && action
                == FrameAction::Submit(
                Submission {
                    command_buffer: r.frame.command_buffer,
                    wait: r.frame.image_available,
                    wait_stage: 0x400,
                    signal: r.frame.render_finished,
                    fence: r.frame.in_flight,
                },
            )
            &&& step is Submit ==> next == FrameStep::Present(step->Submit_0) && action == (
            FrameAction::Present {
                swapchain: r.parts.swapchain,
                wait: r.frame.render_finished,
                image: step->Submit_0,
            })
            &&& step is Present ==> next is Finished && action == FrameAction::Finish(Ok(true))
            &&& step is Timestamps ==> after.last_gpu_ticks is Some
                && after.last_gpu_ticks->0 as int == (event->end - event->start)
                % 0x1_0000_0000_0000_0000
            &&& !(step is Timestamps) ==> after.last_gpu_ticks == r.last_gpu_ticks
            &&& step is Begin && r.compute is Some ==> after.frame_counter as int == (
            r.frame_counter + 1) % 0x1_0000_0000
            &&& !(step is Begin) || r.compute is None ==> after.frame_counter == r.frame_counter
            &&& after.has_submitted_frame == (r.has_submitted_frame || step is Submit)
            &&& after == (SwapchainRenderer {
                last_gpu_ticks: after.last_gpu_ticks,
                frame_counter: after.frame_counter,
                has_submitted_frame: after.has_submitted_frame,
                ..r
            })
        }),
{
    if old(task).step is Timestamps {
        let d = event->end - event->start;
        if d < 0 {
            assert(d % 0x1_0000_0000_0000_0000 == d + 0x1_0000_0000_0000_0000);
        }
    }
}

/// A failure ends a frame, and leaves the renderer as it is. That the surface
/// has changed, when an image is acquired or presented, means a skipped frame
/// and no error; every other failure is an error, with its code.
pub proof fn only_a_changed_surface_skips_a_frame(
    code: i32,
    task: &mut FrameTask,
    renderer: &mut SwapchainRenderer,
    action: FrameAction,
)
    requires
        old(renderer).well_formed(),
        old(task).expects(FrameEvent::Failed(code), *old(renderer)),
        call_ensures(FrameTask::advance, (task, renderer, FrameEvent::Failed(code)), action),
    ensures
        final(task).step is Finished,
        *final(renderer) == *old(renderer),
        action is Finish,
        ({
            let skipped = code == -1_000_001_004 && (old(task).step is Acquire || old(
                task).step is Present);
            &&& skipped ==> action->Finish_0 == Ok::<bool, Error>(false)
            &&& !skipped ==> action->Finish_0 == Err::<bool, Error>(Error::Vulkan(code))
        }),
{
}

/// A frame begins with waiting for the fence of the frame before it.
pub proof fn a_frame_begins_with_waiting(
    renderer: SwapchainRenderer,
    begun: (FrameTask, FrameAction),
    submission: Submission,
)
    requires
        call_ensures(SwapchainRenderer::render_frame, (&renderer,), begun),
        call_ensures(SwapchainRenderer::submission, (&renderer,), submission),
    ensures
        begun.0.step is WaitFence,
        begun.1 == (FrameAction::WaitFence { fence: submission.fence }),
        submission.fence == renderer.frame.in_flight,
        submission.wait == renderer.frame.image_available,
        submission.wait_stage == 0x400,
        submission.signal == renderer.frame.render_finished,
        submission.command_buffer == renderer.frame.command_buffer,
{
}

proof fn lemma_setup_keeps_its_request(setup: ComputeSetup, events: Seq<SetupEvent>)
    ensures
        setup_after(setup, events).request == setup.request,
    decreases events.len(),
{
    if events.len() > 0 {
        lemma_setup_keeps_its_request(setup, events.drop_last());
    }
}

/// A shader is given what its pipeline expects. The pipeline that a call asks
/// for expects a storage image where the request says, and uniforms only if
/// the request has any, at zero. The descriptors that the same call asks for
/// hold the view of the output image at that very binding, and the uniform
/// buffer at that.
pub proof fn a_shader_gets_what_its_pipeline_expects(
    request: ComputeRequest,
    before: SwapchainRenderer,
    events: Seq<SetupEvent>,
    now: SwapchainRenderer,
    action: SetupAction,
    other_events: Seq<SetupEvent>,
    other_now: SwapchainRenderer,
    program: SetupAction,
)
    requires
        setup_after(begun_setup(request, before), events).asks(action, now),
        action is CreateDescriptors,
        setup_after(begun_setup(request, before), other_events).asks(program, other_now),
        program is CreateProgram,
    ensures
        ({
            let plan = action->CreateDescriptors_0;
            let bindings = program->bindings@;
            &&& plan.image_binding == request.output_texture_binding
            &&& bindings.len() > 0
            &&& bindings[0] == (Binding { binding: plan.image_binding, descriptor: 3 })
            &&& now.blit is Some ==> plan.image_view == now.blit->0.output_image_view
            &&& plan.kinds@.len() > 0 && plan.kinds@[0] == 3
            &&& plan.uniform is Some ==> {
                &&& plan.uniform->0.binding == 0
                &&& plan.kinds@ == seq![3i32, 6i32]
            }
            &&& plan.uniform is None ==> plan.kinds@ == seq![3i32]
            &&& bindings.len() > 1 ==> bindings == seq![
                Binding { binding: request.output_texture_binding, descriptor: 3 },
                Binding { binding: 0, descriptor: 6 },
            ]
        }),
{
    lemma_setup_keeps_its_request(begun_setup(request, before), events);
    lemma_setup_keeps_its_request(begun_setup(request, before), other_events);
}

/// Putting a shader in use begins with the blit pass, if there is none yet,
/// then come its uniforms, if it has any, then its pipeline. The touches start
/// over, and everything else stays as it is.
pub proof fn putting_a_shader_in_use_begins(
    request: ComputeRequest,
    renderer: &mut SwapchainRenderer,
    begun: (ComputeSetup, SetupAction),
)
    requires
        call_ensures(SwapchainRenderer::set_compute_shader, (renderer, request), begun),
    ensures
        ({
            let before = *old(renderer);
            let after = *final(renderer);
            let uniforms = request.uniforms is Some && request.uniforms->0.size > 0;
            &&& begun.0.request == request
            &&& begun.0.uniforms is None && begun.0.program is None
            &&& before.blit is None ==> {
                let plan = begun.1->CreateBlit_0;
                &&& begun.0.step is Blit
                &&& begun.1 is CreateBlit
                &&& plan.extent == before.extent
                &&& plan.render_pass == before.parts.render_pass
                &&& plan.command_buffer == before.frame.command_buffer
                &&& plan.format == 37
                &&& plan.usage == 0xc
                &&& plan.sampler_binding == 0 && plan.sampler_descriptor == 1
                &&& plan.descriptor_count == 1 && plan.max_sets == 1
            }
            &&& before.blit is Some && uniforms ==> begun.0.step is Uniforms && begun.1
                == SetupAction::CreateUniforms(request.uniforms->0.size)
            &&& before.blit is Some && !uniforms ==> {
                &&& begun.0.step is Program
                &&& begun.1 is CreateProgram
                &&& begun.1->spirv@ == request.spirv@
                &&& begun.1->entry_point@ == request.entry_point@
                &&& begun.1->bindings@ == seq![
                    Binding { binding: request.output_texture_binding, descriptor: 3 },
                ]
            }
            &&& after.touch.current_x == 0 && after.touch.current_y == 0
                && after.touch.last_down_x == 0 && after.touch.last_down_y == 0
                && !after.touch.is_down && !after.touch.ever_clicked
            &&& after == (SwapchainRenderer { touch: after.touch, ..before })
        }),
{
    assert(0x8u32 | 0x4u32 == 0xcu32) by (bit_vector);
}

/// What a setup asks for says everything that is needed: the blit pass is
/// for the size, the render pass and the command buffer of the renderer, and
/// the descriptors are of the layout of the pipeline that was built, with the
/// uniform buffer that was made.
pub proof fn what_a_setup_asks_for_is_complete(
    event: SetupEvent,
    setup: &mut ComputeSetup,
    renderer: &mut SwapchainRenderer,
    action: SetupAction,
)
    requires
        old(renderer).well_formed(),
        old(setup).well_formed(),
        old(setup).begun_by(*old(renderer)),
        old(setup).expects(event),
        call_ensures(ComputeSetup::advance, (setup, renderer, event), action),
    ensures
        ({
            let request = old(setup).request;
            let wants = request.uniforms is Some && request.uniforms->0.size > 0;
            let was = old(setup).step;
            let now = *final(setup);
            &&& now.request == request
            &&& event is Blit ==> final(renderer).blit == Some(event->Blit_0)
            &&& event is Blit && wants ==> now.step is Uniforms && action
                == SetupAction::CreateUniforms(request.uniforms->0.size)
            &&& event is Blit && !wants || event is Uniforms ==> {
                &&& now.step is Program
                &&& action is CreateProgram
                &&& action->spirv@ == request.spirv@
                &&& action->entry_point@ == request.entry_point@
                &&& action->bindings@.len() == (if wants {
                    2int
                } else {
                    1
                })
                &&& action->bindings@[0] == (Binding {
                    binding: request.output_texture_binding,
                    descriptor: 3,
                })
                &&& wants ==> action->bindings@[1] == (Binding { binding: 0, descriptor: 6 })
            }
            &&& event is Uniforms ==> now.uniforms == Some(
                UniformBuffer {
                    buffer: event->Uniforms_0.buffer,
                    memory: event->Uniforms_0.memory,
                    mapped: event->Uniforms_0.mapped,
                    time_offset: request.uniforms->0.time_offset,
                    frame_id_offset: request.uniforms->0.frame_id_offset,
                    mouse_position_offset: request.uniforms->0.mouse_position_offset,
                },
            )
            &&& !(event is Uniforms) ==> now.uniforms == old(setup).uniforms
            &&& event is Program ==> {
                let plan = action->CreateDescriptors_0;
                &&& now.step is Descriptors
                &&& now.program == Some(event->Program_0)
                &&& action is CreateDescriptors
                &&& plan.set_layout == event->Program_0.descriptor_set_layout
                &&& plan.image_binding == request.output_texture_binding
                &&& plan.image_view == old(renderer).blit->0.output_image_view
                &&& plan.kinds@ == (if wants {
                    seq![3i32, 6i32]
                } else {
                    seq![3i32]
                })
                &&& plan.uniform is Some <==> wants
                &&& wants ==> plan.uniform == Some(
                    BufferWrite { binding: 0, buffer: now.uniforms->0.buffer },
                )
            }
            &&& event is Descriptors ==> now.step == SetupStep::Idle(event->Descriptors_0)
                && action is WaitIdle
            &&& !(event is Blit) ==> final(renderer).blit == old(renderer).blit
            &&& !(event is Idle) ==> final(renderer).compute == old(renderer).compute
            &&& *final(renderer) == (SwapchainRenderer {
                blit: final(renderer).blit,
                compute: final(renderer).compute,
                ..*old(renderer)
            })
        }),
{
}

/// Whether these are what belongs to one compute shader, each of them once:
/// its descriptors, its pipeline, and its uniforms, which are unmapped before
/// their memory is freed.
pub open spec fn gives_back_shader(destroy: Seq<Destroy>, stage: ComputeStage) -> bool {
    &&& destroy.len() == (if stage.uniforms is Some {
        7int
    } else {
        4
    })
    &&& destroy[0] == Destroy::DescriptorPool(stage.descriptor_pool)
    &&& destroy[1] == Destroy::DescriptorSetLayout(stage.descriptor_set_layout)
    &&& destroy[2] == Destroy::Pipeline(stage.pipeline)
    &&& destroy[3] == Destroy::PipelineLayout(stage.pipeline_layout)
    &&& stage.uniforms is Some ==> {
        &&& destroy[4] == Destroy::UnmapMemory(stage.uniforms->0.memory)
        &&& destroy[5] == Destroy::Buffer(stage.uniforms->0.buffer)
        &&& destroy[6] == Destroy::Memory(stage.uniforms->0.memory)
    }
}

/// Once the device is idle, the shader that was set up is in use, with
/// everything that was made for it, and what belonged to the one before it is
/// given back, and nothing else.
pub proof fn a_shader_comes_into_use(
    descriptors: Descriptors,
    setup: &mut ComputeSetup,
    renderer: &mut SwapchainRenderer,
    action: SetupAction,
)
    requires
        old(renderer).well_formed(),
        old(setup).well_formed(),
        old(setup).begun_by(*old(renderer)),
        old(setup).step == SetupStep::Idle(descriptors),
        call_ensures(ComputeSetup::advance, (setup, renderer, SetupEvent::Idle), action),
    ensures
        ({
            let program = old(setup).program->0;
            &&& final(setup).step is Finished
            &&& final(renderer).compute == Some(
                ComputeStage {
                    pipeline: program.pipeline,
                    pipeline_layout: program.pipeline_layout,
                    descriptor_set_layout: program.descriptor_set_layout,
                    descriptor_pool: descriptors.pool,
                    descriptor_set: descriptors.set,
                    output_texture_binding: old(setup).request.output_texture_binding,
                    thread_group_size: old(setup).request.thread_group_size,
                    uniforms: old(setup).uniforms,
                },
            )
            &&& action is Finish
            &&& action->Finish_0 is Ok
            &&& old(renderer).compute is None ==> action->Finish_1@.len() == 0
            &&& old(renderer).compute is Some ==> gives_back_shader(
                action->Finish_1@,
                old(renderer).compute->0,
            )
        }),
{
}

/// A setup that fails says why, gives back the pipeline and the uniforms it
/// made, if it made any, and leaves the renderer as it is.
pub proof fn a_setup_that_fails_gives_back_what_it_made(
    error: Error,
    setup: &mut ComputeSetup,
    renderer: &mut SwapchainRenderer,
    action: SetupAction,
)
    requires
        old(renderer).well_formed(),
        old(setup).well_formed(),
        old(setup).begun_by(*old(renderer)),
        old(setup).expects(SetupEvent::Failed(error)),
        call_ensures(
            ComputeSetup::advance,
            (setup, renderer, SetupEvent::Failed(error)),
            action,
        ),
    ensures
        ({
            let program = old(setup).program;
            let uniforms = old(setup).uniforms;
            let destroy = action->Finish_1@;
            let p: int = if program is Some {
                3
            } else {
                0
            };
            &&& *final(renderer) == *old(renderer)
            &&& final(setup).step is Finished
            &&& action is Finish
            &&& action->Finish_0 == Err::<(), Error>(error)
            &&& destroy.len() == p + (if uniforms is Some {
                3int
            } else {
                0
            })
            &&& program is Some ==> {
                &&& destroy[0] == Destroy::DescriptorSetLayout(program->0.descriptor_set_layout)
                &&& destroy[1] == Destroy::Pipeline(program->0.pipeline)
                &&& destroy[2] == Destroy::PipelineLayout(program->0.pipeline_layout)
            }
            &&& uniforms is Some ==> {
                &&& destroy[p] == Destroy::UnmapMemory(uniforms->0.memory)
                &&& destroy[p + 1] == Destroy::Buffer(uniforms->0.buffer)
                &&& destroy[p + 2] == Destroy::Memory(uniforms->0.memory)
            }
        }),
{
}

} // verus!
