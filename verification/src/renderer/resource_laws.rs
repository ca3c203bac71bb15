//! What a renderer builds and gives back, and what it chooses, stated of what
//! goes in and what comes out.

use crate::bytes::{before_zero, utf8_lossy};
use crate::renderer::blit::{BlitAction, BlitEvent, BlitProgress, BlitSetup};
use crate::renderer::compute::{plan_blit, Binding, BlitPlan};
use crate::renderer::creation::{
    FramePartsAction, FramePartsProgress, FramePartsSetup, PartsAction, PartsEvent, PartsProgress,
    PartsSetup, PipelinePlan,
};
use crate::renderer::device::{
    choose_memory_kind, choose_queue, does_both, the_first_suitable_device_is_chosen, DeviceKind,
    PhysicalDeviceInfo, QueueChoice,
};
use crate::renderer::frame::{FrameCommand, ImageBarrier};
use crate::renderer::laws::gives_back_shader;
use crate::renderer::resize::{Resize, ResizeAction, ResizeEvent, ResizeStep};
use crate::renderer::resources::{
    compute_teardown, frame_teardown, framebuffers_teardown, parts_teardown, pass_teardown,
    views_teardown, BlitResources, Destroy, FrameParts, GraphicsShaders, SwapchainParts,
    ThreadGroups,
};
use crate::renderer::sample::{
    sample_status, ComputeSample, RendererCapiStatus, SampleAction, SampleEvent,
};
use crate::renderer::surface::{
    plan_swapchain, preferred_format, Error, Extent, SurfaceCapabilities, SurfaceFormat,
    SwapchainPlan,
};
use crate::renderer::swapchain::{DeviceInfo, GraphicsProgram, ImageWrite, SwapchainRenderer};
use crate::renderer::touch::TouchEvent;
use vstd::prelude::*;

verus! {

/// The first device that has a queue family for both graphics and compute is
/// chosen, with the first such family of it. Only if no device has one is
/// there an error.
pub proof fn the_first_family_that_does_both_is_chosen(
    devices: Vec<Vec<u32>>,
    choice: Result<QueueChoice, Error>,
    i: int,
    j: int,
)
    requires
        forall|k: int| 0 <= k < devices@.len() ==> (#[trigger] devices@[k])@.len() <= u32::MAX,
        call_ensures(choose_queue, (&devices,), choice),
        0 <= i < devices@.len(),
        0 <= j < devices@[i]@.len(),
    ensures
        ({
            let both = devices@[i]@[j] & 3u32 == 3u32;
            &&& choice is Err ==> choice->Err_0 is NoSuitableDevice && !both
            &&& choice is Ok ==> {
                let d = choice->Ok_0.device as int;
                let f = choice->Ok_0.family as int;
                &&& 0 <= d < devices@.len()
                &&& 0 <= f < devices@[d]@.len()
                &&& devices@[d]@[f] & 3u32 == 3u32
                &&& both ==> d < i || (d == i && f <= j)
            }
        }),
{
    the_first_suitable_device_is_chosen(devices@);
    lemma_does_both(devices@[i]@[j]);
    if choice is Ok {
        lemma_does_both(devices@[choice->Ok_0.device as int]@[choice->Ok_0.family as int]);
    }
    assert(does_both(devices@[i]@[j]) == does_both(devices@[i]@[j]));
}

proof fn lemma_does_both(flags: u32)
    ensures
        (flags & 3u32 == 3u32) == does_both(flags),
{
    assert((flags & 3u32 == 3u32) == (flags & 0x1u32 == 0x1u32 && flags & 0x2u32 == 0x2u32))
        by (bit_vector);
}

/// The first kind of memory is chosen that is allowed, by its bit, and has
/// every property that is wanted.
pub proof fn the_first_memory_that_fits_is_chosen(
    kinds: Vec<u32>,
    allowed: u32,
    wanted: u32,
    kind: Option<u32>,
    i: u32,
)
    requires
        kinds@.len() <= 32,
        call_ensures(choose_memory_kind, (&kinds, allowed, wanted), kind),
        i < kinds@.len(),
    ensures
        ({
            let fits = (allowed >> i) & 1u32 == 1u32 && kinds@[i as int] & wanted == wanted;
            &&& kind is None ==> !fits
            &&& kind is Some ==> kind->0 < kinds@.len()
            &&& kind is Some && i < kind->0 ==> !fits
            &&& kind is Some && i == kind->0 ==> fits
        }),
{
    let k = kinds@[i as int];
    assert(crate::renderer::device::memory_fits(k, i as int, allowed, wanted) == ((allowed >> i)
        & 1u32 == 1u32 && k & wanted == wanted));
}

/// The kind of a device is told by its number, and any number but four is of
/// some other kind.
pub proof fn device_kinds_have_numbers(device_type: i32, kind: DeviceKind)
    requires
        call_ensures(DeviceKind::from_device_type, (device_type,), kind),
    ensures
        kind is IntegratedGpu <==> device_type == 1,
        kind is DiscreteGpu <==> device_type == 2,
        kind is VirtualGpu <==> device_type == 3,
        kind is Cpu <==> device_type == 4,
{
}

/// A device that is described has the kind that its number tells.
pub proof fn a_described_device_has_its_kind(
    name_field: &[u8],
    device_type: i32,
    info: PhysicalDeviceInfo,
    kind: DeviceKind,
)
    requires
        call_ensures(PhysicalDeviceInfo::describe, (name_field, device_type), info),
        call_ensures(DeviceKind::from_device_type, (device_type,), kind),
    ensures
        info.kind == kind,
{
}

/// Errors have sentences, which tell the reason or the code in words.
pub proof fn errors_have_sentences(error: Error, code_text: &str, s: String)
    requires
        call_ensures(Error::message_with, (&error, code_text), s),
    ensures
        error is Loading ==> s@ == "failed to load the Vulkan library: "@ + error->Loading_0@,
        error is Vulkan ==> s@ == "Vulkan call failed: "@ + code_text@,
        error is NoSuitableDevice ==> s@
            == "no physical device with a graphics+compute queue family was found"@,
{
}

proof fn lemma_preferred(formats: Seq<SurfaceFormat>)
    ensures
        match preferred_format(formats) {
            None => forall|i: int| 0 <= i < formats.len() ==> (#[trigger] formats[i]).format != 37,
            Some(format) => exists|i: int|
                0 <= i < formats.len() && #[trigger] formats[i] == format && format.format == 37
                    && forall|j: int| 0 <= j < i ==> (#[trigger] formats[j]).format != 37,
        },
    decreases formats.len(),
{
    if formats.len() > 0 {
        if formats.first().format == 37 {
            assert(formats[0] == formats.first());
        } else {
            let rest = formats.drop_first();
            lemma_preferred(rest);
            match preferred_format(formats) {
                None => {
                    assert forall|i: int| 0 <= i < formats.len() implies (
                    #[trigger] formats[i]).format != 37 by {
                        if i > 0 {
                            assert(rest[i - 1] == formats[i]);
                        }
                    }
                },
                Some(format) => {
                    let i = choose|i: int|
                        0 <= i < rest.len() && #[trigger] rest[i] == format && format.format == 37
                            && forall|j: int| 0 <= j < i ==> (#[trigger] rest[j]).format != 37;
                    assert(formats[i + 1] == format);
                    assert forall|j: int| 0 <= j < i + 1 implies (#[trigger] formats[j]).format
                        != 37 by {
                        if j > 0 {
                            assert(rest[j - 1] == formats[j]);
                        }
                    }
                },
            }
        }
    }
}

/// A swapchain is planned for the first format with four 8-bit channels, red
/// first, if there is one, and otherwise for the first there is. It has the
/// size of the surface or, if that has none, the nearest to the wanted size
/// that the surface allows. It asks for one image more than the least, but for
/// no more than the most. It is presented in step with the display.
pub proof fn a_swapchain_is_planned_for_its_surface(
    capabilities: SurfaceCapabilities,
    formats: Vec<SurfaceFormat>,
    wanted: Extent,
    plan: Result<SwapchainPlan, Error>,
    i: int,
)
    requires
        formats@.len() > 0 ==> crate::renderer::surface::usable_limits(capabilities),
        call_ensures(plan_swapchain, (&capabilities, &formats, wanted), plan),
    ensures
        formats@.len() == 0 <==> plan is Err,
        plan is Err ==> plan->Err_0 is NoSuitableDevice,
        plan is Ok ==> {
            let p = plan->Ok_0;
            let low = capabilities.min_image_extent;
            let high = capabilities.max_image_extent;
            let sized = capabilities.current_extent.width != 0xffff_ffff;
            let most = capabilities.max_image_count;
            &&& p.format.format != 37 ==> p.format == formats@[0]
            &&& 0 <= i < formats@.len() && formats@[i].format == 37 ==> p.format.format == 37
            &&& p.format.format == 37 ==> exists|k: int|
                0 <= k < formats@.len() && #[trigger] formats@[k] == p.format && forall|j: int|
                    0 <= j < k ==> (#[trigger] formats@[j]).format != 37
            &&& sized ==> p.extent == capabilities.current_extent
            &&& !sized ==> {
                &&& low.width <= p.extent.width <= high.width
                &&& low.height <= p.extent.height <= high.height
                &&& p.extent.width < wanted.width ==> p.extent.width == high.width
                &&& p.extent.width > wanted.width ==> p.extent.width == low.width
                &&& p.extent.height < wanted.height ==> p.extent.height == high.height
                &&& p.extent.height > wanted.height ==> p.extent.height == low.height
            }
            &&& most == 0 || most > capabilities.min_image_count ==> p.min_image_count
                == capabilities.min_image_count + 1
            &&& 0 < most <= capabilities.min_image_count ==> p.min_image_count == most
            &&& p.pre_transform == capabilities.current_transform
            &&& p.image_array_layers == 1
            &&& p.image_usage == 0x10
            &&& p.image_sharing_mode == 0
            &&& p.composite_alpha == 1
            &&& p.present_mode == 2
            &&& p.clipped
        },
{
    lemma_preferred(formats@);
}

/// Building for a size goes from one thing to the next: the swapchain, its
/// images, a view of each of them in order, the render pass, a framebuffer for
/// each view in order, and the pipeline. Each is asked for with what it needs,
/// and what was made is kept.
pub proof fn parts_are_built_one_after_the_other(
    setup: PartsSetup,
    event: PartsEvent,
    progress: PartsProgress,
)
    requires
        setup.well_formed(),
        setup.expects(event),
        event is Made || event is Images,
        call_ensures(PartsSetup::advance, (setup, event), progress),
    ensures
        ({
            let next = progress->Next_0;
            let action = progress->Next_1;
            let format = setup.plan.format.format;
            let extent = setup.plan.extent;
            let made = event->Made_0;
            let framebuffer = PartsAction::CreateFramebuffer {
                render_pass: next.render_pass,
                view: next.image_views@[next.framebuffers@.len() as int],
                extent,
            };
            &&& progress is Next
            &&& next.plan == setup.plan && next.surface == setup.surface
            &&& next.shaders == setup.shaders
            &&& setup.step is Swapchain ==> next.swapchain == made && action == (
            PartsAction::GetImages { swapchain: made })
            &&& setup.step is Images ==> next.images == event->Images_0
            &&& setup.step is View ==> next.image_views@ == setup.image_views@.push(made)
            &&& setup.step is Images || setup.step is View ==> {
                let n = next.image_views@.len() as int;
                &&& n < next.images@.len() ==> action == (PartsAction::CreateImageView {
                    image: next.images@[n],
                    format,
                })
                &&& n == next.images@.len() ==> action == (PartsAction::CreateRenderPass { format })
            }
            &&& setup.step is RenderPass ==> next.render_pass == made
            &&& setup.step is Framebuffer ==> next.framebuffers@ == setup.framebuffers@.push(made)
            &&& setup.step is RenderPass || setup.step is Framebuffer ==> {
                let n = next.framebuffers@.len() as int;
                &&& n < next.image_views@.len() ==> action == framebuffer
                &&& n == next.image_views@.len() ==> {
                    &&& action is CreatePipeline
                    &&& action->CreatePipeline_0.render_pass == next.render_pass
                    &&& action->CreatePipeline_0.extent == extent
                    &&& action->CreatePipeline_0.shaders.vertex@ == setup.shaders.vertex@
                    &&& action->CreatePipeline_0.shaders.fragment@ == setup.shaders.fragment@
                }
            }
            &&& !(setup.step is Swapchain) ==> next.swapchain == setup.swapchain
            &&& !(setup.step is Images) ==> next.images == setup.images
            &&& !(setup.step is View) ==> next.image_views@ == setup.image_views@
            &&& !(setup.step is RenderPass) ==> next.render_pass == setup.render_pass
            &&& !(setup.step is Framebuffer) ==> next.framebuffers@ == setup.framebuffers@
        }),
{
}

/// Building begins with a swapchain for the surface, in place of the old one,
/// and ends with the pipeline, or with the first failure. What comes out is
/// what was made, with a view and a framebuffer for each image.
pub proof fn parts_come_out_as_they_were_built(
    plan: SwapchainPlan,
    surface: u64,
    old_swapchain: u64,
    shaders: GraphicsShaders,
    begun: (PartsSetup, PartsAction),
    setup: PartsSetup,
    event: PartsEvent,
    progress: PartsProgress,
)
    requires
        call_ensures(PartsSetup::begin, (plan, surface, old_swapchain, shaders), begun),
        setup.well_formed(),
        setup.expects(event),
        event is Pipeline || event is Failed,
        call_ensures(PartsSetup::advance, (setup, event), progress),
    ensures
        begun.1 == (PartsAction::CreateSwapchain { surface, plan, old_swapchain }),
        begun.0.shaders == shaders,
        begun.0.plan == plan,
        progress is Finished,
        event is Failed ==> progress->Finished_0 == Err::<SwapchainParts, Error>(event->Failed_0),
        event is Pipeline ==> {
            let parts = progress->Finished_0->Ok_0;
            &&& progress->Finished_0 is Ok
            &&& parts.swapchain == setup.swapchain
            &&& parts.image_views == setup.image_views
            &&& parts.render_pass == setup.render_pass
            &&& parts.framebuffers == setup.framebuffers
            &&& parts.pipeline == event->Pipeline_0.pipeline
            &&& parts.pipeline_layout == event->Pipeline_0.pipeline_layout
            &&& parts.shaders == setup.shaders
            &&& parts.image_views@.len() == setup.images@.len()
            &&& parts.framebuffers@.len() == setup.images@.len()
        },
{
}

/// What drives the frames is built one after the other, and each is kept for
/// what it was made for. The fence is signaled from the start, and there is
/// room for two timestamps.
pub proof fn what_drives_frames_is_built_one_after_the_other(
    setup: FramePartsSetup,
    handle: u64,
    progress: FramePartsProgress,
    begun: (FramePartsSetup, FramePartsAction),
)
    requires
        call_ensures(FramePartsSetup::begin, (), begun),
        call_ensures(FramePartsSetup::advance, (setup, Ok::<u64, Error>(handle)), progress),
    ensures
        ({
            let next = progress->Next_0;
            let action = progress->Next_1;
            let step = setup.step;
            let was = setup.parts;
            &&& begun.0.step is CommandPool && begun.1 is CreateCommandPool
            &&& step is CommandPool ==> next.parts == (FrameParts { command_pool: handle, ..was })
                && action == (FramePartsAction::AllocateCommandBuffer { pool: handle })
                && next.step is CommandBuffer
            &&& step is CommandBuffer ==> next.parts == (FrameParts {
                command_buffer: handle,
                ..was
            }) && action is CreateSemaphore && next.step is ImageAvailable
            &&& step is ImageAvailable ==> next.parts == (FrameParts {
                image_available: handle,
                ..was
            }) && action is CreateSemaphore && next.step is RenderFinished
            &&& step is RenderFinished ==> next.parts == (FrameParts {
                render_finished: handle,
                ..was
            }) && action == (FramePartsAction::CreateFence { signaled: true })
                && next.step is InFlight
            &&& step is InFlight ==> next.parts == (FrameParts { in_flight: handle, ..was })
                && action == (FramePartsAction::CreateQueryPool { count: 2 })
                && next.step is QueryPool
            &&& step is QueryPool ==> progress == FramePartsProgress::Finished(
                Ok(FrameParts { timestamp_query_pool: handle, ..was }),
            )
            &&& !(step is QueryPool) ==> progress is Next
        }),
{
}

/// The first failure ends building what drives the frames, and is told.
pub proof fn a_failure_ends_building_for_frames(
    setup: FramePartsSetup,
    error: Error,
    progress: FramePartsProgress,
)
    requires
        call_ensures(FramePartsSetup::advance, (setup, Err::<u64, Error>(error)), progress),
    ensures
        progress == FramePartsProgress::Finished(Err(error)),
{
}

/// The blit pass is planned for the size, the render pass and the command
/// buffer that are given, with an image that shaders write and sample, and one
/// descriptor for it.
pub proof fn the_blit_pass_is_planned(
    extent: Extent,
    render_pass: u64,
    command_buffer: u64,
    plan: BlitPlan,
    begun: (BlitSetup, BlitAction),
)
    requires
        call_ensures(plan_blit, (extent, render_pass, command_buffer), plan),
        call_ensures(BlitSetup::create_blit_resources, (plan,), begun),
    ensures
        plan.extent == extent,
        plan.render_pass == render_pass,
        plan.command_buffer == command_buffer,
        plan.format == 37,
        plan.usage == 0xc,
        plan.sampler_binding == 0,
        plan.sampler_descriptor == 1,
        plan.descriptor_count == 1,
        plan.max_sets == 1,
        begun.0.plan == plan,
        begun.0.step is Image,
        begun.1 == (BlitAction::CreateImage { extent, format: 37, usage: 0xc }),
{
    assert(0x8u32 | 0x4u32 == 0xcu32) by (bit_vector);
}

/// The blit pass is built one thing after the other, each with what it needs,
/// and what was made is kept for what it was made for. The image leaves its
/// first layout, for good, before anything uses it, and what the pass samples
/// is that image.
pub proof fn the_blit_pass_is_built_one_after_the_other(
    setup: BlitSetup,
    event: BlitEvent,
    progress: BlitProgress,
)
    requires
        setup.expects(event),
        !(event is Failed),
        call_ensures(BlitSetup::advance, (setup, event), progress),
    ensures
        ({
            let next = progress->Next_0;
            let action = progress->Next_1;
            let was = setup.blit;
            let plan = setup.plan;
            let made = event->Made_0;
            &&& !(setup.step is Pipeline) ==> progress is Next && next.plan == plan
            &&& setup.step is Image ==> next.step is Sampler && next.blit == (BlitResources {
                output_image: event->image,
                output_image_view: event->view,
                output_image_memory: event->memory,
                ..was
            }) && action == (BlitAction::CreateSampler {
                filter: 1,
                mipmap_mode: 1,
                address_mode: 2,
            })
            &&& setup.step is Sampler ==> next.step is Transition && next.blit == (BlitResources {
                sampler: made,
                ..was
            }) && action == (BlitAction::Transition {
                command_buffer: plan.command_buffer,
                barrier: ImageBarrier {
                    image: was.output_image,
                    old_layout: 0,
                    new_layout: 1,
                    src_stage: 0x1,
                    dst_stage: 0x880,
                    src_access: 0,
                    dst_access: 0x60,
                },
            })
            &&& setup.step is Transition ==> next.step is Layout && next.blit == was && action == (
            BlitAction::CreateSetLayout {
                binding: plan.sampler_binding,
                kind: plan.sampler_descriptor,
                count: plan.descriptor_count,
            })
            &&& setup.step is Layout ==> next.step is Pool && next.blit == (BlitResources {
                descriptor_set_layout: made,
                ..was
            }) && action == (BlitAction::CreatePool {
                kind: plan.sampler_descriptor,
                count: plan.descriptor_count,
                max_sets: plan.max_sets,
            })
            &&& setup.step is Pool ==> next.step is DescriptorSet && next.blit == (BlitResources {
                descriptor_pool: made,
                ..was
            }) && action == (BlitAction::AllocateSet {
                pool: made,
                layout: was.descriptor_set_layout,
            })
            &&& setup.step is DescriptorSet ==> next.step is Pipeline && next.blit == (
            BlitResources { descriptor_set: made, ..was }) && action == (
            BlitAction::BindAndCreatePipeline {
                set: made,
                binding: plan.sampler_binding,
                kind: plan.sampler_descriptor,
                sampler: was.sampler,
                image_view: was.output_image_view,
                image_layout: 1,
                set_layout: was.descriptor_set_layout,
                render_pass: plan.render_pass,
                extent: plan.extent,
            })
            &&& setup.step is Pipeline ==> progress == BlitProgress::Finished(
                Ok(
                    BlitResources {
                        pipeline: event->Pipeline_0.pipeline,
                        pipeline_layout: event->Pipeline_0.pipeline_layout,
                        ..was
                    },
                ),
            )
        }),
{
    assert(0x800u32 | 0x80u32 == 0x880u32) by (bit_vector);
    assert(0x40u32 | 0x20u32 == 0x60u32) by (bit_vector);
}

/// The first failure ends building the blit pass, and is told.
pub proof fn a_failure_ends_building_the_blit_pass(
    setup: BlitSetup,
    error: Error,
    progress: BlitProgress,
)
    requires
        call_ensures(BlitSetup::advance, (setup, BlitEvent::Failed(error)), progress),
    ensures
        progress == BlitProgress::Finished(Err(error)),
{
}

/// A renderer begins with what was built for it, and has not rendered
/// anything.
pub proof fn a_renderer_begins_with_what_was_built(
    plan: SwapchainPlan,
    surface: u64,
    parts: SwapchainParts,
    frame: FrameParts,
    device_info: DeviceInfo,
    renderer: SwapchainRenderer,
)
    requires
        parts.image_views@.len() == parts.framebuffers@.len(),
        call_ensures(
            SwapchainRenderer::new,
            (&plan, surface, parts, frame, device_info),
            renderer,
        ),
    ensures
        renderer.surface == surface,
        renderer.extent == plan.extent,
        renderer.parts == parts,
        renderer.frame == frame,
        renderer.device_info == device_info,
        !renderer.has_submitted_frame,
        renderer.last_gpu_ticks is None,
        renderer.blit is None,
        renderer.compute is None,
        renderer.frame_counter == 0,
        !renderer.touch.is_down && !renderer.touch.ever_clicked,
{
}

/// New shaders are drawn with if a pipeline was built from them, for the
/// renderer's own render pass and size. The pipeline that was used before is
/// given back, and everything else stays. If none was built, nothing changes,
/// and the reason is told.
pub proof fn new_shaders_are_drawn_with(
    shaders: GraphicsShaders,
    renderer: &mut SwapchainRenderer,
    plan: PipelinePlan,
    built: Result<GraphicsProgram, Error>,
    destroy: Result<Vec<Destroy>, Error>,
)
    requires
        call_ensures(SwapchainRenderer::plan_shaders, (old(renderer), shaders), plan),
        call_ensures(SwapchainRenderer::set_shaders, (renderer, plan, built), destroy),
    ensures
        plan.render_pass == old(renderer).parts.render_pass,
        plan.extent == old(renderer).extent,
        plan.shaders == shaders,
        built is Err ==> destroy == Err::<Vec<Destroy>, Error>(built->Err_0) && *final(renderer)
            == *old(renderer),
        built is Ok ==> {
            let before = *old(renderer);
            let after = *final(renderer);
            &&& after.parts.pipeline == built->Ok_0.pipeline
            &&& after.parts.pipeline_layout == built->Ok_0.pipeline_layout
            &&& after.parts.shaders == shaders
            &&& after.parts.swapchain == before.parts.swapchain
            &&& after.parts.render_pass == before.parts.render_pass
            &&& after.parts.framebuffers == before.parts.framebuffers
            &&& after.parts.image_views == before.parts.image_views
            &&& after == (SwapchainRenderer { parts: after.parts, ..before })
            &&& destroy is Ok
            &&& destroy->Ok_0@ == seq![
                Destroy::Pipeline(before.parts.pipeline),
                Destroy::PipelineLayout(before.parts.pipeline_layout),
            ]
        },
{
}

/// Whether these are the blit pass and its image, each part of them once.
pub open spec fn gives_back_pass(destroy: Seq<Destroy>, blit: BlitResources) -> bool {
    &&& destroy.len() == 8
    &&& destroy[0] == Destroy::DescriptorPool(blit.descriptor_pool)
    &&& destroy[1] == Destroy::DescriptorSetLayout(blit.descriptor_set_layout)
    &&& destroy[2] == Destroy::Pipeline(blit.pipeline)
    &&& destroy[3] == Destroy::PipelineLayout(blit.pipeline_layout)
    &&& destroy[4] == Destroy::Sampler(blit.sampler)
    &&& destroy[5] == Destroy::ImageView(blit.output_image_view)
    &&& destroy[6] == Destroy::Image(blit.output_image)
    &&& destroy[7] == Destroy::Memory(blit.output_image_memory)
}

/// Whether these are what drives the frames, each of them once.
pub open spec fn gives_back_frame(destroy: Seq<Destroy>, frame: FrameParts) -> bool {
    &&& destroy.len() == 5
    &&& destroy[0] == Destroy::QueryPool(frame.timestamp_query_pool)
    &&& destroy[1] == Destroy::Fence(frame.in_flight)
    &&& destroy[2] == Destroy::Semaphore(frame.render_finished)
    &&& destroy[3] == Destroy::Semaphore(frame.image_available)
    &&& destroy[4] == Destroy::CommandPool(frame.command_pool)
}

/// Whether these are what depends on the size of the surface, each of them
/// once: the pipeline, the framebuffers, the render pass, the views, and the
/// swapchain.
pub open spec fn gives_back_parts(destroy: Seq<Destroy>, parts: SwapchainParts) -> bool {
    let f = parts.framebuffers@.len() as int;
    let v = parts.image_views@.len() as int;
    &&& destroy.len() == 4 + f + v
    &&& destroy[0] == Destroy::Pipeline(parts.pipeline)
    &&& destroy[1] == Destroy::PipelineLayout(parts.pipeline_layout)
    &&& forall|i: int|
        0 <= i < f ==> destroy[2 + i] == Destroy::Framebuffer(#[trigger] parts.framebuffers@[i])
    &&& destroy[2 + f] == Destroy::RenderPass(parts.render_pass)
    &&& forall|i: int|
        0 <= i < v ==> destroy[3 + f + i] == Destroy::ImageView(#[trigger] parts.image_views@[i])
    &&& destroy[3 + f + v] == Destroy::Swapchain(parts.swapchain)
}

proof fn lemma_gives_back_parts(parts: SwapchainParts)
    ensures
        gives_back_parts(parts_teardown(parts), parts),
{
    let f = parts.framebuffers@.len() as int;
    let v = parts.image_views@.len() as int;
    let all = parts_teardown(parts);
    let framebuffers = framebuffers_teardown(parts.framebuffers@);
    let views = views_teardown(parts.image_views@);
    assert(framebuffers.len() == f && views.len() == v);
    assert forall|i: int| 0 <= i < f implies all[2 + i] == Destroy::Framebuffer(
        #[trigger] parts.framebuffers@[i],
    ) by {
        assert(all[2 + i] == framebuffers[i]);
    }
    assert forall|i: int| 0 <= i < v implies all[3 + f + i] == Destroy::ImageView(
        #[trigger] parts.image_views@[i],
    ) by {
        assert(all[3 + f + i] == views[i]);
    }
}

/// A renderer that goes away gives back everything it has, once: the shader in
/// use, the blit pass, what drives the frames, what depends on the size, and
/// at the very end the surface.
pub proof fn a_renderer_gives_everything_back(renderer: SwapchainRenderer, destroy: Vec<Destroy>)
    requires
        call_ensures(SwapchainRenderer::drop_order, (&renderer,), destroy),
    ensures
        ({
            let all = destroy@;
            let s: int = if renderer.compute is None {
                0
            } else if renderer.compute->0.uniforms is Some {
                7
            } else {
                4
            };
            let b: int = s + (if renderer.blit is Some {
                8int
            } else {
                0
            });
            let n = all.len() as int;
            &&& renderer.compute is Some ==> gives_back_shader(
                all.subrange(0, s),
                renderer.compute->0,
            )
            &&& renderer.blit is Some ==> gives_back_pass(all.subrange(s, b), renderer.blit->0)
            &&& gives_back_frame(all.subrange(b, b + 5), renderer.frame)
            &&& gives_back_parts(all.subrange(b + 5, n - 1), renderer.parts)
            &&& all[n - 1] == Destroy::Surface(renderer.surface)
        }),
{
    let all = destroy@;
    let shader = compute_teardown(renderer.compute);
    let pass = pass_teardown(renderer.blit);
    let frame = frame_teardown(renderer.frame);
    let parts = parts_teardown(renderer.parts);
    let s = shader.len() as int;
    let b = s + pass.len();
    let n = all.len() as int;
    lemma_gives_back_parts(renderer.parts);
    assert(all == shader + pass + frame + parts + seq![Destroy::Surface(renderer.surface)]);
    assert(all.subrange(0, s) == shader);
    assert(all.subrange(s, b as int) == pass);
    assert(all.subrange(b as int, b + 5) == frame);
    assert(all.subrange(b + 5, n - 1) == parts);
}

/// A change of size that goes well gives the renderer the new size and what
/// was built for it, and gives back what it had for the old one. The shader in
/// use stays, and is made to write to the new image. Nothing else changes.
pub proof fn a_change_of_size_replaces_what_depends_on_it(
    parts: SwapchainParts,
    blit: BlitResources,
    resize: Resize,
    renderer: &mut SwapchainRenderer,
    next: (Resize, ResizeAction),
)
    requires
        old(renderer).well_formed(),
        resize.well_formed(*old(renderer)),
        resize.step == ResizeStep::Blit(parts),
        call_ensures(Resize::advance, (resize, renderer, ResizeEvent::Blit(blit)), next),
    ensures
        ({
            let before = *old(renderer);
            let recreated = next.1->Finish_0;
            let all = recreated.destroy@;
            &&& next.1 is Finish
            &&& next.0.step is Over
            &&& *final(renderer) == (SwapchainRenderer {
                extent: resize.plan.extent,
                parts,
                blit: Some(blit),
                ..before
            })
            &&& gives_back_pass(all.subrange(0, 8), before.blit->0)
            &&& gives_back_parts(all.subrange(8, all.len() as int), before.parts)
            &&& before.compute is Some ==> recreated.rebind == Some(
                ImageWrite {
                    descriptor_set: before.compute->0.descriptor_set,
                    binding: before.compute->0.output_texture_binding,
                    image_view: blit.output_image_view,
                },
            )
            &&& before.compute is None ==> recreated.rebind is None
        }),
{
    let before = *old(renderer);
    let all = next.1->Finish_0.destroy@;
    let pass = pass_teardown(before.blit);
    lemma_gives_back_parts(before.parts);
    assert(all.subrange(0, 8) == pass);
    assert(all.subrange(8, all.len() as int) == parts_teardown(before.parts));
}

/// When what depends on the size is built, a renderer with a blit pass has it
/// built anew for the new size and render pass, and one without takes over
/// what was built.
pub proof fn a_blit_pass_is_built_anew_if_there_is_one(
    setup: PartsSetup,
    program: GraphicsProgram,
    resize: Resize,
    renderer: &mut SwapchainRenderer,
    next: (Resize, ResizeAction),
)
    requires
        old(renderer).well_formed(),
        resize.well_formed(*old(renderer)),
        resize.step == ResizeStep::Parts(setup),
        setup.step is Pipeline,
        call_ensures(
            Resize::advance,
            (resize, renderer, ResizeEvent::Part(PartsEvent::Pipeline(program))),
            next,
        ),
    ensures
        ({
            let before = *old(renderer);
            let after = *final(renderer);
            &&& before.blit is Some ==> {
                &&& next.1 is CreateBlit
                &&& next.1->CreateBlit_0.extent == resize.plan.extent
                &&& next.1->CreateBlit_0.render_pass == setup.render_pass
                &&& next.1->CreateBlit_0.command_buffer == before.frame.command_buffer
                &&& after == before
            }
            &&& before.blit is None ==> {
                let all = next.1->Finish_0.destroy@;
                &&& next.1 is Finish
                &&& after == (SwapchainRenderer {
                    extent: resize.plan.extent,
                    parts: after.parts,
                    ..before
                })
                &&& after.parts.swapchain == setup.swapchain
                &&& after.parts.render_pass == setup.render_pass
                &&& after.parts.image_views == setup.image_views
                &&& after.parts.framebuffers == setup.framebuffers
                &&& after.parts.pipeline == program.pipeline
                &&& after.parts.pipeline_layout == program.pipeline_layout
                &&& gives_back_parts(all, before.parts)
                &&& next.1->Finish_0.rebind is None
            }
        }),
{
    let before = *old(renderer);
    if before.blit is None {
        let all = next.1->Finish_0.destroy@;
        lemma_gives_back_parts(before.parts);
        assert(all == parts_teardown(before.parts));
    }
}

/// A change of size that fails leaves the renderer as it is, says why, and
/// gives back what was built in vain.
pub proof fn a_change_of_size_that_fails_gives_back_what_was_built(
    parts: SwapchainParts,
    error: Error,
    resize: Resize,
    renderer: &mut SwapchainRenderer,
    next: (Resize, ResizeAction),
)
    requires
        old(renderer).well_formed(),
        resize.well_formed(*old(renderer)),
        resize.step == ResizeStep::Blit(parts),
        call_ensures(Resize::advance, (resize, renderer, ResizeEvent::BlitFailed(error)), next),
    ensures
        *final(renderer) == *old(renderer),
        next.1 is Fail,
        next.1->Fail_0 == error,
        gives_back_parts(next.1->Fail_1@, parts),
{
    lemma_gives_back_parts(parts);
}

/// A change of size begins with a swapchain for the surface, in place of the
/// present one, and goes on with the shaders the renderer draws with.
pub proof fn a_change_of_size_begins_with_a_swapchain(
    renderer: SwapchainRenderer,
    plan: SwapchainPlan,
    begun: (Resize, ResizeAction),
)
    requires
        call_ensures(SwapchainRenderer::recreate, (&renderer, plan), begun),
    ensures
        begun.1 == ResizeAction::Build(
            PartsAction::CreateSwapchain {
                surface: renderer.surface,
                plan,
                old_swapchain: renderer.parts.swapchain,
            },
        ),
        begun.0.step is Parts,
        begun.0.step->Parts_0.shaders.vertex@ == renderer.parts.shaders.vertex@,
        begun.0.step->Parts_0.shaders.fragment@ == renderer.parts.shaders.fragment@,
        begun.0.step->Parts_0.plan == plan,
        begun.0.plan == plan,
{
}

/// A shader is run once on a buffer, from nothing to the contents of the
/// buffer, one thing after the other, each with what it needs. What was made
/// is kept for what it was made for.
pub proof fn a_sample_is_run_one_thing_after_the_other(
    event: SampleEvent,
    sample: &mut ComputeSample,
    action: SampleAction,
)
    requires
        old(sample).expects(event),
        !(event is Failed),
        call_ensures(ComputeSample::advance, (sample, event), action),
    ensures
        ({
            let was = *old(sample);
            let now = *final(sample);
            let made = event->Made_0;
            let command_buffer = was.command_buffer;
            &&& was.step is Instance ==> now.step is Device && action is CreateDevice
            &&& was.step is Device ==> now.step is Shader && action is CreateShader
                && action->CreateShader_0@ == was.spirv@
            &&& was.step is Shader ==> {
                &&& now.step is Pipeline
                &&& now.shader == made
                &&& action is CreatePipeline
                &&& action->shader == made
                &&& action->entry_point@ == "main"@
                &&& action->CreatePipeline_binding == (Binding { binding: 0, descriptor: 7 })
            }
            &&& was.step is Pipeline ==> now.step is Buffer && now.pipeline
                == event->MadePipeline_0 && action == (SampleAction::CreateBuffer {
                size: was.buffer_size,
                usage: 0x20,
            })
            &&& was.step is Buffer ==> now.step is DescriptorPool && now.buffer == made && action
                == (SampleAction::CreateDescriptorPool { kind: 7, count: 1, max_sets: 1 })
            &&& was.step is DescriptorPool ==> now.step is DescriptorSet && now.descriptor_pool
                == made && action == (SampleAction::AllocateSet {
                pool: made,
                layout: was.pipeline.descriptor_set_layout,
            })
            &&& was.step is DescriptorSet ==> now.step is CommandPool && now.descriptor_set == made
                && action == (SampleAction::BindAndCreateCommandPool {
                set: made,
                binding: 0,
                kind: 7,
                buffer: was.buffer,
                range: was.buffer_size,
            })
            &&& was.step is CommandPool ==> now.step is CommandBuffer && now.command_pool == made
                && action == (SampleAction::AllocateCommandBuffer { pool: made })
            &&& was.step is CommandBuffer ==> now.step is Begin && now.command_buffer == made
                && action == (SampleAction::BeginRecording { command_buffer: made })
            &&& was.step is Begin ==> {
                &&& now.step is End
                &&& action is Record
                &&& action->Record_command_buffer == command_buffer
                &&& action->commands@ == seq![
                    FrameCommand::BindPipeline { point: 1, pipeline: was.pipeline.pipeline },
                    FrameCommand::BindDescriptorSet {
                        point: 1,
                        layout: was.pipeline.pipeline_layout,
                        set: was.descriptor_set,
                    },
                    FrameCommand::Dispatch { x: was.groups.x, y: was.groups.y, z: was.groups.z },
                ]
            }
            &&& was.step is End ==> now.step is Submit && action == (SampleAction::Submit {
                command_buffer,
            })
            &&& was.step is Submit ==> now.step is WaitIdle && action is WaitIdle
            &&& was.step is WaitIdle ==> now.step is Read && action == (
            SampleAction::DestroyPoolsAndRead {
                command_pool: was.command_pool,
                descriptor_pool: was.descriptor_pool,
                buffer: was.buffer,
                size: was.buffer_size,
            })
            &&& was.step is Read ==> now.step is Over && action == SampleAction::Finish(
                Ok(event->Contents_0),
            )
            &&& now.spirv == was.spirv && now.groups == was.groups && now.buffer_size
                == was.buffer_size
            &&& !(was.step is Shader) ==> now.shader == was.shader
            &&& !(was.step is Pipeline) ==> now.pipeline == was.pipeline
            &&& !(was.step is Buffer) ==> now.buffer == was.buffer
            &&& !(was.step is DescriptorPool) ==> now.descriptor_pool == was.descriptor_pool
            &&& !(was.step is DescriptorSet) ==> now.descriptor_set == was.descriptor_set
            &&& !(was.step is CommandPool) ==> now.command_pool == was.command_pool
            &&& !(was.step is CommandBuffer) ==> now.command_buffer == was.command_buffer
        }),
{
}

/// A run begins with the shader, the groups and the size that are given, and
/// with an instance. The first failure ends it, and is told.
pub proof fn a_sample_begins_with_an_instance(
    spirv: Vec<u8>,
    groups: ThreadGroups,
    buffer_size: usize,
    begun: (ComputeSample, SampleAction),
    error: Error,
    sample: &mut ComputeSample,
    action: SampleAction,
)
    requires
        call_ensures(
            ComputeSample::run_compute_sample,
            (spirv, groups, buffer_size),
            begun,
        ),
        old(sample).expects(SampleEvent::Failed(error)),
        call_ensures(ComputeSample::advance, (sample, SampleEvent::Failed(error)), action),
    ensures
        begun.0.spirv == spirv,
        begun.0.groups == groups,
        begun.0.buffer_size == buffer_size,
        begun.1 is CreateInstance,
        begun.1->CreateInstance_0@ == "renderer-capi compute sample"@,
        action == SampleAction::Finish(Err(error)),
        final(sample).step is Over,
{
}

/// What a run came to is a number: zero with the contents of the buffer, one
/// if nothing could be run, and two for every failure.
pub proof fn what_a_run_came_to_is_a_number(
    run: Option<Result<Vec<u8>, Error>>,
    status: (RendererCapiStatus, Option<Vec<u8>>),
    code: i32,
)
    requires
        call_ensures(sample_status, (run,), status),
        call_ensures(RendererCapiStatus::code, (status.0,), code),
    ensures
        run is None ==> code == 1 && status.1 is None,
        run is Some && run->0 is Err ==> code == 2 && status.1 is None,
        run is Some && run->0 is Ok ==> code == 0 && status.1 == Some(run->0->Ok_0),
{
}

/// The name of a device is what stands before the first zero byte, as text.
pub proof fn a_name_ends_at_a_zero_byte(
    name_field: &[u8],
    device_type: i32,
    info: PhysicalDeviceInfo,
    name: Seq<u8>,
    rest: Seq<u8>,
)
    requires
        call_ensures(PhysicalDeviceInfo::describe, (name_field, device_type), info),
        !name.contains(0u8),
        name_field@ == name + seq![0u8] + rest || name_field@ == name,
    ensures
        info.name@ == utf8_lossy(name),
{
    lemma_before_zero_of(name, seq![0u8] + rest);
    lemma_before_zero_of(name, Seq::empty());
    assert(name + seq![0u8] + rest == name + (seq![0u8] + rest));
    assert(name + Seq::<u8>::empty() == name);
}

proof fn lemma_before_zero_of(name: Seq<u8>, rest: Seq<u8>)
    requires
        !name.contains(0u8),
        rest.len() > 0 ==> rest[0] == 0,
    ensures
        before_zero(name + rest) == name,
    decreases name.len(),
{
    if name.len() == 0 {
        assert(name + rest == rest);
        assert(before_zero(rest) == Seq::<u8>::empty());
    } else {
        let shorter = name.drop_first();
        assert(!shorter.contains(0u8)) by {
            if shorter.contains(0u8) {
                assert(name[shorter.index_of(0u8) + 1] == 0);
            }
        }
        assert(name[0] != 0) by {
            assert(name.contains(name[0]));
        }
        lemma_before_zero_of(shorter, rest);
        assert((name + rest).drop_first() == shorter + rest);
        assert((name + rest).first() == name[0]);
        assert(seq![name[0]] + shorter == name);
    }
}

/// What Vulkan says of a code is told with an error that has one.
pub proof fn a_vulkan_error_is_told_in_words(error: Error, s: String, text: &str, with: String)
    requires
        call_ensures(Error::message, (&error,), s),
        call_ensures(Error::message_with, (&error, text), with),
    ensures
        error is Vulkan ==> s@ == "Vulkan call failed: "@
            + crate::renderer::device::vulkan_result_text(error->Vulkan_0),
        !(error is Vulkan) ==> s@ == with@,
{
}

/// A renderer takes in touches where they are made, in order, and they change
/// nothing but its touch state. What it is asked for is what it has.
pub proof fn touches_change_only_the_touch_state(
    x: u32,
    y: u32,
    events: Vec<TouchEvent>,
    pressed: &mut SwapchainRenderer,
    moved: &mut SwapchainRenderer,
    lifted: &mut SwapchainRenderer,
    touched: &mut SwapchainRenderer,
    renderer: SwapchainRenderer,
    extent: Extent,
    info: &DeviceInfo,
    ticks: Option<u64>,
)
    requires
        call_ensures(SwapchainRenderer::touch_down, (pressed, x, y), ()),
        call_ensures(SwapchainRenderer::touch_move, (moved, x, y), ()),
        call_ensures(SwapchainRenderer::touch_up, (lifted,), ()),
        call_ensures(SwapchainRenderer::touch_all, (touched, &events), ()),
        call_ensures(SwapchainRenderer::extent, (&renderer,), extent),
        call_ensures(SwapchainRenderer::device_info, (&renderer,), info),
        call_ensures(SwapchainRenderer::last_gpu_frame_ticks, (&renderer,), ticks),
    ensures
        ({
            let after = final(pressed).touch;
            &&& after.current_x == x && after.current_y == y
            &&& after.last_down_x == x && after.last_down_y == y
            &&& after.is_down && after.ever_clicked
            &&& *final(pressed) == (SwapchainRenderer { touch: after, ..*old(pressed) })
        }),
        ({
            let before = old(moved).touch;
            let after = final(moved).touch;
            &&& before.is_down ==> after.current_x == x && after.current_y == y
            &&& !before.is_down ==> after == before
            &&& after.last_down_x == before.last_down_x && after.last_down_y == before.last_down_y
            &&& after.is_down == before.is_down && after.ever_clicked == before.ever_clicked
            &&& *final(moved) == (SwapchainRenderer { touch: after, ..*old(moved) })
        }),
        ({
            let before = old(lifted).touch;
            let after = final(lifted).touch;
            &&& !after.is_down && after.ever_clicked == before.ever_clicked
            &&& after.current_x == before.current_x && after.current_y == before.current_y
            &&& after.last_down_x == before.last_down_x && after.last_down_y == before.last_down_y
            &&& *final(lifted) == (SwapchainRenderer { touch: after, ..*old(lifted) })
        }),
        *final(touched) == (SwapchainRenderer {
            touch: old(touched).touch.after_all(events@),
            ..*old(touched)
        }),
        extent == renderer.extent,
        *info == renderer.device_info,
        ticks == renderer.last_gpu_ticks,
{
}

/// A copy of shaders holds the same bytes.
pub proof fn a_copy_of_shaders_holds_the_same_bytes(
    shaders: GraphicsShaders,
    copy: GraphicsShaders,
)
    requires
        call_ensures(GraphicsShaders::duplicate, (&shaders,), copy),
    ensures
        copy.vertex@ == shaders.vertex@,
        copy.fragment@ == shaders.fragment@,
{
}

/// Until everything is built, a change of size goes on building, from what is
/// there, and the renderer stays as it is. The first failure ends it, and is
/// told.
pub proof fn a_change_of_size_builds_one_thing_after_the_other(
    setup: PartsSetup,
    event: PartsEvent,
    resize: Resize,
    renderer: &mut SwapchainRenderer,
    next: (Resize, ResizeAction),
)
    requires
        old(renderer).well_formed(),
        resize.well_formed(*old(renderer)),
        resize.step == ResizeStep::Parts(setup),
        setup.expects(event),
        !(event is Pipeline),
        call_ensures(Resize::advance, (resize, renderer, ResizeEvent::Part(event)), next),
    ensures
        *final(renderer) == *old(renderer),
        next.0.plan == resize.plan,
        event is Failed ==> next.1 is Fail && next.1->Fail_0 == event->Failed_0
            && next.1->Fail_1@.len() == 0 && next.0.step is Over,
        !(event is Failed) ==> {
            &&& next.0.step is Parts
            &&& next.1 is Build
            &&& setup.leads_to(event, next.0.step->Parts_0)
            &&& next.0.step->Parts_0.asks(next.1->Build_0)
        },
{
}

} // verus!
