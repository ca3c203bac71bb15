//! Putting a compute shader in use, one fallible step at a time.
//!
//! `SwapchainRenderer::set_compute_shader` begins a `ComputeSetup`. Each
//! `SetupAction` is carried out and answered with a `SetupEvent`, until the
//! setup finishes. Until the very end the shader in use stays in use, and a
//! setup that fails leaves it there. The blit pass is built once, by the first
//! setup that asks for it, and stays with the renderer from then on.

use crate::bytes::copy_bytes;
use crate::renderer::resources::{
    compute_teardown, frame_teardown, parts_teardown, pass_teardown, push_compute, push_uniforms,
    shader_teardown, uniform_teardown, BlitResources, ComputeStage, Destroy, ThreadGroups,
    UniformBuffer, UniformBufferLayout,
};
use crate::renderer::surface::{Error, Extent, FORMAT_R8G8B8A8_UNORM};
use crate::renderer::swapchain::SwapchainRenderer;
use crate::renderer::touch::TouchState;
use vstd::prelude::*;

verus! {

/// A sampled image together with its sampler (`VkDescriptorType`).
pub const DESCRIPTOR_COMBINED_IMAGE_SAMPLER: i32 = 1;

/// An image a shader writes (`VkDescriptorType`).
pub const DESCRIPTOR_STORAGE_IMAGE: i32 = 3;

/// A buffer of uniforms (`VkDescriptorType`).
pub const DESCRIPTOR_UNIFORM_BUFFER: i32 = 6;

/// An image that shaders sample (`VkImageUsageFlagBits`).
pub const USAGE_SAMPLED: u32 = 0x4;

/// An image that shaders write (`VkImageUsageFlagBits`).
pub const USAGE_STORAGE: u32 = 0x8;

/// Where the blit pass samples the output image.
pub const BLIT_SAMPLER_BINDING: u32 = 0;

/// Where a shader with uniforms expects them.
pub const UNIFORM_BUFFER_BINDING: u32 = 0;

/// What a compute shader is made from.
#[derive(Debug)]
pub struct ComputeRequest {
    pub spirv: Vec<u8>,
    pub entry_point: String,
    pub thread_group_size: ThreadGroups,
    pub output_texture_binding: u32,
    pub uniforms: Option<UniformBufferLayout>,
}

/// The image a compute shader writes and the pass that samples it: always
/// the size of the surface, in one format, with a single descriptor. It is
/// drawn in `render_pass`, and `command_buffer` is idle while it is built.
#[derive(Clone, Copy, PartialEq, Eq, Structural, Debug)]
pub struct BlitPlan {
    pub extent: Extent,
    pub render_pass: u64,
    pub command_buffer: u64,
    pub format: i32,
    pub usage: u32,
    pub sampler_binding: u32,
    pub sampler_descriptor: i32,
    pub descriptor_count: u32,
    pub max_sets: u32,
}

/// One resource a pipeline expects.
#[derive(Clone, Copy, PartialEq, Eq, Structural, Debug)]
pub struct Binding {
    pub binding: u32,
    pub descriptor: i32,
}

/// A compute pipeline, its layout, and the layout of its descriptors.
#[derive(Clone, Copy, PartialEq, Eq, Structural, Debug)]
pub struct ComputeProgram {
    pub pipeline: u64,
    pub pipeline_layout: u64,
    pub descriptor_set_layout: u64,
}

/// A buffer that was created and mapped.
#[derive(Clone, Copy, PartialEq, Eq, Structural, Debug)]
pub struct MappedBuffer {
    pub buffer: u64,
    pub memory: u64,
    pub mapped: u64,
}

/// A descriptor set and the pool it came from.
#[derive(Clone, Copy, PartialEq, Eq, Structural, Debug)]
pub struct Descriptors {
    pub pool: u64,
    pub set: u64,
}

/// The descriptors of a compute shader: one set of `set_layout`, from a pool
/// that holds one descriptor of each kind in `kinds`, with the output image
/// at one binding and, if there are uniforms, their whole buffer at another.
#[derive(Debug)]
pub struct DescriptorPlan {
    pub set_layout: u64,
    pub kinds: Vec<i32>,
    pub image_binding: u32,
    pub image_view: u64,
    pub uniform: Option<BufferWrite>,
}

/// A buffer to bind whole.
#[derive(Clone, Copy, PartialEq, Eq, Structural, Debug)]
pub struct BufferWrite {
    pub binding: u32,
    pub buffer: u64,
}

/// What a setup has reached.
#[derive(Clone, Copy, PartialEq, Eq, Debug)]
pub enum SetupStep {
    Blit,
    Uniforms,
    Program,
    Descriptors,
    Idle(Descriptors),
    Finished,
}

/// A compute shader on its way into use, with what was made for it so far.
#[derive(Debug)]
pub struct ComputeSetup {
    pub request: ComputeRequest,
    pub uniforms: Option<UniformBuffer>,
    pub program: Option<ComputeProgram>,
    pub step: SetupStep,
}

/// What to do next.
#[derive(Debug)]
pub enum SetupAction {
    /// Build the output image and the blit pass.
    CreateBlit(BlitPlan),
    /// Create a uniform buffer of this many bytes and map it.
    CreateUniforms(u32),
    /// Build the pipeline from this entry point of this shader, which expects
    /// these resources.
    CreateProgram { spirv: Vec<u8>, entry_point: String, bindings: Vec<Binding> },
    /// Allocate and fill the descriptors.
    CreateDescriptors(DescriptorPlan),
    /// Wait until the device is idle, successfully or not.
    WaitIdle,
    /// Give these back. The shader is in use if the result is `Ok`.
    Finish(Result<(), Error>, Vec<Destroy>),
}

/// What came of an action.
#[derive(Debug)]
pub enum SetupEvent {
    Blit(BlitResources),
    Uniforms(MappedBuffer),
    Program(ComputeProgram),
    Descriptors(Descriptors),
    Idle,
    Failed(Error),
}

/// The facts about the blit pass for a surface of this size.
pub open spec fn blit_plan(extent: Extent, render_pass: u64, command_buffer: u64) -> BlitPlan {
    BlitPlan {
        extent,
        render_pass,
        command_buffer,
        format: FORMAT_R8G8B8A8_UNORM,
        usage: USAGE_STORAGE | USAGE_SAMPLED,
        sampler_binding: BLIT_SAMPLER_BINDING,
        sampler_descriptor: DESCRIPTOR_COMBINED_IMAGE_SAMPLER,
        descriptor_count: 1,
        max_sets: 1,
    }
}

/// Plans the blit pass for a surface of this size.
pub fn plan_blit(extent: Extent, render_pass: u64, command_buffer: u64) -> (plan: BlitPlan)
    ensures
        plan == blit_plan(extent, render_pass, command_buffer),
{
    BlitPlan {
        extent,
        render_pass,
        command_buffer,
        format: FORMAT_R8G8B8A8_UNORM,
        usage: USAGE_STORAGE | USAGE_SAMPLED,
        sampler_binding: BLIT_SAMPLER_BINDING,
        sampler_descriptor: DESCRIPTOR_COMBINED_IMAGE_SAMPLER,
        descriptor_count: 1,
        max_sets: 1,
    }
}

/// Whether a layout asks for a buffer at all.
pub open spec fn wants_uniforms(layout: Option<UniformBufferLayout>) -> bool {
    layout is Some && layout->0.size > 0
}

/// The resources a pipeline expects.
pub open spec fn bindings_of(output_texture_binding: u32, uniforms: bool) -> Seq<Binding> {
    let image = Binding { binding: output_texture_binding, descriptor: DESCRIPTOR_STORAGE_IMAGE };
    if uniforms {
        seq![
            image,
            Binding { binding: UNIFORM_BUFFER_BINDING, descriptor: DESCRIPTOR_UNIFORM_BUFFER },
        ]
    } else {
        seq![image]
    }
}

/// The kinds of descriptor a shader needs.
pub open spec fn kinds_of(uniforms: bool) -> Seq<i32> {
    if uniforms {
        seq![DESCRIPTOR_STORAGE_IMAGE, DESCRIPTOR_UNIFORM_BUFFER]
    } else {
        seq![DESCRIPTOR_STORAGE_IMAGE]
    }
}

/// A mapped buffer as a uniform buffer with the offsets of `layout`.
pub open spec fn uniforms_from(layout: UniformBufferLayout, made: MappedBuffer) -> UniformBuffer {
    UniformBuffer {
        buffer: made.buffer,
        memory: made.memory,
        mapped: made.mapped,
        time_offset: layout.time_offset,
        frame_id_offset: layout.frame_id_offset,
        mouse_position_offset: layout.mouse_position_offset,
    }
}

/// Giving back a pipeline that never came into use.
pub open spec fn program_teardown(program: Option<ComputeProgram>) -> Seq<Destroy> {
    match program {
        Some(p) => seq![
            Destroy::DescriptorSetLayout(p.descriptor_set_layout),
            Destroy::Pipeline(p.pipeline),
            Destroy::PipelineLayout(p.pipeline_layout),
        ],
        None => Seq::empty(),
    }
}

impl ComputeSetup {
    /// The stages come in order, and each finds what it builds on.
    pub open spec fn well_formed(self) -> bool {
        &&& self.step is Blit || self.step is Uniforms ==> self.uniforms is None
        &&& self.step is Uniforms ==> wants_uniforms(self.request.uniforms)
        &&& self.step is Blit || self.step is Uniforms || self.step is Program
            ==> self.program is None
        &&& self.step is Descriptors || self.step is Idle ==> self.program is Some
        &&& self.step is Program || self.step is Descriptors || self.step is Idle
            ==> (self.uniforms is Some <==> wants_uniforms(self.request.uniforms))
    }

    /// The setup was begun by `renderer`: it asks for a blit pass only if the
    /// renderer has none.
    pub open spec fn begun_by(self, renderer: SwapchainRenderer) -> bool {
        self.step is Finished || (self.step is Blit <==> renderer.blit is None)
    }

    /// Giving back everything this setup made so far for its own shader. The
    /// blit pass is not among it: the renderer keeps that for the next one.
    pub open spec fn made(self) -> Seq<Destroy> {
        program_teardown(self.program) + uniform_teardown(self.uniforms)
    }

    /// Whether `event` can answer what was last asked for.
    pub open spec fn expects(self, event: SetupEvent) -> bool {
        match self.step {
            SetupStep::Blit => event is Blit || event is Failed,
            SetupStep::Uniforms => event is Uniforms || event is Failed,
            SetupStep::Program => event is Program || event is Failed,
            SetupStep::Descriptors => event is Descriptors || event is Failed,
            SetupStep::Idle(_) => event is Idle,
            SetupStep::Finished => false,
        }
    }

    /// The setup once the blit pass is at hand.
    pub open spec fn past_blit(self) -> ComputeSetup {
        ComputeSetup {
            step: if wants_uniforms(self.request.uniforms) {
                SetupStep::Uniforms
            } else {
                SetupStep::Program
            },
            ..self
        }
    }

    /// The setup after `event`.
    pub open spec fn after(self, event: SetupEvent) -> ComputeSetup {
        match event {
            SetupEvent::Blit(_) => self.past_blit(),
            SetupEvent::Uniforms(made) => ComputeSetup {
                uniforms: Some(uniforms_from(self.request.uniforms->0, made)),
                step: SetupStep::Program,
                ..self
            },
            SetupEvent::Program(program) => ComputeSetup {
                program: Some(program),
                step: SetupStep::Descriptors,
                ..self
            },
            SetupEvent::Descriptors(descriptors) => ComputeSetup {
                step: SetupStep::Idle(descriptors),
                ..self
            },
            SetupEvent::Idle => ComputeSetup { step: SetupStep::Finished, ..self },
            SetupEvent::Failed(_) => ComputeSetup { step: SetupStep::Finished, ..self },
        }
    }

    /// The stage this setup leads to, once it has its descriptors.
    pub open spec fn stage(self) -> ComputeStage {
        let program = self.program->0;
        let descriptors = self.step->Idle_0;
        ComputeStage {
            pipeline: program.pipeline,
            pipeline_layout: program.pipeline_layout,
            descriptor_set_layout: program.descriptor_set_layout,
            descriptor_pool: descriptors.pool,
            descriptor_set: descriptors.set,
            output_texture_binding: self.request.output_texture_binding,
            thread_group_size: self.request.thread_group_size,
            uniforms: self.uniforms,
        }
    }

    /// The renderer after `event`. A blit pass that was built stays, whatever
    /// comes of the shader it was built for.
    pub open spec fn effect(self, event: SetupEvent, renderer: SwapchainRenderer) -> SwapchainRenderer {
        match event {
            SetupEvent::Blit(blit) => SwapchainRenderer { blit: Some(blit), ..renderer },
            SetupEvent::Idle => SwapchainRenderer { compute: Some(self.stage()), ..renderer },
            _ => renderer,
        }
    }

    /// What is to be given back if `event` ends the setup: what it made, if it
    /// failed, and else what belonged to the shader it replaces.
    pub open spec fn given_back(self, event: SetupEvent, renderer: SwapchainRenderer) -> Seq<
        Destroy,
    > {
        if event is Failed {
            self.made()
        } else {
            compute_teardown(renderer.compute)
        }
    }

    /// How the setup ends if `event` ends it.
    pub open spec fn outcome(self, event: SetupEvent) -> Result<(), Error> {
        match event {
            SetupEvent::Failed(error) => Err(error),
            _ => Ok(()),
        }
    }

    /// Whether `action` is what a setup that has reached this step asks for.
    pub open spec fn asks(self, action: SetupAction, renderer: SwapchainRenderer) -> bool {
        match self.step {
            SetupStep::Blit => action == SetupAction::CreateBlit(
                blit_plan(
                    renderer.extent,
                    renderer.parts.render_pass,
                    renderer.frame.command_buffer,
                ),
            ),
            SetupStep::Uniforms => action == SetupAction::CreateUniforms(self.request.uniforms->0.size),
            SetupStep::Program => action matches SetupAction::CreateProgram {
                spirv,
                entry_point,
                bindings,
            } && {
                &&& spirv@ == self.request.spirv@
                &&& entry_point@ == self.request.entry_point@
                &&& bindings@ == bindings_of(
                    self.request.output_texture_binding,
                    self.uniforms is Some,
                )
            },
            SetupStep::Descriptors => action matches SetupAction::CreateDescriptors(plan) && {
                &&& plan.set_layout == self.program->0.descriptor_set_layout
                &&& plan.kinds@ == kinds_of(self.uniforms is Some)
                &&& plan.image_binding == self.request.output_texture_binding
                &&& plan.image_view == renderer.blit->0.output_image_view
                &&& plan.uniform == (match self.uniforms {
                    Some(u) => Some(
                        BufferWrite { binding: UNIFORM_BUFFER_BINDING, buffer: u.buffer },
                    ),
                    None => None,
                })
            },
            SetupStep::Idle(_) => action is WaitIdle,
            SetupStep::Finished => action is Finish,
        }
    }

    /// What the present step asks for.
    fn ask(&self, renderer: &SwapchainRenderer) -> (action: SetupAction)
        requires
            self.well_formed(),
            self.begun_by(*renderer),
            !(self.step is Finished),
        ensures
            self.asks(action, *renderer),
    {
        match self.step {
            SetupStep::Blit => SetupAction::CreateBlit(
                plan_blit(
                    renderer.extent,
                    renderer.parts.render_pass,
                    renderer.frame.command_buffer,
                ),
            ),
            SetupStep::Uniforms => SetupAction::CreateUniforms(
                match self.request.uniforms {
                    Some(layout) => layout.size,
                    None => 0,
                },
            ),
            SetupStep::Program => {
                let mut bindings: Vec<Binding> = Vec::new();
                bindings.push(
                    Binding {
                        binding: self.request.output_texture_binding,
                        descriptor: DESCRIPTOR_STORAGE_IMAGE,
                    },
                );
                if self.uniforms.is_some() {
                    bindings.push(
                        Binding {
                            binding: UNIFORM_BUFFER_BINDING,
                            descriptor: DESCRIPTOR_UNIFORM_BUFFER,
                        },
                    );
                }
                assert(bindings@ == bindings_of(
                    self.request.output_texture_binding,
                    self.uniforms is Some,
                ));
                SetupAction::CreateProgram {
                    spirv: copy_bytes(self.request.spirv.as_slice()),
                    entry_point: self.request.entry_point.clone(),
                    bindings,
                }
            },
            SetupStep::Descriptors => {
                let mut kinds: Vec<i32> = Vec::new();
                kinds.push(DESCRIPTOR_STORAGE_IMAGE);
                let mut uniform: Option<BufferWrite> = None;
                if let Some(u) = self.uniforms {
                    kinds.push(DESCRIPTOR_UNIFORM_BUFFER);
                    uniform = Some(
                        BufferWrite { binding: UNIFORM_BUFFER_BINDING, buffer: u.buffer },
                    );
                }
                assert(kinds@ == kinds_of(self.uniforms is Some));
                SetupAction::CreateDescriptors(
                    DescriptorPlan {
                        set_layout: self.program.unwrap().descriptor_set_layout,
                        kinds,
                        image_binding: self.request.output_texture_binding,
                        image_view: renderer.blit.unwrap().output_image_view,
                        uniform,
                    },
                )
            },
            SetupStep::Idle(_) => SetupAction::WaitIdle,
            SetupStep::Finished => SetupAction::WaitIdle,
        }
    }

    fn abandon(&self) -> (destroy: Vec<Destroy>)
        ensures
            destroy@ == self.made(),
    {
        let mut destroy: Vec<Destroy> = Vec::new();
        if let Some(program) = self.program {
            destroy.push(Destroy::DescriptorSetLayout(program.descriptor_set_layout));
            destroy.push(Destroy::Pipeline(program.pipeline));
            destroy.push(Destroy::PipelineLayout(program.pipeline_layout));
        }
        assert(destroy@ == program_teardown(self.program));
        push_uniforms(&mut destroy, &self.uniforms);
        destroy
    }

    /// Takes what came of the last action and says what to do next.
    ///
    /// If a step fails, what the setup made for its shader is given back and
    /// the shader in use stays. If none does, the new shader is in use, and
    /// what belonged to the one it replaces is given back.
    pub fn advance(&mut self, renderer: &mut SwapchainRenderer, event: SetupEvent) -> (action:
        SetupAction)
        requires
            old(renderer).well_formed(),
            old(self).well_formed(),
            old(self).begun_by(*old(renderer)),
            old(self).expects(event),
        ensures
            final(renderer).well_formed(),
            final(self).well_formed(),
            final(self).begun_by(*final(renderer)),
            *final(self) == old(self).after(event),
            *final(renderer) == old(self).effect(event, *old(renderer)),
            final(self).asks(action, *final(renderer)),
            action matches SetupAction::Finish(result, destroy) ==> {
                &&& result == old(self).outcome(event)
                &&& destroy@ == old(self).given_back(event, *old(renderer))
            },
    {
        match event {
            SetupEvent::Blit(blit) => {
                renderer.blit = Some(blit);
                self.go_past_blit();
            },
            SetupEvent::Uniforms(made) => {
                let layout = self.request.uniforms.unwrap();
                self.uniforms = Some(
                    UniformBuffer {
                        buffer: made.buffer,
                        memory: made.memory,
                        mapped: made.mapped,
                        time_offset: layout.time_offset,
                        frame_id_offset: layout.frame_id_offset,
                        mouse_position_offset: layout.mouse_position_offset,
                    },
                );
                self.step = SetupStep::Program;
            },
            SetupEvent::Program(program) => {
                self.program = Some(program);
                self.step = SetupStep::Descriptors;
            },
            SetupEvent::Descriptors(descriptors) => {
                self.step = SetupStep::Idle(descriptors);
            },
            SetupEvent::Idle => {
                let mut destroy: Vec<Destroy> = Vec::new();
                push_compute(&mut destroy, &renderer.compute);
                assert(destroy@ == compute_teardown(old(renderer).compute));
                if let SetupStep::Idle(descriptors) = self.step {
                    let program = self.program.unwrap();
                    renderer.compute = Some(
                        ComputeStage {
                            pipeline: program.pipeline,
                            pipeline_layout: program.pipeline_layout,
                            descriptor_set_layout: program.descriptor_set_layout,
                            descriptor_pool: descriptors.pool,
                            descriptor_set: descriptors.set,
                            output_texture_binding: self.request.output_texture_binding,
                            thread_group_size: self.request.thread_group_size,
                            uniforms: self.uniforms,
                        },
                    );
                }
                self.step = SetupStep::Finished;
                return SetupAction::Finish(Ok(()), destroy);
            },
            SetupEvent::Failed(error) => {
                let destroy = self.abandon();
                self.step = SetupStep::Finished;
                return SetupAction::Finish(Err(error), destroy);
            },
        }
        self.ask(renderer)
    }

    fn go_past_blit(&mut self)
        requires
            old(self).well_formed(),
            old(self).step is Blit,
        ensures
            *final(self) == old(self).past_blit(),
            final(self).well_formed(),
    {
        self.step =
        match self.request.uniforms {
            Some(layout) => if layout.size > 0 {
                SetupStep::Uniforms
            } else {
                SetupStep::Program
            },
            None => SetupStep::Program,
        };
    }
}

/// A setup for `request` that has not begun.
pub open spec fn initial_setup(request: ComputeRequest) -> ComputeSetup {
    ComputeSetup { request, uniforms: None, program: None, step: SetupStep::Blit }
}

/// The setup for `request` that `renderer` begins: with the blit pass only if
/// it has none.
pub open spec fn begun_setup(request: ComputeRequest, renderer: SwapchainRenderer) -> ComputeSetup {
    if renderer.blit is Some {
        initial_setup(request).past_blit()
    } else {
        initial_setup(request)
    }
}

impl SwapchainRenderer {
    /// The renderer once a setup has begun: the touch state starts over.
    pub open spec fn untouched(self) -> SwapchainRenderer {
        SwapchainRenderer { touch: TouchState::untouched(), ..self }
    }

    /// Begins to put a compute shader in use. The blit pass is built first,
    /// unless an earlier call has built it. The touch state starts over,
    /// whatever comes of the shader.
    pub fn set_compute_shader(&mut self, request: ComputeRequest) -> (begun: (
        ComputeSetup,
        SetupAction,
    ))
        ensures
            begun.0.well_formed(),
            begun.0.begun_by(*final(self)),
            begun.0.asks(begun.1, *final(self)),
            begun.0 == begun_setup(request, *old(self)),
            *final(self) == old(self).untouched(),
    {
        let mut setup = ComputeSetup {
            request,
            uniforms: None,
            program: None,
            step: SetupStep::Blit,
        };
        if self.blit.is_some() {
            setup.go_past_blit();
        }
        self.touch = TouchState::default();
        let action = setup.ask(self);
        (setup, action)
    }
}

/// Putting a shader in use neither leaks nor gives anything back twice: what
/// was owned before and what the setup made is what is owned afterwards and
/// what was given back.
pub proof fn a_finished_setup_accounts_for_everything(
    setup: ComputeSetup,
    renderer: SwapchainRenderer,
)
    requires
        setup.well_formed(),
        setup.step is Idle,
    ensures
        ({
            let after = setup.effect(SetupEvent::Idle, renderer);
            let given_back = setup.given_back(SetupEvent::Idle, renderer);
            let made = setup.made().push(Destroy::DescriptorPool(setup.step->Idle_0.pool));
            after.teardown().to_multiset().add(given_back.to_multiset())
                =~= renderer.teardown().to_multiset().add(made.to_multiset())
        }),
{
    broadcast use vstd::seq_lib::group_to_multiset_ensures;

    let after = setup.effect(SetupEvent::Idle, renderer);
    let stage = setup.stage();
    let pool = seq![Destroy::DescriptorPool(stage.descriptor_pool)];
    let program = program_teardown(setup.program);
    let uniforms = uniform_teardown(setup.uniforms);
    assert(shader_teardown(stage) == pool + program + uniforms);
    assert(setup.made().push(pool[0]) == setup.made() + pool);
    vstd::seq_lib::lemma_multiset_commutative(pool, program);
    vstd::seq_lib::lemma_multiset_commutative(pool + program, uniforms);
    vstd::seq_lib::lemma_multiset_commutative(program, uniforms);
    vstd::seq_lib::lemma_multiset_commutative(setup.made(), pool);
    let rest = pass_teardown(renderer.blit) + frame_teardown(renderer.frame) + parts_teardown(
        renderer.parts,
    ) + seq![Destroy::Surface(renderer.surface)];
    let replaced = compute_teardown(renderer.compute);
    assert(after.teardown() == shader_teardown(stage) + rest);
    assert(renderer.teardown() == replaced + rest);
    vstd::seq_lib::lemma_multiset_commutative(shader_teardown(stage), rest);
    vstd::seq_lib::lemma_multiset_commutative(replaced, rest);
}

/// A call of `set_compute_shader`: what it was for, and what came of each of
/// its actions.
pub struct Call {
    pub request: ComputeRequest,
    pub events: Seq<SetupEvent>,
}

/// Whether each event can answer what the setup asked for, and the last one
/// ends it.
pub open spec fn carried_out(setup: ComputeSetup, events: Seq<SetupEvent>) -> bool
    decreases events.len(),
{
    if events.len() == 0 {
        setup.step is Finished
    } else {
        setup.expects(events.first()) && carried_out(
            setup.after(events.first()),
            events.drop_first(),
        )
    }
}

/// The renderer after the events of a setup.
pub open spec fn after_events(
    setup: ComputeSetup,
    events: Seq<SetupEvent>,
    renderer: SwapchainRenderer,
) -> SwapchainRenderer
    decreases events.len(),
{
    if events.len() == 0 {
        renderer
    } else {
        after_events(
            setup.after(events.first()),
            events.drop_first(),
            setup.effect(events.first(), renderer),
        )
    }
}

/// The renderer after a call.
pub open spec fn after_call(call: Call, renderer: SwapchainRenderer) -> SwapchainRenderer {
    after_events(begun_setup(call.request, renderer), call.events, renderer.untouched())
}

/// The renderer after several calls.
pub open spec fn after_calls(calls: Seq<Call>, renderer: SwapchainRenderer) -> SwapchainRenderer
    decreases calls.len(),
{
    if calls.len() == 0 {
        renderer
    } else {
        after_call(calls.last(), after_calls(calls.drop_last(), renderer))
    }
}

/// Whether each of several calls was carried out to its end, well or not.
pub open spec fn all_carried_out(calls: Seq<Call>, renderer: SwapchainRenderer) -> bool
    decreases calls.len(),
{
    calls.len() > 0 ==> {
        let before = after_calls(calls.drop_last(), renderer);
        &&& all_carried_out(calls.drop_last(), renderer)
        &&& carried_out(begun_setup(calls.last().request, before), calls.last().events)
    }
}

proof fn lemma_no_more_passes(
    setup: ComputeSetup,
    events: Seq<SetupEvent>,
    renderer: SwapchainRenderer,
)
    requires
        !(setup.step is Blit),
        carried_out(setup, events),
    ensures
        after_events(setup, events, renderer).blit == renderer.blit,
        forall|i: int| 0 <= i < events.len() ==> !(#[trigger] events[i] is Blit),
    decreases events.len(),
{
    if events.len() > 0 {
        let event = events.first();
        lemma_no_more_passes(
            setup.after(event),
            events.drop_first(),
            setup.effect(event, renderer),
        );
        assert forall|i: int| 0 <= i < events.len() implies !(#[trigger] events[i] is Blit) by {
            if i > 0 {
                assert(events[i] == events.drop_first()[i - 1]);
            }
        }
    }
}

/// Once there is a blit pass, no call asks for another or changes it, whether
/// the calls before it succeeded or not, and whether it does itself.
pub proof fn the_blit_pass_is_built_once(
    calls: Seq<Call>,
    renderer: SwapchainRenderer,
    request: ComputeRequest,
)
    requires
        renderer.blit is Some,
        all_carried_out(calls, renderer),
    ensures
        ({
            let after = after_calls(calls, renderer);
            &&& after.blit == renderer.blit
            &&& !(begun_setup(request, after).step is Blit)
            &&& forall|action: SetupAction|
                #[trigger] begun_setup(request, after).asks(action, after.untouched()) ==> !(
                action is CreateBlit)
        }),
        forall|i: int, j: int|
            0 <= i < calls.len() && 0 <= j < calls[i].events.len() ==> !(
            #[trigger] calls[i].events[j] is Blit),
    decreases calls.len(),
{
    if calls.len() > 0 {
        let earlier = calls.drop_last();
        let last = calls.last();
        let before = after_calls(earlier, renderer);
        the_blit_pass_is_built_once(earlier, renderer, last.request);
        lemma_no_more_passes(
            begun_setup(last.request, before),
            last.events,
            before.untouched(),
        );
        assert forall|i: int, j: int|
            0 <= i < calls.len() && 0 <= j < calls[i].events.len() implies !(
        #[trigger] calls[i].events[j] is Blit) by {
            if i < calls.len() - 1 {
                assert(calls[i] == earlier[i]);
                assert(!(earlier[i].events[j] is Blit));
            }
        }
    }
}

/// The pass that the first call builds is the one the renderer has from then
/// on, even if that call fails afterwards.
pub proof fn the_first_pass_stays(
    call: Call,
    renderer: SwapchainRenderer,
    blit: BlitResources,
)
    requires
        renderer.blit is None,
        carried_out(begun_setup(call.request, renderer), call.events),
        call.events.first() == SetupEvent::Blit(blit),
    ensures
        after_call(call, renderer).blit == Some(blit),
{
    let setup = begun_setup(call.request, renderer);
    assert(call.events.len() > 0);
    lemma_no_more_passes(
        setup.after(call.events.first()),
        call.events.drop_first(),
        setup.effect(call.events.first(), renderer.untouched()),
    );
}

/// A setup after several events.
pub open spec fn setup_after(setup: ComputeSetup, events: Seq<SetupEvent>) -> ComputeSetup
    decreases events.len(),
{
    if events.len() == 0 {
        setup
    } else {
        setup_after(setup, events.drop_last()).after(events.last())
    }
}

/// A call builds the shader it was asked for and no other: whatever has come
/// of its actions so far, if it asks for a pipeline next, that is from the
/// bytes and the entry point of the request.
pub proof fn the_requested_shader_is_built(
    request: ComputeRequest,
    before: SwapchainRenderer,
    events: Seq<SetupEvent>,
    now: SwapchainRenderer,
    action: SetupAction,
)
    requires
        setup_after(begun_setup(request, before), events).asks(action, now),
    ensures
        setup_after(begun_setup(request, before), events).request == request,
        action matches SetupAction::CreateProgram { spirv, entry_point, .. } ==> {
            &&& spirv@ == request.spirv@
            &&& entry_point@ == request.entry_point@
        },
{
    lemma_a_setup_keeps_its_request(begun_setup(request, before), events);
}

proof fn lemma_a_setup_keeps_its_request(setup: ComputeSetup, events: Seq<SetupEvent>)
    ensures
        setup_after(setup, events).request == setup.request,
    decreases events.len(),
{
    if events.len() > 0 {
        lemma_a_setup_keeps_its_request(setup, events.drop_last());
    }
}

proof fn lemma_a_failure_changes_only_the_pass(
    setup: ComputeSetup,
    events: Seq<SetupEvent>,
    renderer: SwapchainRenderer,
)
    requires
        carried_out(setup, events),
        events.len() > 0,
        events.last() is Failed,
    ensures
        ({
            let after = after_events(setup, events, renderer);
            after == (SwapchainRenderer { blit: after.blit, ..renderer })
        }),
    decreases events.len(),
{
    let event = events.first();
    let rest = events.drop_first();
    let after = setup.after(event);
    assert(carried_out(after, rest));
    assert(after_events(setup, events, renderer) == after_events(
        after,
        rest,
        setup.effect(event, renderer),
    ));
    if rest.len() > 0 {
        assert(rest.last() == events.last());
        assert(after.expects(rest.first()));
        lemma_a_failure_changes_only_the_pass(
            after,
            rest,
            setup.effect(event, renderer),
        );
    }
}

/// A call that fails leaves the shader in use, and everything else the
/// renderer has: only the touch state starts over, and a blit pass that was
/// built for the call stays, in a renderer that had none.
pub proof fn a_failed_call_leaves_the_shader_in_use(call: Call, renderer: SwapchainRenderer)
    requires
        carried_out(begun_setup(call.request, renderer), call.events),
        call.events.last() is Failed,
    ensures
        ({
            let after = after_call(call, renderer);
            &&& after.compute == renderer.compute
            &&& after.extent == renderer.extent
            &&& after.parts == renderer.parts
            &&& renderer.blit is Some ==> after.blit == renderer.blit
            &&& after == (SwapchainRenderer { blit: after.blit, ..renderer.untouched() })
        }),
{
    let setup = begun_setup(call.request, renderer);
    assert(call.events.len() > 0);
    lemma_a_failure_changes_only_the_pass(setup, call.events, renderer.untouched());
    if renderer.blit is Some {
        lemma_no_more_passes(setup, call.events, renderer.untouched());
    }
}

} // verus!
