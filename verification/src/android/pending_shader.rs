//! The most recently received shader, waiting for the render loop.
//!
//! Only the latest matters: one that arrives before the last was picked up
//! takes its place.

use crate::renderer::resources::ThreadGroups;
use vstd::prelude::*;

verus! {

/// A shader waiting to be put in use. One that only computes has no vertex
/// and fragment part, and one that only draws no compute part.
#[derive(Debug)]
pub struct PendingShader {
    pub vertex_spirv: Vec<u8>,
    pub fragment_spirv: Vec<u8>,
    pub compute_spirv: Vec<u8>,
    pub entry_point: String,
    pub thread_group_size: ThreadGroups,
    pub output_texture_binding: u32,
    pub uniform_buffer_size: u32,
    pub time_offset: Option<u32>,
    pub frame_id_offset: Option<u32>,
    pub mouse_position_offset: Option<u32>,
}

/// Room for one shader.
pub type ShaderSlot = Option<PendingShader>;

/// Leaves a vertex and a fragment shader in the slot.
pub fn set(slot: &mut ShaderSlot, vertex_spirv: Vec<u8>, fragment_spirv: Vec<u8>)
    ensures
        *final(slot) matches Some(shader) && {
            &&& shader.vertex_spirv == vertex_spirv
            &&& shader.fragment_spirv == fragment_spirv
            &&& shader.compute_spirv@.len() == 0
            &&& shader.entry_point@.len() == 0
            &&& shader.thread_group_size == ThreadGroups { x: 0, y: 0, z: 0 }
            &&& shader.output_texture_binding == 0
            &&& shader.uniform_buffer_size == 0
            &&& shader.time_offset is None
            &&& shader.frame_id_offset is None
            &&& shader.mouse_position_offset is None
        },
{
    *slot =
    Some(
        PendingShader {
            vertex_spirv,
            fragment_spirv,
            compute_spirv: Vec::new(),
            entry_point: String::new(),
            thread_group_size: ThreadGroups { x: 0, y: 0, z: 0 },
            output_texture_binding: 0,
            uniform_buffer_size: 0,
            time_offset: None,
            frame_id_offset: None,
            mouse_position_offset: None,
        },
    );
}

/// Leaves a shader in the slot.
pub fn set_update(slot: &mut ShaderSlot, shader: PendingShader)
    ensures
        *final(slot) == Some(shader),
{
    *slot = Some(shader);
}

/// Takes the shader out of the slot, if there is one.
pub fn take(slot: &mut ShaderSlot) -> (shader: Option<PendingShader>)
    ensures
        shader == *old(slot),
        *final(slot) is None,
{
    slot.take()
}

} // verus!
