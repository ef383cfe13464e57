//! The program cache over glium, and what a program is built from.
//!
//! Asking the driver is left to the caller, as reading the files is: the
//! caller hands `program_input` to glium and the answer to the cache.
use crate::cache::ProgramCache;
use crate::gpu::SourceCode;
use crate::source::{lemma_vertex_shader_nul_free, nul_free, VERTEX_SHADER_SRC};
use glium::Program;
use vstd::prelude::*;

verus! {

/// The cache of the program that the frame loop draws with.
pub type ShaderToy = ProgramCache<Program>;

/// What the program for `fragment` is built from. Only the fragment source
/// varies: the vertex stage is the fixed one, there is no geometry or
/// tessellation stage and no transform feedback, the fragment stage puts
/// out sRGB values itself, and the vertex stage sets no point size.
///
/// Where `fragment` holds no NUL character, no source of the input holds
/// one.
pub fn program_input<'a>(fragment: &'a str) -> (input: SourceCode<'a>)
    ensures
        input.vertex_shader@ == VERTEX_SHADER_SRC@,
        input.fragment_shader@ == fragment@,
        input.tessellation_control_shader is None,
        input.tessellation_evaluation_shader is None,
        input.geometry_shader is None,
        input.transform_feedback_varyings is None,
        input.outputs_srgb,
        !input.uses_point_size,
        input.nul_free() <==> nul_free(fragment@),
{
    proof {
        lemma_vertex_shader_nul_free();
    }
    SourceCode {
        vertex_shader: VERTEX_SHADER_SRC,
        tessellation_control_shader: None,
        tessellation_evaluation_shader: None,
        geometry_shader: None,
        fragment_shader: fragment,
        transform_feedback_varyings: None,
        outputs_srgb: true,
        uses_point_size: false,
    }
}

} // verus!
