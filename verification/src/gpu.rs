//! The types of glium that the library names. They are opaque: Verus sees
//! nothing inside a value of them, and the library calls nothing of glium.
//! The driver is asked by whoever drives the cache.
use crate::source::nul_free;
use glium::program::TransformFeedbackMode;
use glium::Program;
use vstd::prelude::*;

verus! {

/// glium's `Program`: a compiled and linked GPU program. The GPU object is
/// released when the value is dropped.
#[verifier::external_type_specification]
#[verifier::external_body]
pub struct ExProgram(Program);

/// glium's `TransformFeedbackMode`: how transform feedback lays out its
/// values. Never made here: the library asks for no transform feedback.
#[verifier::external_type_specification]
#[verifier::external_body]
pub struct ExTransformFeedbackMode(TransformFeedbackMode);

/// What a program is built from: the sources of its stages and the
/// settings of the build. The fields are those of glium's
/// `ProgramCreationInput::SourceCode`, so that a value is handed to glium
/// field by field.
pub struct SourceCode<'a> {
    pub vertex_shader: &'a str,
    pub tessellation_control_shader: Option<&'a str>,
    pub tessellation_evaluation_shader: Option<&'a str>,
    pub geometry_shader: Option<&'a str>,
    pub fragment_shader: &'a str,
    /// The variables and the mode of transform feedback, if there is any.
    pub transform_feedback_varyings: Option<(Vec<String>, TransformFeedbackMode)>,
    /// Whether the fragment stage puts out sRGB values itself.
    pub outputs_srgb: bool,
    /// Whether the vertex stage sets the point size.
    pub uses_point_size: bool,
}

impl<'a> SourceCode<'a> {
    /// No source holds a NUL character, so each can be handed to the driver
    /// as a C string.
    pub open spec fn nul_free(self) -> bool {
        &&& nul_free(self.vertex_shader@)
        &&& nul_free(self.fragment_shader@)
        &&& self.tessellation_control_shader matches Some(source) ==> nul_free(source@)
        &&& self.tessellation_evaluation_shader matches Some(source) ==> nul_free(source@)
        &&& self.geometry_shader matches Some(source) ==> nul_free(source@)
    }
}

} // verus!
