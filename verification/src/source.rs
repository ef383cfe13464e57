//! The fixed shader texts, and the one property of a source text that the
//! compiler interface depends on.
//!
//! A fragment source is compiled as it is read: nothing is put in front of
//! it. It must therefore begin with `FRAGMENT_PRELUDE`, or with declarations
//! to the same effect, itself.
use vstd::prelude::*;

verus! {

/// The vertex stage. It is compiled with every fragment source: it hands
/// `i_position` on as the clip-space position and, as `fragCoord`, to the
/// fragment stage, where it ranges over `[-1, 1]`.
pub const VERTEX_SHADER_SRC: &'static str =
    "\n    #version 140\n\n    in vec2 i_position;\n\n    out vec2 fragCoord;\n\n    uniform float iTime;\n    uniform vec2 res;\n\n    void main() {\n        fragCoord = i_position;\n        gl_Position = vec4(i_position, 0.0, 1.0);\n    }\n";

/// What a fragment source declares before its `main`: the version, the
/// uniforms that the harness may set, and the two varyings.
pub const FRAGMENT_PRELUDE: &'static str =
    "#version 140\n\nuniform vec2  iResolution;\nuniform float iTime;\nuniform float iTimeDelta;\nuniform int   iFrame;\nuniform float iChannelTime[4];\nuniform vec3  iChannelResolution[4];\nuniform vec4  iMouse;\nuniform vec4  iDate;\nuniform float iSampleRate;\n\nin  vec2 fragCoord;\nout vec4 fragColor;\n";

/// The file that holds the fragment source, relative to the working
/// directory. It is read again for every frame.
pub const SHADER_PATH: &'static str = "shader.frag";

/// The file that holds the fragment source to start with where the one at
/// `SHADER_PATH` cannot be read or does not compile.
pub const FALLBACK_PATH: &'static str = "shader_default.frag";

/// The name of the vertex attribute that carries a corner of the quad.
pub const POSITION_ATTRIBUTE: &'static str = "i_position";

/// The log for a source that is turned down because it holds a NUL
/// character. Such a source never reaches the compiler.
pub const NUL_IN_SOURCE: &'static str = "the source holds a NUL character";

/// The text holds no NUL character, so it can be handed to a C interface as
/// one string.
pub open spec fn nul_free(text: Seq<char>) -> bool {
    forall|i: int| 0 <= i < text.len() ==> text[i] != '\0'
}

/// Whether `text` holds a NUL character.
pub fn has_nul(text: &str) -> (found: bool)
    ensures
        found == !nul_free(text@),
{
    let mut found = false;
    for c in it: text.chars()
        invariant
            it.seq() == text@,
            found == exists|i: int| 0 <= i < it.index() && text@[i] == '\0',
    {
        if c == '\0' {
            found = true;
        }
    }
    found
}

/// The vertex stage holds no NUL character.
pub proof fn lemma_vertex_shader_nul_free()
    ensures
        nul_free(VERTEX_SHADER_SRC@),
{
    reveal_strlit(
        "\n    #version 140\n\n    in vec2 i_position;\n\n    out vec2 fragCoord;\n\n    uniform float iTime;\n    uniform vec2 res;\n\n    void main() {\n        fragCoord = i_position;\n        gl_Position = vec4(i_position, 0.0, 1.0);\n    }\n",
    );
}

} // verus!
