//! A live-coding harness for full-screen fragment shaders.
//!
//! A window shows one quad that fills the screen, drawn by a fragment
//! program whose source is a file on disk. The file is watched: a new text
//! that compiles replaces the program, a text that does not compile leaves
//! the program that was last known to be good in place.
//!
//! The library decides; it does not touch the outside. Reading the files,
//! asking the driver, drawing and waiting for events are the caller's, who
//! hands in what each of them gave.
//!
//! - `cache`: the program cache and its rules, for any kind of program.
//! - `shader_toy`: the cache over glium, and what a program is built from.
//! - `gpu`: the types of glium that the library names.
//! - `source`: the fixed shader texts.
//! - `uniforms`: the values that every frame is drawn with.
//! - `frame_loop`: what the frame loop does on each event and fault.
//! - `fps`: the ring of draw durations.
//! - `quad`: the corners of the quad.
//! - `glsl_graph`: a graph of expression blocks that emits fragment code.
pub mod cache;
pub mod fps;
pub mod frame_loop;
pub mod glsl_graph;
pub mod gpu;
pub mod quad;
pub mod shader_toy;
pub mod source;
pub mod uniforms;
