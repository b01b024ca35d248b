//! A verified core for a single-object 3D renderer: GPU resource lifecycle
//! (buffers, shader stages, programs), shader program linking and
//! introspection, the per-frame render step, and the animation driver.
//!
//! The browser's rendering context is modelled explicitly by [`gl::GlContext`]:
//! a value that records every command issued to it, tracks which GPU objects
//! are live, and answers allocation and compilation requests from a scripted
//! response plan. Every contract below is proved for every such plan, so the
//! lifecycle guarantees (no resource leaked on any failure path, every handle
//! released exactly once) hold whatever the context answers. The thin layer
//! that drives a real browser context lives outside this library.

use vstd::prelude::*;

pub mod gl;
pub mod mesh;
pub mod shader_program;
pub mod cube;
pub mod renderer;

verus! {

/// Everything that can go wrong while building the renderer. Construction
/// either fully succeeds or fails with one of these, with every GPU object
/// allocated on the way released again before the error is returned.
#[derive(Clone, PartialEq, Eq, Debug)]
pub enum RenderError {
    /// The context refused to allocate a GPU object.
    ResourceExhausted { resource: gl::ResourceKind },
    /// A shader stage failed to compile; the context's diagnostic log, when it
    /// offered one, is carried along.
    ShaderCompile { stage: gl::StageKind, message: Option<String> },
    /// The program failed to link; the context's diagnostic log, when it
    /// offered one, is carried along.
    ShaderLink { message: Option<String> },
    /// A name the renderer relies on did not resolve in the linked program:
    /// a caller error in the shader sources or the requested name lists.
    CallerError { name: String },
}

} // verus!
