//! The requests this library makes of the host's graphics context, and the
//! values that travel with them.
use vstd::prelude::*;
use crate::cube_map::ViewProjection;
use crate::math::Vec3;

verus! {

/// A rectangle of the current render target, in pixels.
#[derive(Clone, Copy, Debug, PartialEq, Eq, Structural)]
pub struct Viewport {
    pub x: i32,
    pub y: i32,
    pub width: u32,
    pub height: u32,
}

/// How the depth buffer is compared against when drawing.
#[derive(Clone, Copy, Debug, PartialEq, Eq, Structural)]
pub enum DepthTest {
    Always,
    Never,
    Less,
    Equal,
    LessOrEqual,
    Greater,
    NotEqual,
    GreaterOrEqual,
}

/// Which triangles are discarded by facing.
#[derive(Clone, Copy, Debug, PartialEq, Eq, Structural)]
pub enum Cull {
    Nothing,
    Back,
    Front,
    FrontAndBack,
}

/// Fixed-function state for a draw call. This library hands it on to the
/// context without looking at it.
#[derive(Clone, Copy, Debug, PartialEq, Eq, Structural)]
pub struct RenderStates {
    pub write_color: bool,
    pub write_depth: bool,
    pub depth_test: DepthTest,
    pub blend: bool,
    pub cull: Cull,
}

/// How a texture is sampled between texels and between mip levels.
#[derive(Clone, Copy, Debug, PartialEq, Eq, Structural)]
pub enum Interpolation {
    Nearest,
    Linear,
}

/// How a texture coordinate outside [0, 1] is mapped back into it.
#[derive(Clone, Copy, Debug, PartialEq, Eq, Structural)]
pub enum Wrapping {
    Repeat,
    MirroredRepeat,
    ClampToEdge,
}

/// Sampling parameters of a 2D texture. `mip_map_filter` is `None` for a
/// texture without mip maps.
#[derive(Clone, Copy, Debug, PartialEq, Eq, Structural)]
pub struct TextureSettings {
    pub min_filter: Interpolation,
    pub mag_filter: Interpolation,
    pub mip_map_filter: Option<Interpolation>,
    pub wrap_s: Wrapping,
    pub wrap_t: Wrapping,
}

/// A request to the graphics context. The context answers each with
/// `Ok(handle)` (the new object's handle where one is created, any value
/// otherwise) or `Err(message)`.
#[derive(Clone, Debug)]
pub enum Command {
    /// Compile and link a program from a vertex and a fragment shader.
    CompileProgram { vertex_source: String, fragment_source: String },
    /// Create a vertex buffer of 3-component positions, uploaded once.
    CreateStaticVertexBuffer { positions: Vec<Vec3> },
    /// Set a `mat4` uniform of a program to a rational matrix.
    UseUniformMat4 { program: u32, name: String, value: ViewProjection },
    /// Feed a `vec3` attribute of a program from a vertex buffer.
    UseAttributeVec3 { program: u32, name: String, buffer: u32 },
    /// Draw `count` vertices as triangles with a program, without indices.
    DrawArrays { program: u32, render_states: RenderStates, viewport: Viewport, count: u32 },
    /// Create a 2D texture from 8-bit pixel data.
    CreateTexture2D { settings: TextureSettings, width: u32, height: u32, pixels: Vec<u8> },
}

/// The ways a request to the graphics context can fail, each with the
/// context's message.
#[derive(Clone, Debug)]
pub enum Error {
    /// The program did not compile or link.
    ShaderCompilation(String),
    /// The context could not allocate a buffer.
    ResourceAllocation(String),
    /// The program lacks a uniform or attribute this library sets.
    UniformBinding(String),
    /// The draw was issued without a usable render target.
    ContextState(String),
    /// A texture could not be created from the pixels given.
    TextureUpload(String),
}

impl Error {
    /// The context's message.
    pub fn message(&self) -> (r: &String)
        ensures
            r@ == error_message(*self)@,
    {
        match self {
            Error::ShaderCompilation(m) => m,
            Error::ResourceAllocation(m) => m,
            Error::UniformBinding(m) => m,
            Error::ContextState(m) => m,
            Error::TextureUpload(m) => m,
        }
    }
}

/// The message an error carries.
pub open spec fn error_message(e: Error) -> String {
    match e {
        Error::ShaderCompilation(m) => m,
        Error::ResourceAllocation(m) => m,
        Error::UniformBinding(m) => m,
        Error::ContextState(m) => m,
        Error::TextureUpload(m) => m,
    }
}

} // verus!
