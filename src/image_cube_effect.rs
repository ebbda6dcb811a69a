//! A customizable cube effect, used for rendering into the six faces of a
//! cube-map texture.
//!
//! The effect owns a program, built from a fixed vertex shader and the
//! caller's fragment shader, and a vertex buffer holding the unit cube. Its
//! operations do not touch the graphics context themselves: each returns the
//! first request for the context together with a state that turns the
//! context's answer into the next request or the result.
use vstd::prelude::*;
use crate::cube::{cube_positions, unit_cube_positions, CUBE_VERTEX_COUNT};
use crate::cube_map::{is_view_projection, lemma_view_projection_unique, view_projection, CubeMapSide};
use crate::gpu::{Command, Error, RenderStates, Viewport};

verus! {

/// The vertex stage of every cube effect. The fragment stage receives the
/// object-space position as `pos`.
pub const VERTEX_SHADER_SOURCE: &'static str = "uniform mat4 viewProjection;
in vec3 position;
out vec3 pos;

void main()
{
    pos = position;
    gl_Position = viewProjection * vec4(position, 1.0);
}";

/// The name of the view-projection uniform of the vertex stage.
pub const VIEW_PROJECTION_UNIFORM: &'static str = "viewProjection";

/// The name of the position attribute of the vertex stage.
pub const POSITION_ATTRIBUTE: &'static str = "position";

/// A customizable cube effect: a program and the cube it draws.
#[derive(Clone, Copy, Debug, PartialEq, Eq)]
pub struct ImageCubeEffect {
    program: u32,
    positions: u32,
}

/// Where the construction of an effect stands.
#[derive(Clone, Copy, Debug, PartialEq, Eq, Structural)]
pub enum EffectSetup {
    /// The program is being compiled.
    Compiling,
    /// The program exists; the cube's vertex buffer is being created.
    Uploading { program: u32 },
}

/// What happens after an answer during construction.
#[derive(Debug)]
pub enum SetupStep {
    /// Send this request to the context and hand its answer to the state.
    Issue(EffectSetup, Command),
    /// Construction is over.
    Finished(Result<ImageCubeEffect, Error>),
}

/// Which request of a draw is outstanding.
#[derive(Clone, Copy, Debug, PartialEq, Eq, Structural)]
pub enum DrawStage {
    BindingUniform,
    BindingAttribute,
    Drawing,
}

/// A draw of the cube in progress.
#[derive(Clone, Copy, Debug, PartialEq, Eq, Structural)]
pub struct DrawPass {
    pub program: u32,
    pub positions: u32,
    pub render_states: RenderStates,
    pub viewport: Viewport,
    pub stage: DrawStage,
}

/// What happens after an answer during a draw.
#[derive(Debug)]
pub enum DrawStep {
    /// Send this request to the context and hand its answer to the pass.
    Issue(DrawPass, Command),
    /// The draw is over.
    Finished(Result<(), Error>),
}

/// `c` asks to compile the cube effect's program with `fragment`.
pub open spec fn is_compile_request(c: Command, fragment: Seq<char>) -> bool {
    c matches Command::CompileProgram { vertex_source, fragment_source }
        && vertex_source@ == VERTEX_SHADER_SOURCE@ && fragment_source@ == fragment
}

/// `c` asks to create the static vertex buffer of the unit cube.
pub open spec fn is_cube_upload_request(c: Command) -> bool {
    c matches Command::CreateStaticVertexBuffer { positions } && positions@ == unit_cube_positions()
}

/// `c` sets the view-projection uniform of `program` for `side` and `viewport`.
pub open spec fn is_uniform_request(c: Command, program: u32, side: CubeMapSide, viewport: Viewport) -> bool {
    c matches Command::UseUniformMat4 { program: p, name, value }
        && p == program && name@ == VIEW_PROJECTION_UNIFORM@ && is_view_projection(value, side, viewport)
}

/// `c` feeds the position attribute of `program` from `buffer`.
pub open spec fn is_attribute_request(c: Command, program: u32, buffer: u32) -> bool {
    c matches Command::UseAttributeVec3 { program: p, name, buffer: b }
        && p == program && name@ == POSITION_ATTRIBUTE@ && b == buffer
}

/// `c` draws the 36 positions of the cube with `program`.
pub open spec fn is_draw_request(c: Command, program: u32, render_states: RenderStates, viewport: Viewport) -> bool {
    c == Command::DrawArrays { program, render_states, viewport, count: CUBE_VERTEX_COUNT }
}

impl ImageCubeEffect {
    /// The handle of the effect's program.
    pub closed spec fn program_handle(self) -> u32 {
        self.program
    }

    /// The handle of the effect's vertex buffer.
    pub closed spec fn positions_handle(self) -> u32 {
        self.positions
    }

    /// The first state of a draw of this effect.
    pub open spec fn draw_start(self, render_states: RenderStates, viewport: Viewport) -> DrawPass {
        DrawPass {
            program: self.program_handle(),
            positions: self.positions_handle(),
            render_states,
            viewport,
            stage: DrawStage::BindingUniform,
        }
    }

    /// `r` is how a draw of `side` begins: in its first state, with the
    /// view-projection uniform as the first request.
    pub open spec fn is_render_start(
        self,
        side: CubeMapSide,
        render_states: RenderStates,
        viewport: Viewport,
        r: (DrawPass, Command),
    ) -> bool {
        &&& r.0 == self.draw_start(render_states, viewport)
        &&& is_uniform_request(r.1, self.program_handle(), side, viewport)
    }

    /// Begins building an effect that applies `fragment_shader_source` to a
    /// face of a cube map: the first request compiles the program.
    pub fn new(fragment_shader_source: &str) -> (r: (EffectSetup, Command))
        ensures
            r.0 == EffectSetup::Compiling,
            is_compile_request(r.1, fragment_shader_source@),
    {
        let vertex_source = VERTEX_SHADER_SOURCE.to_owned();
        let fragment_source = fragment_shader_source.to_owned();
        (EffectSetup::Compiling, Command::CompileProgram { vertex_source, fragment_source })
    }

    /// The handle of the effect's program.
    pub fn program(&self) -> (r: u32)
        ensures
            r == self.program_handle(),
    {
        self.program
    }

    /// The handle of the vertex buffer that holds the cube.
    pub fn positions(&self) -> (r: u32)
        ensures
            r == self.positions_handle(),
    {
        self.positions
    }

    /// Begins applying the effect to `side` of a cube map. The caller has
    /// bound the face as the render target.
    ///
    /// The projection has a 90 degree field of view, the viewport's aspect
    /// ratio, near plane 1/10 and far plane 10; the uniform `viewProjection`
    /// is that projection times the face's view matrix.
    pub fn render(&self, side: CubeMapSide, render_states: RenderStates, viewport: Viewport) -> (r: (DrawPass, Command))
        ensures
            self.is_render_start(side, render_states, viewport, r),
    {
        let pass = DrawPass {
            program: self.program,
            positions: self.positions,
            render_states,
            viewport,
            stage: DrawStage::BindingUniform,
        };
        let value = view_projection(side, viewport);
        let name = VIEW_PROJECTION_UNIFORM.to_owned();
        (pass, Command::UseUniformMat4 { program: self.program, name, value })
    }

    /// Begins applying the effect to `side` of a cube map at a mip level.
    /// The mip level is chosen by the caller's render-target binding, so the
    /// requests are those of `render`.
    pub fn render_to_mip_level(
        &self,
        side: CubeMapSide,
        mip_level: u32,
        render_states: RenderStates,
        viewport: Viewport,
    ) -> (r: (DrawPass, Command))
        ensures
            self.is_render_start(side, render_states, viewport, r),
    {
        self.render(side, render_states, viewport)
    }
}

impl EffectSetup {
    /// Takes the context's answer to the outstanding request.
    ///
    /// After the program compiles, the unit cube is uploaded; after that
    /// succeeds, the effect is ready. A failed compile is a shader
    /// compilation error, a failed upload a resource allocation error.
    pub fn advance(self, reply: Result<u32, String>) -> (r: SetupStep)
        ensures
            match (self, reply) {
                (EffectSetup::Compiling, Ok(program)) => r matches SetupStep::Issue(s, c)
                    && s == (EffectSetup::Uploading { program }) && is_cube_upload_request(c),
                (EffectSetup::Compiling, Err(e)) => r matches SetupStep::Finished(Err(Error::ShaderCompilation(m)))
                    && m@ == e@,
                (EffectSetup::Uploading { program }, Ok(buffer)) => r matches SetupStep::Finished(Ok(effect))
                    && effect.program_handle() == program && effect.positions_handle() == buffer,
                (EffectSetup::Uploading { .. }, Err(e)) => r matches SetupStep::Finished(Err(Error::ResourceAllocation(m)))
                    && m@ == e@,
            },
    {
        match self {
            EffectSetup::Compiling => match reply {
                Ok(program) => {
                    let positions = cube_positions();
                    SetupStep::Issue(EffectSetup::Uploading { program }, Command::CreateStaticVertexBuffer { positions })
                },
                Err(e) => SetupStep::Finished(Err(Error::ShaderCompilation(e))),
            },
            EffectSetup::Uploading { program } => match reply {
                Ok(positions) => SetupStep::Finished(Ok(ImageCubeEffect { program, positions })),
                Err(e) => SetupStep::Finished(Err(Error::ResourceAllocation(e))),
            },
        }
    }
}

impl DrawPass {
    /// Takes the context's answer to the outstanding request.
    ///
    /// The uniform is followed by the position attribute, and that by a draw
    /// of the cube's 36 positions. A failure to set the uniform or the
    /// attribute is a binding error; a failed draw is a context state error.
    pub fn advance(self, reply: Result<u32, String>) -> (r: DrawStep)
        ensures
            match (self.stage, reply) {
                (DrawStage::BindingUniform, Ok(_)) => r matches DrawStep::Issue(p, c)
                    && p == (DrawPass { stage: DrawStage::BindingAttribute, ..self })
                    && is_attribute_request(c, self.program, self.positions),
                (DrawStage::BindingAttribute, Ok(_)) => r matches DrawStep::Issue(p, c)
                    && p == (DrawPass { stage: DrawStage::Drawing, ..self })
                    && is_draw_request(c, self.program, self.render_states, self.viewport),
                (DrawStage::Drawing, Ok(_)) => r matches DrawStep::Finished(Ok(())),
                (DrawStage::Drawing, Err(e)) => r matches DrawStep::Finished(Err(Error::ContextState(m)))
                    && m@ == e@,
                (_, Err(e)) => r matches DrawStep::Finished(Err(Error::UniformBinding(m))) && m@ == e@,
            },
    {
        match (self.stage, reply) {
            (DrawStage::BindingUniform, Ok(_)) => {
                let name = POSITION_ATTRIBUTE.to_owned();
                let next = DrawPass { stage: DrawStage::BindingAttribute, ..self };
                DrawStep::Issue(next, Command::UseAttributeVec3 { program: self.program, name, buffer: self.positions })
            },
            (DrawStage::BindingAttribute, Ok(_)) => {
                let next = DrawPass { stage: DrawStage::Drawing, ..self };
                let draw = Command::DrawArrays {
                    program: self.program,
                    render_states: self.render_states,
                    viewport: self.viewport,
                    count: CUBE_VERTEX_COUNT,
                };
                DrawStep::Issue(next, draw)
            },
            (DrawStage::Drawing, Ok(_)) => DrawStep::Finished(Ok(())),
            (DrawStage::Drawing, Err(e)) => DrawStep::Finished(Err(Error::ContextState(e))),
            (_, Err(e)) => DrawStep::Finished(Err(Error::UniformBinding(e))),
        }
    }
}

/// `render` and `render_to_mip_level` begin a draw alike: for the same face,
/// render states and viewport, any two beginnings that their contracts allow
/// are the same state with the same request (program, uniform name and matrix).
pub proof fn lemma_mip_level_draws_alike(
    effect: ImageCubeEffect,
    side: CubeMapSide,
    render_states: RenderStates,
    viewport: Viewport,
    a: (DrawPass, Command),
    b: (DrawPass, Command),
)
    requires
        effect.is_render_start(side, render_states, viewport, a),
        effect.is_render_start(side, render_states, viewport, b),
    ensures
        a.0 == b.0,
        a.1 matches Command::UseUniformMat4 { program: pa, name: na, value: va }
            && b.1 matches Command::UseUniformMat4 { program: pb, name: nb, value: vb }
            && pa == pb && na@ == nb@ && va == vb,
{
    if let Command::UseUniformMat4 { value: va, .. } = a.1 {
        if let Command::UseUniformMat4 { value: vb, .. } = b.1 {
            lemma_view_projection_unique(va, vb, side, viewport);
        }
    }
}

} // verus!
