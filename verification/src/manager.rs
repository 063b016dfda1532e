//! The shader programs that the library brings along, and the keeper of the
//! one that is built.

use vstd::prelude::*;
use crate::context::{compile, GraphicsContext, Session};
use crate::error::ShaderError;
use crate::handle::ShaderProgramHandle;
use crate::model::OutcomeView;
use crate::stage::{stage_views, ShaderStageSource, StageKind};
use crate::laws::verdict;
use crate::trace::{compilation, stages_deleted, stages_made};

verus! {

/// The source of the vertex stage of the example program: it passes the
/// position of each vertex on.
pub const EXAMPLE_VERTEX_SOURCE: &'static str = "#version 130
in vec2 position;
void main() {
    gl_Position = vec4(position, 0.0, 1.0);
}
";

/// The source of the fragment stage of the example program: it gives every
/// fragment one colour.
pub const EXAMPLE_FRAGMENT_SOURCE: &'static str = "#version 130
out vec4 color;
void main() {
    color = vec4(1.0, 0.5, 0.2, 1.0);
}
";

/// The shader programs that there are, each with the values of its uniforms.
/// A value is held as the 32 bits that the context takes for it.
#[derive(Clone, Copy, Debug, PartialEq, Eq, Structural)]
pub enum Shader {
    Example(u32),
    Example2(u32, u32, u32),
}

/// The stages of the example program, in the order in which they are built.
pub open spec fn example_stages() -> Seq<ShaderStageSource> {
    seq![
        ShaderStageSource { kind: StageKind::Vertex, source: EXAMPLE_VERTEX_SOURCE },
        ShaderStageSource { kind: StageKind::Fragment, source: EXAMPLE_FRAGMENT_SOURCE },
    ]
}

impl Shader {
    /// The stages that the program of this shader is built from. Every shader
    /// there is runs the example program.
    pub fn get_source(self) -> (stages: Vec<ShaderStageSource>)
        ensures
            stages@ == example_stages(),
    {
        let mut stages = Vec::new();
        stages.push(ShaderStageSource { kind: StageKind::Vertex, source: EXAMPLE_VERTEX_SOURCE });
        stages.push(
            ShaderStageSource { kind: StageKind::Fragment, source: EXAMPLE_FRAGMENT_SOURCE },
        );
        assert(stages@ =~= example_stages());
        stages
    }
}

/// Keeps the program that was built and the shader that is in use.
pub struct ShaderManager {
    shader_up: Option<Shader>,
    example_shader: ShaderProgramHandle,
}

impl ShaderManager {
    /// The program that was built.
    pub closed spec fn spec_program(&self) -> ShaderProgramHandle {
        self.example_shader
    }

    /// The shader that is in use, if one was loaded.
    pub closed spec fn spec_loaded(&self) -> Option<Shader> {
        self.shader_up
    }

    /// What the making of a manager ended in, as the end of the compilation
    /// behind it.
    pub open spec fn made_view(made: Result<ShaderManager, ShaderError>) -> OutcomeView {
        match made {
            Ok(manager) => Ok(manager.spec_program()),
            Err(error) => Err(error@),
        }
    }

    /// Builds the example program with the calls made in the session and
    /// keeps it. No shader is in use yet.
    ///
    /// The calls that it adds to the session are those of one whole
    /// compilation of the example's stages. The program kept is the one that
    /// this compilation ends in, the error the one that it ends in; and every
    /// stage object made in those calls was deleted in them.
    pub fn new<G: GraphicsContext>(session: &mut Session<G>) -> (made: Result<ShaderManager, ShaderError>)
        ensures
            old(session).exchanges().is_prefix_of(final(session).exchanges()),
            ({
                let calls = final(session).exchanges().skip(
                    old(session).exchanges().len() as int,
                );
                &&& compilation(stage_views(example_stages()), calls, Self::made_view(made))
                &&& Self::made_view(made) == verdict(stage_views(example_stages()), calls)
                &&& stages_deleted(calls) == stages_made(calls)
            }),
            made matches Ok(manager) ==> manager.spec_loaded() is None,
    {
        match compile(session, Shader::Example(0).get_source()) {
            Ok(program) => Ok(ShaderManager { shader_up: None, example_shader: program }),
            Err(error) => Err(error),
        }
    }

    /// Takes the shader into use. The program stays the same.
    pub fn load(&mut self, shader: Shader)
        ensures
            final(self).spec_loaded() == Some(shader),
            final(self).spec_program() == old(self).spec_program(),
    {
        self.shader_up = Some(shader);
    }

    /// The program that was built.
    #[verifier::when_used_as_spec(spec_program)]
    pub fn program(&self) -> (program: ShaderProgramHandle)
        ensures
            program == self.spec_program(),
    {
        self.example_shader
    }

    /// The shader that is in use, if one was loaded.
    #[verifier::when_used_as_spec(spec_loaded)]
    pub fn loaded(&self) -> (shader: Option<Shader>)
        ensures
            shader == self.spec_loaded(),
    {
        self.shader_up
    }
}

} // verus!
