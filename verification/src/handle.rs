use vstd::prelude::*;

verus! {

/// Names a program object of the graphics context. The context picks the
/// number; the library only carries it.
#[derive(Clone, Copy, Debug, PartialEq, Eq, Hash, Structural)]
pub struct ShaderProgramHandle {
    pub id: u32,
}

/// Names a stage object of the graphics context: one compiled stage that is
/// not linked into a program yet. It lives only while a program is being
/// built.
#[derive(Clone, Copy, Debug, PartialEq, Eq, Hash, Structural)]
pub struct CompiledStageHandle {
    pub id: u32,
}

} // verus!
