use vstd::prelude::*;

verus! {

/// The part of the pipeline that a stage runs in.
#[derive(Clone, Copy, Debug, PartialEq, Eq, Structural)]
pub enum StageKind {
    Vertex,
    Fragment,
}

/// One stage of a shader program as it was written: its kind and its source
/// text.
#[derive(Clone, Copy, Debug, PartialEq, Eq)]
pub struct ShaderStageSource {
    pub kind: StageKind,
    pub source: &'static str,
}

/// A stage source with its text as a sequence of characters.
pub struct StageSourceView {
    pub kind: StageKind,
    pub source: Seq<char>,
}

impl View for ShaderStageSource {
    type V = StageSourceView;

    open spec fn view(&self) -> StageSourceView {
        StageSourceView { kind: self.kind, source: self.source@ }
    }
}

impl ShaderStageSource {
    pub fn new(kind: StageKind, source: &'static str) -> (stage: ShaderStageSource)
        ensures
            stage.kind == kind,
            stage.source == source,
    {
        ShaderStageSource { kind, source }
    }
}

/// The views of a list of stage sources, in the same order.
pub open spec fn stage_views(stages: Seq<ShaderStageSource>) -> Seq<StageSourceView> {
    stages.map_values(|stage: ShaderStageSource| stage@)
}

} // verus!
