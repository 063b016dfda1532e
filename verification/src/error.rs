use vstd::prelude::*;
use crate::stage::StageKind;

verus! {

/// Why no program was built.
#[derive(Debug, PartialEq, Eq)]
pub enum ShaderError {
    /// The list of stages was empty. Nothing was asked of the context.
    NoStages,
    /// The context could not make a program object.
    ProgramCreationFailed,
    /// The context could not make a stage object.
    StageCreationFailed,
    /// A stage did not compile. `log` is what the context's compiler said.
    StageCompileFailed { kind: StageKind, log: String },
    /// Every stage compiled, but the program did not link. `log` is what the
    /// context's linker said.
    LinkFailed { log: String },
}

/// A `ShaderError` with its log as a sequence of characters.
pub enum ShaderErrorView {
    NoStages,
    ProgramCreationFailed,
    StageCreationFailed,
    StageCompileFailed { kind: StageKind, log: Seq<char> },
    LinkFailed { log: Seq<char> },
}

impl View for ShaderError {
    type V = ShaderErrorView;

    open spec fn view(&self) -> ShaderErrorView {
        match self {
            ShaderError::NoStages => ShaderErrorView::NoStages,
            ShaderError::ProgramCreationFailed => ShaderErrorView::ProgramCreationFailed,
            ShaderError::StageCreationFailed => ShaderErrorView::StageCreationFailed,
            ShaderError::StageCompileFailed { kind, log } => ShaderErrorView::StageCompileFailed {
                kind: *kind,
                log: log@,
            },
            ShaderError::LinkFailed { log } => ShaderErrorView::LinkFailed { log: log@ },
        }
    }
}

impl ShaderErrorView {
    /// The error in words: the log where the context gave one, a fixed
    /// sentence otherwise.
    pub open spec fn message(self) -> Seq<char> {
        match self {
            ShaderErrorView::NoStages => "No shader stages given"@,
            ShaderErrorView::ProgramCreationFailed => "Cannot create program"@,
            ShaderErrorView::StageCreationFailed => "Cannot create shader"@,
            ShaderErrorView::StageCompileFailed { log, .. } => log,
            ShaderErrorView::LinkFailed { log } => log,
        }
    }
}

impl ShaderError {
    /// The error in words, for whoever has to report it.
    pub fn message(&self) -> (text: String)
        ensures
            text@ == self@.message(),
    {
        match self {
            ShaderError::NoStages => "No shader stages given".to_owned(),
            ShaderError::ProgramCreationFailed => "Cannot create program".to_owned(),
            ShaderError::StageCreationFailed => "Cannot create shader".to_owned(),
            ShaderError::StageCompileFailed { log, .. } => log.clone(),
            ShaderError::LinkFailed { log } => log.clone(),
        }
    }
}

impl Clone for ShaderError {
    fn clone(&self) -> (copy: ShaderError)
        ensures
            copy == *self,
    {
        match self {
            ShaderError::NoStages => ShaderError::NoStages,
            ShaderError::ProgramCreationFailed => ShaderError::ProgramCreationFailed,
            ShaderError::StageCreationFailed => ShaderError::StageCreationFailed,
            ShaderError::StageCompileFailed { kind, log } => ShaderError::StageCompileFailed {
                kind: *kind,
                log: log.clone(),
            },
            ShaderError::LinkFailed { log } => ShaderError::LinkFailed { log: log.clone() },
        }
    }
}

} // verus!
