use vstd::prelude::*;
use crate::handle::{CompiledStageHandle, ShaderProgramHandle};
use crate::stage::StageKind;

verus! {

/// One call that the compiler asks the graphics context to make.
#[derive(Clone, Copy, Debug, PartialEq, Eq)]
pub enum Request {
    /// Make a new, empty program object.
    CreateProgram,
    /// Make a new, empty stage object of this kind.
    CreateStage { kind: StageKind },
    /// Give the stage object its source text.
    SetSource { stage: CompiledStageHandle, source: &'static str },
    /// Compile the stage object's source.
    CompileStage { stage: CompiledStageHandle },
    /// Say whether the last compilation of the stage object succeeded.
    QueryCompileStatus { stage: CompiledStageHandle },
    /// Hand out what the compiler said about the stage object.
    GetCompileLog { stage: CompiledStageHandle },
    /// Attach the stage object to the program.
    AttachStage { program: ShaderProgramHandle, stage: CompiledStageHandle },
    /// Link the stages attached to the program.
    LinkProgram { program: ShaderProgramHandle },
    /// Say whether the last linking of the program succeeded.
    QueryLinkStatus { program: ShaderProgramHandle },
    /// Hand out what the linker said about the program.
    GetLinkLog { program: ShaderProgramHandle },
    /// Detach the stage object from the program.
    DetachStage { program: ShaderProgramHandle, stage: CompiledStageHandle },
    /// Delete the stage object.
    DeleteStage { stage: CompiledStageHandle },
}

/// A `Request` with its text as a sequence of characters.
pub enum RequestView {
    CreateProgram,
    CreateStage { kind: StageKind },
    SetSource { stage: CompiledStageHandle, source: Seq<char> },
    CompileStage { stage: CompiledStageHandle },
    QueryCompileStatus { stage: CompiledStageHandle },
    GetCompileLog { stage: CompiledStageHandle },
    AttachStage { program: ShaderProgramHandle, stage: CompiledStageHandle },
    LinkProgram { program: ShaderProgramHandle },
    QueryLinkStatus { program: ShaderProgramHandle },
    GetLinkLog { program: ShaderProgramHandle },
    DetachStage { program: ShaderProgramHandle, stage: CompiledStageHandle },
    DeleteStage { stage: CompiledStageHandle },
}

impl View for Request {
    type V = RequestView;

    open spec fn view(&self) -> RequestView {
        match self {
            Request::CreateProgram => RequestView::CreateProgram,
            Request::CreateStage { kind } => RequestView::CreateStage { kind: *kind },
            Request::SetSource { stage, source } => RequestView::SetSource {
                stage: *stage,
                source: source@,
            },
            Request::CompileStage { stage } => RequestView::CompileStage { stage: *stage },
            Request::QueryCompileStatus { stage } => RequestView::QueryCompileStatus {
                stage: *stage,
            },
            Request::GetCompileLog { stage } => RequestView::GetCompileLog { stage: *stage },
            Request::AttachStage { program, stage } => RequestView::AttachStage {
                program: *program,
                stage: *stage,
            },
            Request::LinkProgram { program } => RequestView::LinkProgram { program: *program },
            Request::QueryLinkStatus { program } => RequestView::QueryLinkStatus {
                program: *program,
            },
            Request::GetLinkLog { program } => RequestView::GetLinkLog { program: *program },
            Request::DetachStage { program, stage } => RequestView::DetachStage {
                program: *program,
                stage: *stage,
            },
            Request::DeleteStage { stage } => RequestView::DeleteStage { stage: *stage },
        }
    }
}

/// What the graphics context answered to one request.
#[derive(Debug, PartialEq, Eq)]
pub enum Reply {
    /// The call was made; it returns nothing.
    Done,
    /// The answer to `CreateProgram`: the new program object, or `None` if the
    /// context could not make one.
    Program(Option<ShaderProgramHandle>),
    /// The answer to `CreateStage`: the new stage object, or `None` if the
    /// context could not make one.
    Stage(Option<CompiledStageHandle>),
    /// The answer to a status query.
    Status(bool),
    /// The answer to a request for a log.
    Log(String),
}

/// A `Reply` with its text as a sequence of characters.
pub enum ReplyView {
    Done,
    Program(Option<ShaderProgramHandle>),
    Stage(Option<CompiledStageHandle>),
    Status(bool),
    Log(Seq<char>),
}

impl View for Reply {
    type V = ReplyView;

    open spec fn view(&self) -> ReplyView {
        match self {
            Reply::Done => ReplyView::Done,
            Reply::Program(program) => ReplyView::Program(*program),
            Reply::Stage(stage) => ReplyView::Stage(*stage),
            Reply::Status(good) => ReplyView::Status(*good),
            Reply::Log(text) => ReplyView::Log(text@),
        }
    }
}

impl Clone for Reply {
    fn clone(&self) -> (copy: Reply)
        ensures
            copy == *self,
    {
        match self {
            Reply::Done => Reply::Done,
            Reply::Program(program) => Reply::Program(*program),
            Reply::Stage(stage) => Reply::Stage(*stage),
            Reply::Status(good) => Reply::Status(*good),
            Reply::Log(text) => Reply::Log(text.clone()),
        }
    }
}

impl ReplyView {
    /// The program object that the reply hands over. Any reply but a
    /// `Program` with a handle in it hands over none.
    pub open spec fn program(self) -> Option<ShaderProgramHandle> {
        match self {
            ReplyView::Program(program) => program,
            _ => None,
        }
    }

    /// The stage object that the reply hands over. Any reply but a `Stage`
    /// with a handle in it hands over none.
    pub open spec fn stage(self) -> Option<CompiledStageHandle> {
        match self {
            ReplyView::Stage(stage) => stage,
            _ => None,
        }
    }

    /// Whether the reply reports success. Only `Status(true)` does.
    pub open spec fn affirmed(self) -> bool {
        self == ReplyView::Status(true)
    }

    /// The text that the reply carries. Any reply but a `Log` carries the
    /// empty text.
    pub open spec fn log(self) -> Seq<char> {
        match self {
            ReplyView::Log(text) => text,
            _ => Seq::empty(),
        }
    }
}

impl Reply {
    pub fn program(&self) -> (program: Option<ShaderProgramHandle>)
        ensures
            program == self@.program(),
    {
        match self {
            Reply::Program(program) => *program,
            _ => None,
        }
    }

    pub fn stage(&self) -> (stage: Option<CompiledStageHandle>)
        ensures
            stage == self@.stage(),
    {
        match self {
            Reply::Stage(stage) => *stage,
            _ => None,
        }
    }

    pub fn affirmed(&self) -> (good: bool)
        ensures
            good == self@.affirmed(),
    {
        match self {
            Reply::Status(good) => *good,
            _ => false,
        }
    }

    pub fn into_log(self) -> (text: String)
        ensures
            text@ == self@.log(),
    {
        match self {
            Reply::Log(text) => text,
            _ => String::new(),
        }
    }
}

} // verus!
