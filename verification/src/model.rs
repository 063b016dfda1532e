//! The compiler as a mathematical state machine: which call it waits on, and
//! where each answer takes it.

use vstd::prelude::*;
use crate::error::ShaderErrorView;
use crate::handle::{CompiledStageHandle, ShaderProgramHandle};
use crate::protocol::{ReplyView, RequestView};
use crate::stage::StageSourceView;

verus! {

/// The call whose answer the compiler is waiting for.
#[derive(Clone, Copy, Debug, PartialEq, Eq, Structural)]
pub enum Phase {
    /// The program object was asked for.
    CreatingProgram,
    /// A stage object was asked for, for the next stage in the list.
    CreatingStage,
    /// The newest stage object is given its source.
    SettingSource,
    /// The newest stage object is compiled.
    Compiling,
    /// The compile status of the newest stage object was asked for.
    CheckingCompile,
    /// The newest stage object did not compile; its log was asked for.
    ReadingCompileLog,
    /// The newest stage object compiled; it is attached to the program.
    Attaching,
    /// Every stage is attached; the program is linked.
    Linking,
    /// The link status of the program was asked for.
    CheckingLink,
    /// The program did not link; its log was asked for.
    ReadingLinkLog,
    /// Building is over; the oldest stage object that is left is detached.
    Detaching,
    /// Building is over; the oldest stage object that is left is deleted.
    Deleting,
}

/// What a compilation ends in: the linked program, or the reason there is none.
pub type OutcomeView = Result<ShaderProgramHandle, ShaderErrorView>;

/// A compilation that waits for the answer to a call.
pub struct CompilerState {
    /// The stages to build, in the order in which they were given.
    pub stages: Seq<StageSourceView>,
    pub phase: Phase,
    /// The program object, once the context has made it.
    pub program: Option<ShaderProgramHandle>,
    /// The stage objects that the context has made, oldest first.
    pub made: Seq<CompiledStageHandle>,
    /// How many of `made`, from the front, have been attached to the program.
    /// It is also the index of the stage that is built next.
    pub attached: nat,
    /// How many of `made`, from the front, have been deleted again.
    pub released: nat,
    /// What went wrong, once something has.
    pub failure: Option<ShaderErrorView>,
}

/// Where a compilation stands after an answer: waiting for the next one, or
/// at its end.
pub enum ProgressView {
    Pending(CompilerState),
    Finished(OutcomeView),
}

impl CompilerState {
    /// The states that a compilation can be in.
    pub open spec fn wf(self) -> bool {
        &&& self.stages.len() > 0
        &&& self.attached <= self.made.len() <= self.attached + 1
        &&& self.made.len() <= self.stages.len()
        &&& self.released <= self.made.len()
        &&& self.program is None <==> self.phase == Phase::CreatingProgram
        &&& self.failure != Some(ShaderErrorView::NoStages)
        &&& match self.phase {
            Phase::CreatingProgram => self.made.len() == 0 && self.failure is None,
            Phase::CreatingStage => {
                &&& self.made.len() == self.attached
                &&& self.attached < self.stages.len()
                &&& self.released == 0
                &&& self.failure is None
            },
            Phase::SettingSource
            | Phase::Compiling
            | Phase::CheckingCompile
            | Phase::ReadingCompileLog
            | Phase::Attaching => {
                &&& self.made.len() == self.attached + 1
                &&& self.released == 0
                &&& self.failure is None
            },
            Phase::Linking | Phase::CheckingLink | Phase::ReadingLinkLog => {
                &&& self.attached == self.stages.len()
                &&& self.released == 0
                &&& self.failure is None
            },
            Phase::Detaching => {
                &&& self.released < self.attached
                &&& self.failure is None ==> self.attached == self.stages.len()
            },
            Phase::Deleting => {
                &&& self.released < self.made.len()
                &&& self.failure is None ==> self.attached == self.stages.len()
            },
        }
    }

    /// The stage object that is being built: the newest one.
    pub open spec fn current(self) -> CompiledStageHandle {
        self.made.last()
    }

    /// The call that the compiler waits on.
    pub open spec fn request(self) -> RequestView {
        match self.phase {
            Phase::CreatingProgram => RequestView::CreateProgram,
            Phase::CreatingStage => RequestView::CreateStage {
                kind: self.stages[self.attached as int].kind,
            },
            Phase::SettingSource => RequestView::SetSource {
                stage: self.current(),
                source: self.stages[self.attached as int].source,
            },
            Phase::Compiling => RequestView::CompileStage { stage: self.current() },
            Phase::CheckingCompile => RequestView::QueryCompileStatus { stage: self.current() },
            Phase::ReadingCompileLog => RequestView::GetCompileLog { stage: self.current() },
            Phase::Attaching => RequestView::AttachStage {
                program: self.program.unwrap(),
                stage: self.current(),
            },
            Phase::Linking => RequestView::LinkProgram { program: self.program.unwrap() },
            Phase::CheckingLink => RequestView::QueryLinkStatus { program: self.program.unwrap() },
            Phase::ReadingLinkLog => RequestView::GetLinkLog { program: self.program.unwrap() },
            Phase::Detaching => RequestView::DetachStage {
                program: self.program.unwrap(),
                stage: self.made[self.released as int],
            },
            Phase::Deleting => RequestView::DeleteStage { stage: self.made[self.released as int] },
        }
    }

    /// What the compilation ends in once every stage object is released.
    pub open spec fn outcome(self) -> OutcomeView {
        match self.failure {
            Some(error) => Err(error),
            None => Ok(self.program.unwrap()),
        }
    }

    /// Goes on with the release of the stage objects, oldest first: one that
    /// was attached is detached and then deleted, one that was not is only
    /// deleted. When none is left, the compilation is at its end.
    pub open spec fn release(self) -> ProgressView {
        if self.released >= self.made.len() {
            ProgressView::Finished(self.outcome())
        } else if self.released < self.attached {
            ProgressView::Pending(CompilerState { phase: Phase::Detaching, ..self })
        } else {
            ProgressView::Pending(CompilerState { phase: Phase::Deleting, ..self })
        }
    }

    /// Gives up building with this error and turns to the release.
    pub open spec fn fail(self, error: ShaderErrorView) -> ProgressView {
        CompilerState { failure: Some(error), ..self }.release()
    }

    /// Where the answer to the pending call takes the compilation.
    pub open spec fn advance(self, reply: ReplyView) -> ProgressView {
        match self.phase {
            Phase::CreatingProgram => match reply.program() {
                Some(program) => ProgressView::Pending(
                    CompilerState { phase: Phase::CreatingStage, program: Some(program), ..self },
                ),
                None => ProgressView::Finished(Err(ShaderErrorView::ProgramCreationFailed)),
            },
            Phase::CreatingStage => match reply.stage() {
                Some(stage) => ProgressView::Pending(
                    CompilerState {
                        phase: Phase::SettingSource,
                        made: self.made.push(stage),
                        ..self
                    },
                ),
                None => self.fail(ShaderErrorView::StageCreationFailed),
            },
            Phase::SettingSource => ProgressView::Pending(
                CompilerState { phase: Phase::Compiling, ..self },
            ),
            Phase::Compiling => ProgressView::Pending(
                CompilerState { phase: Phase::CheckingCompile, ..self },
            ),
            Phase::CheckingCompile => if reply.affirmed() {
                ProgressView::Pending(CompilerState { phase: Phase::Attaching, ..self })
            } else {
                ProgressView::Pending(CompilerState { phase: Phase::ReadingCompileLog, ..self })
            },
            Phase::ReadingCompileLog => self.fail(
                ShaderErrorView::StageCompileFailed {
                    kind: self.stages[self.attached as int].kind,
                    log: reply.log(),
                },
            ),
            Phase::Attaching => ProgressView::Pending(
                CompilerState {
                    phase: if self.attached + 1 < self.stages.len() {
                        Phase::CreatingStage
                    } else {
                        Phase::Linking
                    },
                    attached: self.attached + 1,
                    ..self
                },
            ),
            Phase::Linking => ProgressView::Pending(
                CompilerState { phase: Phase::CheckingLink, ..self },
            ),
            Phase::CheckingLink => if reply.affirmed() {
                self.release()
            } else {
                ProgressView::Pending(CompilerState { phase: Phase::ReadingLinkLog, ..self })
            },
            Phase::ReadingLinkLog => self.fail(ShaderErrorView::LinkFailed { log: reply.log() }),
            Phase::Detaching => ProgressView::Pending(
                CompilerState { phase: Phase::Deleting, ..self },
            ),
            Phase::Deleting => CompilerState { released: self.released + 1, ..self }.release(),
        }
    }

    /// A bound on the number of calls that can still come, the pending one
    /// counted. It falls with every answer.
    pub open spec fn remaining(self) -> nat {
        let stages: int = self.stages.len() as int;
        let attached: int = self.attached as int;
        let unreleased: int = attached - self.released;
        let loose: int = self.made.len() - attached;
        let build: int = 5 * (stages - attached) + 2 * stages + 3;
        let bound: int = match self.phase {
            Phase::CreatingProgram => build + 1,
            Phase::CreatingStage => build,
            Phase::SettingSource => build - 1,
            Phase::Compiling => build - 2,
            Phase::CheckingCompile => build - 3,
            Phase::Attaching => build - 4,
            Phase::ReadingCompileLog => 2 * attached + 2,
            Phase::Linking => 2 * stages + 3,
            Phase::CheckingLink => 2 * stages + 2,
            Phase::ReadingLinkLog => 2 * stages + 1,
            Phase::Detaching => 2 * unreleased + loose,
            Phase::Deleting => if unreleased > 0 {
                2 * unreleased - 1 + loose
            } else {
                1
            },
        };
        bound as nat
    }
}

impl ProgressView {
    /// The states that a compilation can be in, and every end.
    pub open spec fn wf(self) -> bool {
        self matches ProgressView::Pending(state) ==> state.wf()
    }

    /// A bound on the number of calls that are still to come.
    pub open spec fn remaining(self) -> nat {
        match self {
            ProgressView::Pending(state) => state.remaining(),
            ProgressView::Finished(_) => 0,
        }
    }
}

/// Where a compilation of these stages starts: waiting for the program
/// object, or, with no stage to build, at its end at once.
pub open spec fn begin(stages: Seq<StageSourceView>) -> ProgressView {
    if stages.len() == 0 {
        ProgressView::Finished(Err(ShaderErrorView::NoStages))
    } else {
        ProgressView::Pending(
            CompilerState {
                stages,
                phase: Phase::CreatingProgram,
                program: None,
                made: Seq::empty(),
                attached: 0,
                released: 0,
                failure: None,
            },
        )
    }
}

/// Every answer takes a compilation to a state that it can be in, and nearer
/// to its end.
pub proof fn lemma_advance(state: CompilerState, reply: ReplyView)
    requires
        state.wf(),
    ensures
        state.advance(reply).wf(),
        state.advance(reply).remaining() < state.remaining(),
{
}

} // verus!
