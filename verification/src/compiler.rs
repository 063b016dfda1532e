//! The compiler that runs: it holds the state of one compilation, names the
//! call to make and takes the answer.

use vstd::prelude::*;
use crate::error::ShaderError;
use crate::handle::{CompiledStageHandle, ShaderProgramHandle};
use crate::model::{begin, CompilerState, OutcomeView, Phase, ProgressView};
use crate::protocol::{Reply, Request};
use crate::stage::{stage_views, ShaderStageSource};

verus! {

/// One compilation that waits for the answer to a call. `request` names the
/// call, `step` takes the answer.
pub struct ShaderCompiler {
    stages: Vec<ShaderStageSource>,
    phase: Phase,
    program: Option<ShaderProgramHandle>,
    made: Vec<CompiledStageHandle>,
    attached: usize,
    released: usize,
    failure: Option<ShaderError>,
}

/// Where a compilation stands: waiting for the answer to a call, or at its
/// end with the linked program or the reason there is none.
pub enum Progress {
    Pending(ShaderCompiler),
    Finished(Result<ShaderProgramHandle, ShaderError>),
}

/// The end of a compilation with the log of its error, if it has one, as a
/// sequence of characters.
pub open spec fn outcome_view(outcome: Result<ShaderProgramHandle, ShaderError>) -> OutcomeView {
    match outcome {
        Ok(program) => Ok(program),
        Err(error) => Err(error@),
    }
}

impl View for ShaderCompiler {
    type V = CompilerState;

    closed spec fn view(&self) -> CompilerState {
        CompilerState {
            stages: stage_views(self.stages@),
            phase: self.phase,
            program: self.program,
            made: self.made@,
            attached: self.attached as nat,
            released: self.released as nat,
            failure: match self.failure {
                Some(error) => Some(error@),
                None => None,
            },
        }
    }
}

impl View for Progress {
    type V = ProgressView;

    open spec fn view(&self) -> ProgressView {
        match self {
            Progress::Pending(compiler) => ProgressView::Pending(compiler@),
            Progress::Finished(outcome) => ProgressView::Finished(outcome_view(*outcome)),
        }
    }
}

impl ShaderCompiler {
    #[verifier::type_invariant]
    spec fn inv(&self) -> bool {
        self@.wf()
    }

    /// Starts the compilation of these stages. With no stage in the list it is
    /// over at once, with `NoStages`, and nothing is asked of the context.
    pub fn start(stages: Vec<ShaderStageSource>) -> (progress: Progress)
        ensures
            progress@ == begin(stage_views(stages@)),
            progress@.wf(),
    {
        if stages.len() == 0 {
            Progress::Finished(Err(ShaderError::NoStages))
        } else {
            Progress::Pending(
                ShaderCompiler {
                    stages,
                    phase: Phase::CreatingProgram,
                    program: None,
                    made: Vec::new(),
                    attached: 0,
                    released: 0,
                    failure: None,
                },
            )
        }
    }

    /// The call to make next.
    pub fn request(&self) -> (request: Request)
        ensures
            request@ == self@.request(),
    {
        proof {
            use_type_invariant(self);
        }
        match self.phase {
            Phase::CreatingProgram => Request::CreateProgram,
            Phase::CreatingStage => Request::CreateStage { kind: self.stages[self.attached].kind },
            Phase::SettingSource => Request::SetSource {
                stage: self.made[self.attached],
                source: self.stages[self.attached].source,
            },
            Phase::Compiling => Request::CompileStage { stage: self.made[self.attached] },
            Phase::CheckingCompile => Request::QueryCompileStatus {
                stage: self.made[self.attached],
            },
            Phase::ReadingCompileLog => Request::GetCompileLog { stage: self.made[self.attached] },
            Phase::Attaching => Request::AttachStage {
                program: self.program.unwrap(),
                stage: self.made[self.attached],
            },
            Phase::Linking => Request::LinkProgram { program: self.program.unwrap() },
            Phase::CheckingLink => Request::QueryLinkStatus { program: self.program.unwrap() },
            Phase::ReadingLinkLog => Request::GetLinkLog { program: self.program.unwrap() },
            Phase::Detaching => Request::DetachStage {
                program: self.program.unwrap(),
                stage: self.made[self.released],
            },
            Phase::Deleting => Request::DeleteStage { stage: self.made[self.released] },
        }
    }

    /// Takes the answer to the pending call and says where the compilation
    /// stands then.
    pub fn step(self, reply: Reply) -> (next: Progress)
        ensures
            next@ == self@.advance(reply@),
            next@.wf(),
    {
        proof {
            use_type_invariant(&self);
            crate::model::lemma_advance(self@, reply@);
        }
        let ShaderCompiler { stages, phase, program, mut made, attached, released, failure } = self;
        match phase {
            Phase::CreatingProgram => match reply.program() {
                Some(handle) => Progress::Pending(
                    ShaderCompiler {
                        stages,
                        phase: Phase::CreatingStage,
                        program: Some(handle),
                        made,
                        attached,
                        released,
                        failure,
                    },
                ),
                None => Progress::Finished(Err(ShaderError::ProgramCreationFailed)),
            },
            Phase::CreatingStage => match reply.stage() {
                Some(stage) => {
                    made.push(stage);
                    Progress::Pending(
                        ShaderCompiler {
                            stages,
                            phase: Phase::SettingSource,
                            program,
                            made,
                            attached,
                            released,
                            failure,
                        },
                    )
                },
                None => Self::release(
                    stages,
                    program,
                    made,
                    attached,
                    released,
                    Some(ShaderError::StageCreationFailed),
                ),
            },
            Phase::SettingSource => Progress::Pending(
                ShaderCompiler {
                    stages,
                    phase: Phase::Compiling,
                    program,
                    made,
                    attached,
                    released,
                    failure,
                },
            ),
            Phase::Compiling => Progress::Pending(
                ShaderCompiler {
                    stages,
                    phase: Phase::CheckingCompile,
                    program,
                    made,
                    attached,
                    released,
                    failure,
                },
            ),
            Phase::CheckingCompile => {
                let phase = if reply.affirmed() {
                    Phase::Attaching
                } else {
                    Phase::ReadingCompileLog
                };
                Progress::Pending(
                    ShaderCompiler { stages, phase, program, made, attached, released, failure },
                )
            },
            Phase::ReadingCompileLog => {
                let kind = stages[attached].kind;
                let log = reply.into_log();
                Self::release(
                    stages,
                    program,
                    made,
                    attached,
                    released,
                    Some(ShaderError::StageCompileFailed { kind, log }),
                )
            },
            Phase::Attaching => {
                let phase = if attached + 1 < stages.len() {
                    Phase::CreatingStage
                } else {
                    Phase::Linking
                };
                Progress::Pending(
                    ShaderCompiler {
                        stages,
                        phase,
                        program,
                        made,
                        attached: attached + 1,
                        released,
                        failure,
                    },
                )
            },
            Phase::Linking => Progress::Pending(
                ShaderCompiler {
                    stages,
                    phase: Phase::CheckingLink,
                    program,
                    made,
                    attached,
                    released,
                    failure,
                },
            ),
            Phase::CheckingLink => if reply.affirmed() {
                Self::release(stages, program, made, attached, released, failure)
            } else {
                Progress::Pending(
                    ShaderCompiler {
                        stages,
                        phase: Phase::ReadingLinkLog,
                        program,
                        made,
                        attached,
                        released,
                        failure,
                    },
                )
            },
            Phase::ReadingLinkLog => {
                let log = reply.into_log();
                Self::release(
                    stages,
                    program,
                    made,
                    attached,
                    released,
                    Some(ShaderError::LinkFailed { log }),
                )
            },
            Phase::Detaching => Progress::Pending(
                ShaderCompiler {
                    stages,
                    phase: Phase::Deleting,
                    program,
                    made,
                    attached,
                    released,
                    failure,
                },
            ),
            Phase::Deleting => Self::release(
                stages,
                program,
                made,
                attached,
                released + 1,
                failure,
            ),
        }
    }

    /// Goes on with the release of the stage objects, or ends the compilation
    /// when none is left.
    fn release(
        stages: Vec<ShaderStageSource>,
        program: Option<ShaderProgramHandle>,
        made: Vec<CompiledStageHandle>,
        attached: usize,
        released: usize,
        failure: Option<ShaderError>,
    ) -> (next: Progress)
        requires
            stages.len() > 0,
            attached <= made.len() <= attached + 1,
            made.len() <= stages.len(),
            released <= made.len(),
            program is Some,
            failure is None ==> attached == stages.len(),
            failure != Some(ShaderError::NoStages),
        ensures
            next@ == (CompilerState {
                stages: stage_views(stages@),
                phase: Phase::Deleting,
                program,
                made: made@,
                attached: attached as nat,
                released: released as nat,
                failure: match failure {
                    Some(error) => Some(error@),
                    None => None,
                },
            }).release(),
    {
        if released >= made.len() {
            Progress::Finished(
                match failure {
                    Some(error) => Err(error),
                    None => Ok(program.unwrap()),
                },
            )
        } else {
            let phase = if released < attached {
                Phase::Detaching
            } else {
                Phase::Deleting
            };
            Progress::Pending(
                ShaderCompiler { stages, phase, program, made, attached, released, failure },
            )
        }
    }
}

} // verus!
