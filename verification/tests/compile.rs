use shader_compiler::{
    compile, CompiledStageHandle, GraphicsContext, Reply, Request, Session, ShaderError,
    ShaderProgramHandle, ShaderStageSource, StageKind,
};

const GOOD_VERTEX: &str = "void main() { gl_Position = vec4(0); }";
const GOOD_FRAGMENT: &str = "out vec4 color; void main() { color = vec4(1); }";
const BROKEN: &str = "syntax error";
const UNLINKABLE_FRAGMENT: &str = "in vec4 missing; out vec4 color; void main() { color = missing; }";

/// A context that keeps books on its objects. A source with the words
/// "syntax error" in it does not compile, and a stage that reads `missing`
/// does not link.
struct Workshop {
    objects_made: u32,
    programs_left: u32,
    stages_left: u32,
    live_stages: Vec<CompiledStageHandle>,
    attached: Vec<(ShaderProgramHandle, CompiledStageHandle)>,
    sources: Vec<(CompiledStageHandle, &'static str)>,
    compiled: Vec<CompiledStageHandle>,
    linked: Vec<ShaderProgramHandle>,
    calls: Vec<Request>,
}

impl Workshop {
    fn new() -> Workshop {
        Workshop::with_room(u32::MAX, u32::MAX)
    }

    fn with_room(programs: u32, stages: u32) -> Workshop {
        Workshop {
            objects_made: 0,
            programs_left: programs,
            stages_left: stages,
            live_stages: Vec::new(),
            attached: Vec::new(),
            sources: Vec::new(),
            compiled: Vec::new(),
            linked: Vec::new(),
            calls: Vec::new(),
        }
    }

    fn source_of(&self, stage: CompiledStageHandle) -> &'static str {
        self.sources.iter().rev().find(|(owner, _)| *owner == stage).map(|(_, text)| *text).unwrap_or("")
    }

    fn links(&self, program: ShaderProgramHandle) -> bool {
        self.attached
            .iter()
            .filter(|(owner, _)| *owner == program)
            .all(|(_, stage)| self.compiled.contains(stage) && !self.source_of(*stage).contains("missing"))
    }
}

impl GraphicsContext for Workshop {
    fn perform(&mut self, request: Request) -> Reply {
        self.calls.push(request);
        match request {
            Request::CreateProgram => {
                if self.programs_left == 0 {
                    return Reply::Program(None);
                }
                self.programs_left -= 1;
                self.objects_made += 1;
                Reply::Program(Some(ShaderProgramHandle { id: self.objects_made }))
            }
            Request::CreateStage { .. } => {
                if self.stages_left == 0 {
                    return Reply::Stage(None);
                }
                self.stages_left -= 1;
                self.objects_made += 1;
                let stage = CompiledStageHandle { id: self.objects_made };
                self.live_stages.push(stage);
                Reply::Stage(Some(stage))
            }
            Request::SetSource { stage, source } => {
                assert!(self.live_stages.contains(&stage));
                self.sources.push((stage, source));
                Reply::Done
            }
            Request::CompileStage { stage } => {
                assert!(self.live_stages.contains(&stage));
                if !self.source_of(stage).contains("syntax error") {
                    self.compiled.push(stage);
                }
                Reply::Done
            }
            Request::QueryCompileStatus { stage } => Reply::Status(self.compiled.contains(&stage)),
            Request::GetCompileLog { stage } => {
                Reply::Log(format!("0:1: cannot compile stage {}", stage.id))
            }
            Request::AttachStage { program, stage } => {
                assert!(self.live_stages.contains(&stage));
                self.attached.push((program, stage));
                Reply::Done
            }
            Request::LinkProgram { program } => {
                if self.links(program) {
                    self.linked.push(program);
                }
                Reply::Done
            }
            Request::QueryLinkStatus { program } => Reply::Status(self.linked.contains(&program)),
            Request::GetLinkLog { program } => {
                Reply::Log(format!("cannot link program {}", program.id))
            }
            Request::DetachStage { program, stage } => {
                let before = self.attached.len();
                self.attached.retain(|pair| *pair != (program, stage));
                assert_eq!(self.attached.len() + 1, before);
                Reply::Done
            }
            Request::DeleteStage { stage } => {
                assert!(!self.attached.iter().any(|(_, held)| *held == stage));
                let before = self.live_stages.len();
                self.live_stages.retain(|held| *held != stage);
                assert_eq!(self.live_stages.len() + 1, before);
                Reply::Done
            }
        }
    }
}

/// A context that answers from a list, whatever is asked.
struct Scripted {
    replies: Vec<Reply>,
    calls: Vec<Request>,
}

impl GraphicsContext for Scripted {
    fn perform(&mut self, request: Request) -> Reply {
        let reply = self.replies[self.calls.len()].clone();
        self.calls.push(request);
        reply
    }
}

fn pair(vertex: &'static str, fragment: &'static str) -> Vec<ShaderStageSource> {
    vec![
        ShaderStageSource::new(StageKind::Vertex, vertex),
        ShaderStageSource::new(StageKind::Fragment, fragment),
    ]
}

#[test]
fn empty_stage_list_is_rejected_without_a_call() {
    let mut gl = Session::new(Workshop::new());
    let outcome = compile(&mut gl, vec![]);
    assert_eq!(outcome, Err(ShaderError::NoStages));
    assert!(gl.context().calls.is_empty());
    assert_eq!(gl.context().objects_made, 0);
}

#[test]
fn valid_pair_gives_a_linked_program() {
    let mut gl = Session::new(Workshop::new());
    let outcome = compile(&mut gl, pair(GOOD_VERTEX, GOOD_FRAGMENT));
    let program = ShaderProgramHandle { id: 1 };
    assert_eq!(outcome, Ok(program));
    assert!(gl.context().linked.contains(&program));
    assert!(gl.context().live_stages.is_empty());
    assert!(gl.context().attached.is_empty());
}

#[test]
fn valid_pair_makes_its_calls_in_order() {
    let mut gl = Session::new(Workshop::new());
    let outcome = compile(&mut gl, pair(GOOD_VERTEX, GOOD_FRAGMENT));
    let program = ShaderProgramHandle { id: 1 };
    let vertex = CompiledStageHandle { id: 2 };
    let fragment = CompiledStageHandle { id: 3 };
    assert_eq!(outcome, Ok(program));
    assert_eq!(
        gl.context().calls,
        vec![
            Request::CreateProgram,
            Request::CreateStage { kind: StageKind::Vertex },
            Request::SetSource { stage: vertex, source: GOOD_VERTEX },
            Request::CompileStage { stage: vertex },
            Request::QueryCompileStatus { stage: vertex },
            Request::AttachStage { program, stage: vertex },
            Request::CreateStage { kind: StageKind::Fragment },
            Request::SetSource { stage: fragment, source: GOOD_FRAGMENT },
            Request::CompileStage { stage: fragment },
            Request::QueryCompileStatus { stage: fragment },
            Request::AttachStage { program, stage: fragment },
            Request::LinkProgram { program },
            Request::QueryLinkStatus { program },
            Request::DetachStage { program, stage: vertex },
            Request::DeleteStage { stage: vertex },
            Request::DetachStage { program, stage: fragment },
            Request::DeleteStage { stage: fragment },
        ]
    );
}

#[test]
fn broken_vertex_stage_stops_before_the_fragment_stage() {
    let mut gl = Session::new(Workshop::new());
    let outcome = compile(&mut gl, pair(BROKEN, GOOD_FRAGMENT));
    let vertex = CompiledStageHandle { id: 2 };
    assert_eq!(
        outcome,
        Err(ShaderError::StageCompileFailed {
            kind: StageKind::Vertex,
            log: String::from("0:1: cannot compile stage 2"),
        })
    );
    assert_eq!(
        gl.context().calls,
        vec![
            Request::CreateProgram,
            Request::CreateStage { kind: StageKind::Vertex },
            Request::SetSource { stage: vertex, source: BROKEN },
            Request::CompileStage { stage: vertex },
            Request::QueryCompileStatus { stage: vertex },
            Request::GetCompileLog { stage: vertex },
            Request::DeleteStage { stage: vertex },
        ]
    );
    assert!(gl.context().live_stages.is_empty());
    assert!(gl.context().linked.is_empty());
}

#[test]
fn broken_fragment_stage_releases_the_vertex_stage_too() {
    let mut gl = Session::new(Workshop::new());
    let outcome = compile(&mut gl, pair(GOOD_VERTEX, BROKEN));
    let program = ShaderProgramHandle { id: 1 };
    let vertex = CompiledStageHandle { id: 2 };
    let fragment = CompiledStageHandle { id: 3 };
    assert_eq!(
        outcome,
        Err(ShaderError::StageCompileFailed {
            kind: StageKind::Fragment,
            log: String::from("0:1: cannot compile stage 3"),
        })
    );
    assert_eq!(
        gl.context().calls[9..].to_vec(),
        vec![
            Request::QueryCompileStatus { stage: fragment },
            Request::GetCompileLog { stage: fragment },
            Request::DetachStage { program, stage: vertex },
            Request::DeleteStage { stage: vertex },
            Request::DeleteStage { stage: fragment },
        ]
    );
    assert!(gl.context().live_stages.is_empty());
    assert!(gl.context().attached.is_empty());
    assert!(gl.context().linked.is_empty());
}

#[test]
fn stages_that_do_not_fit_fail_to_link() {
    let mut gl = Session::new(Workshop::new());
    let outcome = compile(&mut gl, pair(GOOD_VERTEX, UNLINKABLE_FRAGMENT));
    let program = ShaderProgramHandle { id: 1 };
    let vertex = CompiledStageHandle { id: 2 };
    let fragment = CompiledStageHandle { id: 3 };
    assert_eq!(
        outcome,
        Err(ShaderError::LinkFailed { log: String::from("cannot link program 1") })
    );
    assert_eq!(
        gl.context().calls[11..].to_vec(),
        vec![
            Request::LinkProgram { program },
            Request::QueryLinkStatus { program },
            Request::GetLinkLog { program },
            Request::DetachStage { program, stage: vertex },
            Request::DeleteStage { stage: vertex },
            Request::DetachStage { program, stage: fragment },
            Request::DeleteStage { stage: fragment },
        ]
    );
    assert!(gl.context().live_stages.is_empty());
    assert!(gl.context().attached.is_empty());
}

#[test]
fn failed_link_takes_seven_calls_a_stage_and_four_more() {
    let mut gl = Session::new(Workshop::new());
    let outcome = compile(&mut gl, pair(GOOD_VERTEX, UNLINKABLE_FRAGMENT));
    assert!(outcome.is_err());
    assert_eq!(gl.context().calls.len(), 7 * 2 + 4);

    let mut gl = Session::new(Workshop::new());
    let three = vec![
        ShaderStageSource::new(StageKind::Vertex, GOOD_VERTEX),
        ShaderStageSource::new(StageKind::Fragment, GOOD_FRAGMENT),
        ShaderStageSource::new(StageKind::Fragment, UNLINKABLE_FRAGMENT),
    ];
    let outcome = compile(&mut gl, three);
    assert!(outcome.is_err());
    assert_eq!(gl.context().calls.len(), 7 * 3 + 4);
    assert!(gl.context().live_stages.is_empty());
}

#[test]
fn no_program_object_ends_the_compilation_at_once() {
    let mut gl = Session::new(Workshop::with_room(0, 2));
    let outcome = compile(&mut gl, pair(GOOD_VERTEX, GOOD_FRAGMENT));
    assert_eq!(outcome, Err(ShaderError::ProgramCreationFailed));
    assert_eq!(gl.context().calls, vec![Request::CreateProgram]);
}

#[test]
fn no_stage_object_for_the_first_stage() {
    let mut gl = Session::new(Workshop::with_room(1, 0));
    let outcome = compile(&mut gl, pair(GOOD_VERTEX, GOOD_FRAGMENT));
    assert_eq!(outcome, Err(ShaderError::StageCreationFailed));
    assert_eq!(
        gl.context().calls,
        vec![Request::CreateProgram, Request::CreateStage { kind: StageKind::Vertex }]
    );
}

#[test]
fn no_stage_object_for_the_second_stage_releases_the_first() {
    let mut gl = Session::new(Workshop::with_room(1, 1));
    let outcome = compile(&mut gl, pair(GOOD_VERTEX, GOOD_FRAGMENT));
    let program = ShaderProgramHandle { id: 1 };
    let vertex = CompiledStageHandle { id: 2 };
    assert_eq!(outcome, Err(ShaderError::StageCreationFailed));
    assert_eq!(
        gl.context().calls[6..].to_vec(),
        vec![
            Request::CreateStage { kind: StageKind::Fragment },
            Request::DetachStage { program, stage: vertex },
            Request::DeleteStage { stage: vertex },
        ]
    );
    assert!(gl.context().live_stages.is_empty());
    assert!(gl.context().attached.is_empty());
}

#[test]
fn single_stage_program() {
    let mut gl = Session::new(Workshop::new());
    let outcome = compile(&mut gl, vec![ShaderStageSource::new(StageKind::Fragment, GOOD_FRAGMENT)]);
    assert_eq!(outcome, Ok(ShaderProgramHandle { id: 1 }));
    assert_eq!(gl.context().calls.len(), 10);
    assert_eq!(gl.context().calls[1], Request::CreateStage { kind: StageKind::Fragment });
    assert!(gl.context().live_stages.is_empty());
}

#[test]
fn each_compilation_gets_its_own_objects() {
    let mut gl = Session::new(Workshop::new());
    let first = compile(&mut gl, pair(GOOD_VERTEX, GOOD_FRAGMENT));
    let second = compile(&mut gl, pair(GOOD_VERTEX, GOOD_FRAGMENT));
    assert_eq!(first, Ok(ShaderProgramHandle { id: 1 }));
    assert_eq!(second, Ok(ShaderProgramHandle { id: 4 }));
    assert!(gl.context().live_stages.is_empty());
}

#[test]
fn an_answer_of_the_wrong_kind_counts_as_a_refusal() {
    let mut gl = Session::new(Scripted { replies: vec![Reply::Done], calls: Vec::new() });
    let outcome = compile(&mut gl, pair(GOOD_VERTEX, GOOD_FRAGMENT));
    assert_eq!(outcome, Err(ShaderError::ProgramCreationFailed));

    let program = ShaderProgramHandle { id: 5 };
    let mut gl = Session::new(Scripted {
        replies: vec![Reply::Program(Some(program)), Reply::Program(Some(program))],
        calls: Vec::new(),
    });
    let outcome = compile(&mut gl, pair(GOOD_VERTEX, GOOD_FRAGMENT));
    assert_eq!(outcome, Err(ShaderError::StageCreationFailed));
    assert_eq!(gl.context().calls.len(), 2);
}

#[test]
fn a_status_that_is_no_status_counts_as_failure_and_a_log_that_is_no_log_is_empty() {
    let program = ShaderProgramHandle { id: 5 };
    let stage = CompiledStageHandle { id: 6 };
    let mut gl = Session::new(Scripted {
        replies: vec![
            Reply::Program(Some(program)),
            Reply::Stage(Some(stage)),
            Reply::Done,
            Reply::Done,
            Reply::Done,
            Reply::Status(true),
            Reply::Done,
        ],
        calls: Vec::new(),
    });
    let outcome = compile(&mut gl, pair(GOOD_VERTEX, GOOD_FRAGMENT));
    assert_eq!(
        outcome,
        Err(ShaderError::StageCompileFailed { kind: StageKind::Vertex, log: String::new() })
    );
    assert_eq!(gl.context().calls[5], Request::GetCompileLog { stage });
    assert_eq!(gl.context().calls[6], Request::DeleteStage { stage });
    assert_eq!(gl.context().calls.len(), 7);
}

#[test]
fn the_log_of_the_context_is_handed_on_as_it_is() {
    let program = ShaderProgramHandle { id: 1 };
    let stage = CompiledStageHandle { id: 2 };
    let mut gl = Session::new(Scripted {
        replies: vec![
            Reply::Program(Some(program)),
            Reply::Stage(Some(stage)),
            Reply::Done,
            Reply::Done,
            Reply::Status(true),
            Reply::Done,
            Reply::Done,
            Reply::Status(false),
            Reply::Log(String::from("error: varying `tint` is never written")),
            Reply::Done,
            Reply::Done,
        ],
        calls: Vec::new(),
    });
    let outcome = compile(&mut gl, vec![ShaderStageSource::new(StageKind::Fragment, GOOD_FRAGMENT)]);
    assert_eq!(
        outcome,
        Err(ShaderError::LinkFailed {
            log: String::from("error: varying `tint` is never written"),
        })
    );
    assert_eq!(gl.context().calls.len(), 11);
}

#[test]
fn handles_are_carried_unchanged() {
    let program = ShaderProgramHandle { id: u32::MAX };
    let stage = CompiledStageHandle { id: 0 };
    let mut gl = Session::new(Scripted {
        replies: vec![
            Reply::Program(Some(program)),
            Reply::Stage(Some(stage)),
            Reply::Done,
            Reply::Done,
            Reply::Status(true),
            Reply::Done,
            Reply::Done,
            Reply::Status(true),
            Reply::Done,
            Reply::Done,
        ],
        calls: Vec::new(),
    });
    let outcome = compile(&mut gl, vec![ShaderStageSource::new(StageKind::Vertex, GOOD_VERTEX)]);
    assert_eq!(outcome, Ok(program));
    assert_eq!(gl.context().calls[5], Request::AttachStage { program, stage });
    assert_eq!(gl.context().calls[8], Request::DetachStage { program, stage });
    assert_eq!(gl.context().calls[9], Request::DeleteStage { stage });
}

#[test]
fn a_session_hands_its_context_back() {
    let mut gl = Session::new(Workshop::new());
    let outcome = compile(&mut gl, pair(GOOD_VERTEX, GOOD_FRAGMENT));
    assert!(outcome.is_ok());
    assert_eq!(gl.context().calls.len(), 17);
    let workshop = gl.into_context();
    assert_eq!(workshop.calls.len(), 17);
    assert_eq!(workshop.objects_made, 3);
}

#[test]
fn a_session_passes_each_call_on_and_each_answer_back() {
    let mut gl = Session::new(Scripted {
        replies: vec![Reply::Status(true), Reply::Log(String::from("text"))],
        calls: Vec::new(),
    });
    let stage = CompiledStageHandle { id: 8 };
    assert_eq!(gl.perform(Request::QueryCompileStatus { stage }), Reply::Status(true));
    assert_eq!(gl.perform(Request::GetCompileLog { stage }), Reply::Log(String::from("text")));
    assert_eq!(
        gl.context().calls,
        vec![Request::QueryCompileStatus { stage }, Request::GetCompileLog { stage }]
    );
}
