use shader_compiler::manager::{EXAMPLE_FRAGMENT_SOURCE, EXAMPLE_VERTEX_SOURCE};
use shader_compiler::{
    CompiledStageHandle, GraphicsContext, Reply, Request, Session, Shader, ShaderError,
    ShaderManager, ShaderProgramHandle, ShaderStageSource, StageKind,
};

/// A context that grants every call, or none after a number of them, and
/// writes down what it was asked.
struct Obliging {
    objects_made: u32,
    grants_left: usize,
    calls: Vec<Request>,
}

impl Obliging {
    fn new() -> Obliging {
        Obliging { objects_made: 0, grants_left: usize::MAX, calls: Vec::new() }
    }

    fn until(grants: usize) -> Obliging {
        Obliging { objects_made: 0, grants_left: grants, calls: Vec::new() }
    }
}

impl GraphicsContext for Obliging {
    fn perform(&mut self, request: Request) -> Reply {
        self.calls.push(request);
        let granted = self.grants_left > 0;
        match request {
            Request::CreateProgram => {
                self.grants_left = self.grants_left.saturating_sub(1);
                self.objects_made += 1;
                Reply::Program(granted.then_some(ShaderProgramHandle { id: self.objects_made }))
            }
            Request::CreateStage { .. } => {
                self.grants_left = self.grants_left.saturating_sub(1);
                self.objects_made += 1;
                Reply::Stage(granted.then_some(CompiledStageHandle { id: self.objects_made }))
            }
            Request::QueryCompileStatus { .. } | Request::QueryLinkStatus { .. } => {
                self.grants_left = self.grants_left.saturating_sub(1);
                Reply::Status(granted)
            }
            Request::GetCompileLog { .. } => Reply::Log(String::from("stage log")),
            Request::GetLinkLog { .. } => Reply::Log(String::from("program log")),
            _ => Reply::Done,
        }
    }
}

#[test]
fn get_source_gives_the_vertex_stage_and_then_the_fragment_stage() {
    let stages = Shader::Example(0).get_source();
    assert_eq!(
        stages,
        vec![
            ShaderStageSource { kind: StageKind::Vertex, source: EXAMPLE_VERTEX_SOURCE },
            ShaderStageSource { kind: StageKind::Fragment, source: EXAMPLE_FRAGMENT_SOURCE },
        ]
    );
}

#[test]
fn every_shader_runs_the_example_program() {
    assert_eq!(Shader::Example2(1, 2, 3).get_source(), Shader::Example(9).get_source());
}

#[test]
fn example_sources_are_two_different_texts() {
    assert!(EXAMPLE_VERTEX_SOURCE.contains("gl_Position"));
    assert!(EXAMPLE_FRAGMENT_SOURCE.contains("out vec4"));
    assert_ne!(EXAMPLE_VERTEX_SOURCE, EXAMPLE_FRAGMENT_SOURCE);
}

#[test]
fn new_builds_the_example_program() {
    let mut gl = Session::new(Obliging::new());
    let manager = ShaderManager::new(&mut gl).unwrap();
    assert_eq!(manager.program(), ShaderProgramHandle { id: 1 });
    assert_eq!(manager.loaded(), None);
    assert_eq!(gl.context().calls.len(), 17);
    assert_eq!(gl.context().calls[1], Request::CreateStage { kind: StageKind::Vertex });
    assert_eq!(
        gl.context().calls[2],
        Request::SetSource { stage: CompiledStageHandle { id: 2 }, source: EXAMPLE_VERTEX_SOURCE }
    );
    assert_eq!(gl.context().calls[6], Request::CreateStage { kind: StageKind::Fragment });
    assert_eq!(
        gl.context().calls[7],
        Request::SetSource { stage: CompiledStageHandle { id: 3 }, source: EXAMPLE_FRAGMENT_SOURCE }
    );
}

#[test]
fn new_hands_on_the_error_of_the_compilation() {
    let errors = vec![
        ShaderError::ProgramCreationFailed,
        ShaderError::StageCreationFailed,
        ShaderError::StageCompileFailed { kind: StageKind::Vertex, log: String::from("stage log") },
        ShaderError::StageCreationFailed,
        ShaderError::StageCompileFailed {
            kind: StageKind::Fragment,
            log: String::from("stage log"),
        },
        ShaderError::LinkFailed { log: String::from("program log") },
    ];
    for (grants, error) in errors.into_iter().enumerate() {
        let mut gl = Session::new(Obliging::until(grants));
        match ShaderManager::new(&mut gl) {
            Ok(manager) => panic!("built program {:?}", manager.program()),
            Err(found) => assert_eq!(found, error),
        }
    }
    let mut gl = Session::new(Obliging::until(6));
    assert!(ShaderManager::new(&mut gl).is_ok());
}

#[test]
fn load_takes_the_shader_into_use_and_keeps_the_program() {
    let mut gl = Session::new(Obliging::new());
    let mut manager = ShaderManager::new(&mut gl).unwrap();
    let program = manager.program();
    manager.load(Shader::Example(0x3f4ccccd));
    assert_eq!(manager.loaded(), Some(Shader::Example(0x3f4ccccd)));
    assert_eq!(manager.program(), program);
    manager.load(Shader::Example2(1, 2, 3));
    assert_eq!(manager.loaded(), Some(Shader::Example2(1, 2, 3)));
    assert_eq!(manager.program(), program);
}

#[test]
fn load_asks_nothing_of_the_context() {
    let mut gl = Session::new(Obliging::new());
    let mut manager = ShaderManager::new(&mut gl).unwrap();
    let calls = gl.context().calls.len();
    manager.load(Shader::Example(1));
    assert_eq!(gl.context().calls.len(), calls);
}
