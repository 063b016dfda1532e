use shader_compiler::{ShaderError, StageKind};

#[test]
fn message_of_a_compile_failure_is_its_log() {
    let error = ShaderError::StageCompileFailed {
        kind: StageKind::Vertex,
        log: String::from("0:3: 'foo' : undeclared identifier"),
    };
    assert_eq!(error.message(), "0:3: 'foo' : undeclared identifier");
}

#[test]
fn message_of_a_link_failure_is_its_log() {
    let error = ShaderError::LinkFailed { log: String::from("varying not written") };
    assert_eq!(error.message(), "varying not written");
}

#[test]
fn message_of_an_error_without_a_log_is_a_fixed_sentence() {
    assert_eq!(ShaderError::NoStages.message(), "No shader stages given");
    assert_eq!(ShaderError::ProgramCreationFailed.message(), "Cannot create program");
    assert_eq!(ShaderError::StageCreationFailed.message(), "Cannot create shader");
}

#[test]
fn message_of_an_empty_log_is_empty() {
    assert_eq!(ShaderError::LinkFailed { log: String::new() }.message(), "");
}

#[test]
fn error_clone_is_equal() {
    let errors = vec![
        ShaderError::NoStages,
        ShaderError::ProgramCreationFailed,
        ShaderError::StageCreationFailed,
        ShaderError::StageCompileFailed { kind: StageKind::Fragment, log: String::from("a") },
        ShaderError::LinkFailed { log: String::from("b") },
    ];
    for error in errors {
        assert_eq!(error.clone(), error);
    }
}

#[test]
fn errors_differ_by_kind_and_log() {
    let vertex = ShaderError::StageCompileFailed { kind: StageKind::Vertex, log: String::from("a") };
    let fragment =
        ShaderError::StageCompileFailed { kind: StageKind::Fragment, log: String::from("a") };
    let other_log =
        ShaderError::StageCompileFailed { kind: StageKind::Vertex, log: String::from("b") };
    assert_ne!(vertex, fragment);
    assert_ne!(vertex, other_log);
    assert_ne!(ShaderError::LinkFailed { log: String::from("a") }, vertex);
}
