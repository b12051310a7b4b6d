use gl_triangle::info_log::{decode_log, log_text_bytes};
use gl_triangle::pipeline::{compile_failure, link_failure, Action, BuildError, Event, Phase, ShaderBuild, Stage};
use gl_triangle::shader::Shader;

fn start() -> (ShaderBuild, Action) {
    Shader::new("shaders/shader.vs", "shaders/shader.fs")
}

fn step(b: &mut ShaderBuild, ev: Event) -> Action {
    assert!(b.accepts(&ev));
    b.resume(ev)
}

fn loaded(text: &str) -> Event {
    Event::SourceLoaded { source: Some(text.to_string()) }
}

fn log_event(text: &str) -> Event {
    let mut buffer = text.as_bytes().to_vec();
    buffer.push(0);
    Event::InfoLog { reported: buffer.len() as i32, buffer }
}

/// Runs the build up to the link, with both stages compiled.
fn up_to_link(b: &mut ShaderBuild) {
    step(b, loaded("vertex"));
    step(b, Event::Compiled { shader: 3, succeeded: true });
    step(b, loaded("fragment"));
    let a = step(b, Event::Compiled { shader: 4, succeeded: true });
    assert!(matches!(a, Action::Link { vertex: 3, fragment: 4 }));
}

#[test]
fn first_action_reads_vertex_source() {
    let (b, a) = start();
    assert_eq!(b.phase, Phase::LoadingVertex);
    match a {
        Action::LoadSource { stage, path } => {
            assert_eq!(stage, Stage::Vertex);
            assert_eq!(path, "shaders/shader.vs");
        }
        _ => panic!("expected a source load"),
    }
}

#[test]
fn clean_build_returns_program() {
    let (mut b, _) = start();
    match step(&mut b, loaded("void main() {}")) {
        Action::Compile { stage, source } => {
            assert_eq!(stage, Stage::Vertex);
            assert_eq!(source, "void main() {}");
        }
        _ => panic!("expected a compile"),
    }
    match step(&mut b, Event::Compiled { shader: 3, succeeded: true }) {
        Action::LoadSource { stage, path } => {
            assert_eq!(stage, Stage::Fragment);
            assert_eq!(path, "shaders/shader.fs");
        }
        _ => panic!("expected a source load"),
    }
    match step(&mut b, loaded("out vec4 c;")) {
        Action::Compile { stage, .. } => assert_eq!(stage, Stage::Fragment),
        _ => panic!("expected a compile"),
    }
    let a = step(&mut b, Event::Compiled { shader: 4, succeeded: true });
    assert!(matches!(a, Action::Link { vertex: 3, fragment: 4 }));
    let a = step(&mut b, Event::Linked { program: 9, succeeded: true });
    assert!(matches!(a, Action::DeleteShader { shader: 3 }));
    let a = step(&mut b, Event::Deleted);
    assert!(matches!(a, Action::DeleteShader { shader: 4 }));
    match step(&mut b, Event::Deleted) {
        Action::Finish { result: Ok(s) } => assert_eq!(s.id, 9),
        _ => panic!("expected a program"),
    }
    assert_eq!(b.phase, Phase::Finished);
    assert!(!b.accepts(&Event::Deleted));
}

#[test]
fn vertex_compile_error_carries_log() {
    let (mut b, _) = start();
    step(&mut b, loaded("void main() { oops }"));
    let a = step(&mut b, Event::Compiled { shader: 5, succeeded: false });
    assert!(matches!(a, Action::FetchShaderLog { shader: 5 }));
    match step(&mut b, log_event("ERROR: 0:1: 'oops' : syntax error")) {
        Action::Finish { result: Err(BuildError::CompileFailure { stage, log }) } => {
            assert_eq!(stage, Stage::Vertex);
            assert_eq!(log, "ERROR: 0:1: 'oops' : syntax error");
            assert!(log.contains("ERROR: "));
        }
        _ => panic!("expected a compile failure"),
    }
    assert_eq!(b.phase, Phase::Finished);
}

#[test]
fn fragment_compile_error_carries_log() {
    let (mut b, _) = start();
    step(&mut b, loaded("vertex"));
    step(&mut b, Event::Compiled { shader: 3, succeeded: true });
    step(&mut b, loaded("fragment"));
    let a = step(&mut b, Event::Compiled { shader: 4, succeeded: false });
    assert!(matches!(a, Action::FetchShaderLog { shader: 4 }));
    match step(&mut b, log_event("ERROR: 0:2: undeclared")) {
        Action::Finish { result: Err(BuildError::CompileFailure { stage, log }) } => {
            assert_eq!(stage, Stage::Fragment);
            assert_eq!(log, "ERROR: 0:2: undeclared");
        }
        _ => panic!("expected a compile failure"),
    }
}

#[test]
fn link_error_carries_program_log() {
    let (mut b, _) = start();
    up_to_link(&mut b);
    let a = step(&mut b, Event::Linked { program: 9, succeeded: false });
    assert!(matches!(a, Action::FetchProgramLog { program: 9 }));
    match step(&mut b, log_event("ERROR: vColor not written by vertex stage")) {
        Action::Finish { result: Err(BuildError::LinkFailure { log }) } => {
            assert_eq!(log, "ERROR: vColor not written by vertex stage");
        }
        _ => panic!("expected a link failure"),
    }
}

#[test]
fn missing_vertex_source_fails() {
    let (mut b, _) = start();
    match step(&mut b, Event::SourceLoaded { source: None }) {
        Action::Finish { result: Err(BuildError::SourceLoadFailure { stage, path }) } => {
            assert_eq!(stage, Stage::Vertex);
            assert_eq!(path, "shaders/shader.vs");
        }
        _ => panic!("expected a source load failure"),
    }
}

#[test]
fn missing_fragment_source_fails() {
    let (mut b, _) = start();
    step(&mut b, loaded("vertex"));
    step(&mut b, Event::Compiled { shader: 3, succeeded: true });
    match step(&mut b, Event::SourceLoaded { source: None }) {
        Action::Finish { result: Err(BuildError::SourceLoadFailure { stage, path }) } => {
            assert_eq!(stage, Stage::Fragment);
            assert_eq!(path, "shaders/shader.fs");
        }
        _ => panic!("expected a source load failure"),
    }
}

#[test]
fn undecodable_compile_log() {
    let (mut b, _) = start();
    step(&mut b, loaded("vertex"));
    step(&mut b, Event::Compiled { shader: 3, succeeded: false });
    let a = step(&mut b, Event::InfoLog { reported: 3, buffer: vec![0xff, 0xfe, 0] });
    assert!(matches!(
        a,
        Action::Finish { result: Err(BuildError::UnreadableCompileLog { stage: Stage::Vertex }) }
    ));
}

#[test]
fn undecodable_link_log() {
    let (mut b, _) = start();
    up_to_link(&mut b);
    step(&mut b, Event::Linked { program: 9, succeeded: false });
    let a = step(&mut b, Event::InfoLog { reported: 2, buffer: vec![0xc3, 0] });
    assert!(matches!(a, Action::Finish { result: Err(BuildError::UnreadableLinkLog) }));
}

#[test]
fn mismatched_event_not_accepted() {
    let (b, _) = start();
    assert!(b.accepts(&Event::SourceLoaded { source: None }));
    assert!(!b.accepts(&Event::Deleted));
    assert!(!b.accepts(&Event::Compiled { shader: 1, succeeded: true }));
}

#[test]
fn log_terminator_dropped() {
    assert_eq!(log_text_bytes(6, b"ERROR\0".to_vec()), b"ERROR".to_vec());
}

#[test]
fn log_empty_reports() {
    assert_eq!(log_text_bytes(0, Vec::new()), Vec::<u8>::new());
    assert_eq!(log_text_bytes(1, vec![0]), Vec::<u8>::new());
    assert_eq!(log_text_bytes(-4, vec![1, 2]), Vec::<u8>::new());
}

#[test]
fn log_longer_than_buffer() {
    assert_eq!(log_text_bytes(10, b"abc".to_vec()), b"abc".to_vec());
}

#[test]
fn decode_log_text() {
    assert_eq!(decode_log(4, b"ok!\0".to_vec()), Some("ok!".to_string()));
    assert_eq!(decode_log(0, Vec::new()), Some(String::new()));
    assert_eq!(decode_log(2, vec![0xff, 0]), None);
    // the invalid byte lies past the text, so it is not decoded
    assert_eq!(decode_log(2, vec![b'a', 0xff]), Some("a".to_string()));
}

#[test]
fn compile_failure_from_decoded_log() {
    match compile_failure(Stage::Fragment, Some("ERROR: bad".to_string())) {
        Action::Finish { result: Err(BuildError::CompileFailure { stage, log }) } => {
            assert_eq!(stage, Stage::Fragment);
            assert_eq!(log, "ERROR: bad");
        }
        _ => panic!("expected a compile failure"),
    }
    assert!(matches!(
        compile_failure(Stage::Vertex, None),
        Action::Finish { result: Err(BuildError::UnreadableCompileLog { stage: Stage::Vertex }) }
    ));
}

#[test]
fn link_failure_from_decoded_log() {
    match link_failure(Some("ERROR: link".to_string())) {
        Action::Finish { result: Err(BuildError::LinkFailure { log }) } => assert_eq!(log, "ERROR: link"),
        _ => panic!("expected a link failure"),
    }
    assert!(matches!(
        link_failure(None),
        Action::Finish { result: Err(BuildError::UnreadableLinkLog) }
    ));
}

#[test]
fn decode_log_multibyte_text() {
    let mut buffer = "erreur à la ligne 1".as_bytes().to_vec();
    buffer.push(0);
    let reported = buffer.len() as i32;
    assert_eq!(decode_log(reported, buffer), Some("erreur à la ligne 1".to_string()));
}
