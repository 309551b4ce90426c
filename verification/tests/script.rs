use crayon::backend::BackendCall;
use crayon::errors::{BackendError, Error};
use crayon::resource::{UniformVariable, VertexAttribute};
use crayon::script::{Missing, Request, Run, Script, Step};

fn uniform(name: &[u8], missing: Missing) -> Step {
    Step::Uniform { program: 4, name: name.to_vec(), variable: UniformVariable::I32(8), missing }
}

#[test]
fn run_takes_calls_in_order() {
    let script = Script {
        steps: vec![Step::Call(BackendCall::Check), Step::Call(BackendCall::BindProgram { id: 2 })],
        outcome: Ok(()),
    };
    let mut run = Run::new(script);
    assert!(!run.finished());
    assert_eq!(run.request(), Some(Request::Call(BackendCall::Check)));
    run.resume(Ok(0));
    assert_eq!(run.request(), Some(Request::Call(BackendCall::BindProgram { id: 2 })));
    run.resume(Ok(-1));
    assert_eq!(run.request(), None);
    assert!(run.finished());
    assert_eq!(run.into_result(), Some(Ok(())));
}

#[test]
fn run_of_nothing_is_finished_with_the_outcome() {
    let run = Run::new(Script { steps: vec![], outcome: Err(Error::InvalidHandle) });
    assert!(run.finished());
    assert_eq!(run.request(), None);
    assert_eq!(run.into_result(), Some(Err(Error::InvalidHandle)));
}

#[test]
fn run_ends_with_the_outcome_of_the_script() {
    let script = Script { steps: vec![Step::Call(BackendCall::Check)], outcome: Err(Error::OutOfBounds) };
    let mut run = Run::new(script);
    run.resume(Ok(0));
    assert_eq!(run.into_result(), Some(Err(Error::OutOfBounds)));
}

#[test]
fn unfinished_run_has_no_result() {
    let run = Run::new(Script { steps: vec![Step::Call(BackendCall::Check)], outcome: Ok(()) });
    assert_eq!(run.into_result(), None);
}

#[test]
fn backend_failure_ends_the_run() {
    let script = Script {
        steps: vec![Step::Call(BackendCall::Check), Step::Call(BackendCall::BindProgram { id: 2 })],
        outcome: Ok(()),
    };
    let mut run = Run::new(script);
    run.resume(Err(BackendError { code: 0x0502 }));
    assert!(run.finished());
    assert_eq!(run.request(), None);
    run.resume(Ok(0));
    assert_eq!(run.cursor, 0);
    assert_eq!(run.into_result(), Some(Err(Error::Backend(BackendError { code: 0x0502 }))));
}

#[test]
fn uniform_is_located_then_bound() {
    let mut run = Run::new(Script { steps: vec![uniform(b"color", Missing::FailUniform)], outcome: Ok(()) });
    assert_eq!(run.request(), Some(Request::Locate { program: 4, name: &b"color"[..] }));
    run.resume(Ok(6));
    assert_eq!(
        run.request(),
        Some(Request::Call(BackendCall::BindUniform { location: 6, variable: UniformVariable::I32(8) }))
    );
    run.resume(Ok(0));
    assert_eq!(run.into_result(), Some(Ok(())));
}

#[test]
fn uniform_bind_failure_ends_the_run() {
    let mut run = Run::new(Script { steps: vec![uniform(b"color", Missing::Skip)], outcome: Ok(()) });
    run.resume(Ok(0));
    run.resume(Err(BackendError { code: 1 }));
    assert_eq!(run.into_result(), Some(Err(Error::Backend(BackendError { code: 1 }))));
}

#[test]
fn missing_uniform_fails_with_its_name() {
    let mut run = Run::new(Script {
        steps: vec![uniform(b"color", Missing::FailUniform), Step::Call(BackendCall::Check)],
        outcome: Ok(()),
    });
    run.resume(Ok(-1));
    assert_eq!(run.request(), None);
    assert_eq!(run.into_result(), Some(Err(Error::UniformNotFound(b"color".to_vec()))));
}

#[test]
fn missing_texture_fails_with_its_name() {
    let mut run = Run::new(Script { steps: vec![uniform(b"diffuse", Missing::FailTexture)], outcome: Ok(()) });
    run.resume(Ok(-1));
    assert_eq!(run.into_result(), Some(Err(Error::TextureNotFound(b"diffuse".to_vec()))));
}

#[test]
fn missing_uniform_is_skipped_where_the_step_says_so() {
    let mut run = Run::new(Script {
        steps: vec![uniform(b"time", Missing::Skip), Step::Call(BackendCall::Check)],
        outcome: Ok(()),
    });
    run.resume(Ok(-1));
    assert_eq!(run.request(), Some(Request::Call(BackendCall::Check)));
    run.resume(Ok(0));
    assert_eq!(run.into_result(), Some(Ok(())));
}

#[test]
fn attribute_is_looked_up() {
    let step = Step::Attribute { program: 3, attribute: VertexAttribute::Normal };
    let mut run = Run::new(Script { steps: vec![step, Step::Call(BackendCall::Check)], outcome: Ok(()) });
    assert_eq!(
        run.request(),
        Some(Request::Call(BackendCall::GetAttributeLocation {
            program: 3,
            attribute: VertexAttribute::Normal,
        }))
    );
    run.resume(Ok(0));
    assert_eq!(run.request(), Some(Request::Call(BackendCall::Check)));
}

#[test]
fn missing_attribute_fails_with_its_name() {
    let step = Step::Attribute { program: 3, attribute: VertexAttribute::Normal };
    let mut run = Run::new(Script { steps: vec![step], outcome: Ok(()) });
    run.resume(Ok(-1));
    assert_eq!(run.into_result(), Some(Err(Error::AttributeNotFound(VertexAttribute::Normal))));
}
