//! Wait and poll tests: the unbounded wait absorbs native timeouts by
//! retrying, the bounded wait surfaces them without retrying, and the poll
//! distinguishes "no frame" from a frame and from a failure.

use capture_pipeline::errors::{Error, ErrorKind};
use capture_pipeline::pipeline::{ActivePipeline, InactivePipeline};
use capture_pipeline::scripted::{ScriptStep, ScriptedNative};

/// Brings a pipeline to the active state, consuming the first three script
/// steps (context, pipeline, start).
fn started(native: &mut ScriptedNative) -> ActivePipeline {
    let pipeline = InactivePipeline::new(native).unwrap();
    pipeline.start(native, None).unwrap()
}

fn up_script(tail: Vec<ScriptStep>) -> Vec<ScriptStep> {
    let mut script = vec![ScriptStep::Succeed; 3];
    script.extend(tail);
    script
}

#[test]
fn wait_none_retries_past_timeouts_and_returns_the_frame() {
    let mut native = ScriptedNative::new(up_script(vec![
        ScriptStep::Fail(ErrorKind::Timeout),
        ScriptStep::Fail(ErrorKind::Timeout),
        ScriptStep::Fail(ErrorKind::Timeout),
        ScriptStep::Succeed,
    ]));
    let mut active = started(&mut native);

    let r = active.wait(&mut native, None);
    let frame = r.unwrap();
    // all three timeout steps were consumed before the success: the wait
    // retried internally and never surfaced a timeout.
    assert_eq!(native.steps_taken(), 7);
    frame.delete(&mut native);
}

#[test]
fn wait_none_surfaces_other_failures_without_retrying() {
    let mut native = ScriptedNative::new(up_script(vec![ScriptStep::Fail(ErrorKind::Other)]));
    let mut active = started(&mut native);

    let r = active.wait(&mut native, None);
    assert!(matches!(r, Err(Error::NativeCall { .. })));
    assert_eq!(native.steps_taken(), 4);
}

#[test]
fn wait_some_surfaces_timeout_without_retrying() {
    let mut native = ScriptedNative::new(up_script(vec![
        ScriptStep::Fail(ErrorKind::Timeout),
        ScriptStep::Fail(ErrorKind::Timeout),
    ]));
    let mut active = started(&mut native);

    let r = active.wait(&mut native, Some(10));
    assert!(matches!(r, Err(Error::Timeout { .. })));
    // exactly one wait step was consumed: no retry happened.
    assert_eq!(native.steps_taken(), 4);
}

#[test]
fn wait_some_returns_the_frame_on_success() {
    let mut native = ScriptedNative::new(up_script(vec![ScriptStep::Succeed]));
    let mut active = started(&mut native);

    let frame = active.wait(&mut native, Some(500)).unwrap();
    frame.delete(&mut native);
    assert_eq!(native.steps_taken(), 4);
}

#[test]
fn try_wait_reports_none_when_no_frame_is_available() {
    let mut native = ScriptedNative::new(up_script(vec![ScriptStep::NoFrame]));
    let mut active = started(&mut native);

    let r = active.try_wait(&mut native);
    assert!(matches!(r, Ok(None)));
    // no frame handle was issued for the empty poll.
    assert_eq!(native.created_log().len(), 3);
}

#[test]
fn try_wait_reports_the_frame_when_one_is_available() {
    let mut native = ScriptedNative::new(up_script(vec![ScriptStep::Succeed]));
    let mut active = started(&mut native);

    let r = active.try_wait(&mut native);
    let frame = r.unwrap().unwrap();
    frame.delete(&mut native);
}

#[test]
fn try_wait_surfaces_a_native_failure() {
    let mut native = ScriptedNative::new(up_script(vec![ScriptStep::Fail(ErrorKind::Other)]));
    let mut active = started(&mut native);

    let r = active.try_wait(&mut native);
    assert!(matches!(r, Err(Error::NativeCall { .. })));
}

#[test]
fn try_wait_timeout_kind_is_still_a_timeout_error() {
    let mut native = ScriptedNative::new(up_script(vec![ScriptStep::Fail(ErrorKind::Timeout)]));
    let mut active = started(&mut native);

    let r = active.try_wait(&mut native);
    assert!(matches!(r, Err(Error::Timeout { .. })));
}

#[test]
fn profile_accessor_makes_no_native_call() {
    let mut native = ScriptedNative::new(vec![]);
    let active = started(&mut native);
    let before = native.steps_taken();
    let _ = active.profile();
    assert_eq!(native.steps_taken(), before);
}

#[test]
fn wait_none_with_exhausted_script_succeeds_at_once() {
    let mut native = ScriptedNative::new(vec![]);
    let mut active = started(&mut native);
    let frame = active.wait(&mut native, None).unwrap();
    frame.delete(&mut native);
    assert_eq!(native.steps_taken(), 0);
}
