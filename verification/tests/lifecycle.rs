//! Lifecycle tests: handle accounting across construction, start, stop and
//! teardown, observed through the scripted layer's create/destroy logs.

use capture_pipeline::config::Config;
use capture_pipeline::errors::{Error, ErrorKind};
use capture_pipeline::kinds::{Format, StreamKind};
use capture_pipeline::pipeline::InactivePipeline;
use capture_pipeline::scripted::{ScriptStep, ScriptedNative};

fn sorted(v: &Vec<u64>) -> Vec<u64> {
    let mut s = v.clone();
    s.sort();
    s
}

#[test]
fn full_lifecycle_destroys_every_handle_exactly_once() {
    let mut native = ScriptedNative::new(vec![]);

    let config = Config::new(&mut native).unwrap();
    let config = config
        .enable_stream(&mut native, StreamKind::Depth, 0, 640, 480, Format::Z16, 30)
        .unwrap();

    let pipeline = InactivePipeline::new(&mut native).unwrap();
    let mut active = pipeline.start(&mut native, Some(config)).unwrap();

    let frame = active.wait(&mut native, None).unwrap();
    frame.delete(&mut native);

    let polled = active.try_wait(&mut native).unwrap();
    assert!(polled.is_some());
    polled.unwrap().delete(&mut native);

    let inactive = active.stop(&mut native).unwrap();
    inactive.delete(&mut native);

    // config, context, pipeline, profile and two frames: six handles issued,
    // and each of them destroyed exactly once.
    let created = native.created_log().clone();
    let destroyed = native.destroyed_log().clone();
    assert_eq!(created.len(), 6);
    assert_eq!(destroyed.len(), 6);
    assert_eq!(sorted(&created), sorted(&destroyed));
    let mut unique = sorted(&destroyed);
    unique.dedup();
    assert_eq!(unique.len(), 6);
}

#[test]
fn lifecycle_without_config_destroys_every_handle() {
    let mut native = ScriptedNative::new(vec![]);

    let pipeline = InactivePipeline::new(&mut native).unwrap();
    let active = pipeline.start(&mut native, None).unwrap();
    let inactive = active.stop(&mut native).unwrap();
    inactive.delete(&mut native);

    // context, pipeline and profile; no config handle is ever issued.
    assert_eq!(native.created_log().len(), 3);
    assert_eq!(sorted(native.created_log()), sorted(native.destroyed_log()));
}

#[test]
fn stop_destroys_profile_and_config_but_keeps_pipeline() {
    let mut native = ScriptedNative::new(vec![]);

    let config = Config::new(&mut native).unwrap();
    let config_handle = config.handle;
    let pipeline = InactivePipeline::new(&mut native).unwrap();
    let pipeline_handle = pipeline.handle;
    let context_handle = pipeline.context.handle;

    let active = pipeline.start(&mut native, Some(config)).unwrap();
    let profile_handle = active.profile().handle;

    let inactive = active.stop(&mut native).unwrap();
    assert_eq!(inactive.handle, pipeline_handle);
    assert_eq!(inactive.context.handle, context_handle);

    let destroyed = native.destroyed_log().clone();
    assert!(destroyed.contains(&profile_handle));
    assert!(destroyed.contains(&config_handle));
    assert!(!destroyed.contains(&pipeline_handle));
    assert!(!destroyed.contains(&context_handle));

    inactive.delete(&mut native);
}

#[test]
fn start_and_restart_reuse_pipeline_and_context() {
    let mut native = ScriptedNative::new(vec![]);

    let pipeline = InactivePipeline::new(&mut native).unwrap();
    let pipeline_handle = pipeline.handle;

    let active = pipeline.start(&mut native, None).unwrap();
    let inactive = active.stop(&mut native).unwrap();
    let active = inactive.start(&mut native, None).unwrap();
    assert_eq!(active.handle, pipeline_handle);
    let inactive = active.stop(&mut native).unwrap();
    inactive.delete(&mut native);

    assert_eq!(sorted(native.created_log()), sorted(native.destroyed_log()));
}

#[test]
fn start_runs_are_deterministic_for_equal_scripts() {
    // Two runs over equal scripts negotiate identical active states: the
    // same profile handle and the same owned configuration handle.
    let script = vec![ScriptStep::Succeed; 4];
    let mut first = ScriptedNative::new(script.clone());
    let mut second = ScriptedNative::new(script);

    let config_a = Config::new(&mut first).unwrap();
    let pipeline_a = InactivePipeline::new(&mut first).unwrap();
    let active_a = pipeline_a.start(&mut first, Some(config_a)).unwrap();

    let config_b = Config::new(&mut second).unwrap();
    let pipeline_b = InactivePipeline::new(&mut second).unwrap();
    let active_b = pipeline_b.start(&mut second, Some(config_b)).unwrap();

    assert_eq!(active_a.profile().handle, active_b.profile().handle);
    assert_eq!(
        active_a.state.config.as_ref().map(|c| c.handle),
        active_b.state.config.as_ref().map(|c| c.handle),
    );
}

#[test]
fn config_roundtrip_into_raw_from_raw_destroys_once() {
    let mut native = ScriptedNative::new(vec![]);

    let config = Config::new(&mut native).unwrap();
    let raw = config.into_raw();
    let config = Config::from_raw(raw);
    assert_eq!(config.handle, raw);
    config.delete(&mut native);

    assert_eq!(native.created_log().as_slice(), &[raw]);
    assert_eq!(native.destroyed_log().as_slice(), &[raw]);
}

#[test]
fn config_new_failure_issues_nothing() {
    let mut native = ScriptedNative::new(vec![ScriptStep::Fail(ErrorKind::Other)]);
    let r = Config::new(&mut native);
    assert!(matches!(r, Err(Error::NativeCall { .. })));
    assert!(native.created_log().is_empty());
    assert!(native.destroyed_log().is_empty());
}

#[test]
fn enable_stream_failure_destroys_the_config() {
    let mut native = ScriptedNative::new(vec![
        ScriptStep::Succeed,
        ScriptStep::Fail(ErrorKind::Other),
    ]);
    let config = Config::new(&mut native).unwrap();
    let handle = config.handle;
    let r = config.enable_stream(&mut native, StreamKind::Color, 0, 1280, 720, Format::Rgb8, 15);
    assert!(matches!(r, Err(Error::NativeCall { .. })));
    assert_eq!(native.destroyed_log().as_slice(), &[handle]);
}

#[test]
fn enable_device_from_serial_failure_destroys_the_config() {
    let mut native = ScriptedNative::new(vec![
        ScriptStep::Succeed,
        ScriptStep::Fail(ErrorKind::Other),
    ]);
    let config = Config::new(&mut native).unwrap();
    let handle = config.handle;
    let r = config.enable_device_from_serial(&mut native, "833612070748");
    assert!(matches!(r, Err(Error::NativeCall { .. })));
    assert_eq!(native.destroyed_log().as_slice(), &[handle]);
}

#[test]
fn enable_device_from_file_success_keeps_the_handle() {
    let mut native = ScriptedNative::new(vec![]);
    let config = Config::new(&mut native).unwrap();
    let handle = config.handle;
    let config = config
        .enable_device_from_file(&mut native, "recording.bag")
        .unwrap();
    assert_eq!(config.handle, handle);
    assert!(native.destroyed_log().is_empty());
    config.delete(&mut native);
}

#[test]
fn pipeline_new_failure_on_context_issues_nothing() {
    let mut native = ScriptedNative::new(vec![ScriptStep::Fail(ErrorKind::Other)]);
    let r = InactivePipeline::new(&mut native);
    assert!(matches!(r, Err(Error::NativeCall { .. })));
    assert!(native.created_log().is_empty());
}

#[test]
fn pipeline_new_failure_on_pipeline_destroys_the_context() {
    let mut native = ScriptedNative::new(vec![
        ScriptStep::Succeed,
        ScriptStep::Fail(ErrorKind::Other),
    ]);
    let r = InactivePipeline::new(&mut native);
    assert!(matches!(r, Err(Error::NativeCall { .. })));
    assert_eq!(native.created_log().len(), 1);
    assert_eq!(native.created_log(), native.destroyed_log());
}

#[test]
fn start_failure_destroys_pipeline_context_and_config() {
    let mut native = ScriptedNative::new(vec![
        ScriptStep::Succeed,
        ScriptStep::Succeed,
        ScriptStep::Succeed,
        ScriptStep::Fail(ErrorKind::Other),
    ]);
    let config = Config::new(&mut native).unwrap();
    let pipeline = InactivePipeline::new(&mut native).unwrap();
    let r = pipeline.start(&mut native, Some(config));
    assert!(matches!(r, Err(Error::NativeCall { .. })));
    assert_eq!(native.created_log().len(), 3);
    assert_eq!(sorted(native.created_log()), sorted(native.destroyed_log()));
}

#[test]
fn stop_failure_destroys_every_owned_handle() {
    let mut native = ScriptedNative::new(vec![
        ScriptStep::Succeed,
        ScriptStep::Succeed,
        ScriptStep::Succeed,
        ScriptStep::Fail(ErrorKind::Other),
    ]);
    let pipeline = InactivePipeline::new(&mut native).unwrap();
    let active = pipeline.start(&mut native, None).unwrap();
    let r = active.stop(&mut native);
    assert!(matches!(r, Err(Error::NativeCall { .. })));
    // context, pipeline and profile all went down with the failed stop.
    assert_eq!(native.created_log().len(), 3);
    assert_eq!(sorted(native.created_log()), sorted(native.destroyed_log()));
}

#[test]
fn context_roundtrip_through_into_raw_parts() {
    let mut native = ScriptedNative::new(vec![]);
    let pipeline = InactivePipeline::new(&mut native).unwrap();
    let pipeline_handle = pipeline.handle;
    let context_handle = pipeline.context.handle;
    let (p, c) = pipeline.into_raw_parts();
    assert_eq!((p, c), (pipeline_handle, context_handle));
    assert!(native.destroyed_log().is_empty());
}

#[test]
fn context_new_and_delete_destroys_once() {
    let mut native = ScriptedNative::new(vec![]);
    let context = capture_pipeline::context::Context::new(&mut native).unwrap();
    let handle = context.handle;
    let raw = context.into_raw();
    assert_eq!(raw, handle);
    let context = capture_pipeline::context::Context::from_raw(raw);
    context.delete(&mut native);
    assert_eq!(native.created_log().as_slice(), &[handle]);
    assert_eq!(native.destroyed_log().as_slice(), &[handle]);
}
