//! The typestate-driven pipeline: a native pipeline handle whose legal
//! operations are fixed by a compile-time lifecycle state.
//!
//! An inactive pipeline can only be started; an active pipeline can only be
//! waited on, polled, or stopped.  Every transition moves the owned handles to
//! the new value, and the contracts account for each native call exactly: the
//! model's log pins which entry points ran, what they were handed, and how
//! each report decided the result.

use vstd::prelude::*;
use crate::config::Config;
use crate::context::Context;
use crate::errors::{error_of, Error, ErrorChecker};
use crate::native::{CallOutcome, CallRecord, HandleKind, NativeLayer, NativeModel};

verus! {

/// The bound passed to the native wait when the caller asks for none; a
/// native timeout under this bound is absorbed by retrying, never surfaced.
pub const DEFAULT_TIMEOUT_MS: u32 = 15000;

/// Owns the native profile handle a successful start produces: the native
/// description of the concrete streams that were negotiated.
pub struct PipelineProfile {
    pub handle: u64,
}

impl PipelineProfile {
    /// The owned handle is alive with the right kind.
    pub open spec fn wf(&self, m: NativeModel) -> bool {
        m.holds(self.handle, HandleKind::Profile)
    }
}

/// Owns one native frame handle, pulled out of an active pipeline; ownership
/// passes to the caller as soon as the wait or poll returns.
pub struct Frame {
    pub handle: u64,
}

impl Frame {
    /// The owned handle is alive with the right kind.
    pub open spec fn wf(&self, m: NativeModel) -> bool {
        m.holds(self.handle, HandleKind::Frame)
    }

    /// Destroys the owned frame handle with one native destroy call.
    pub fn delete<N: NativeLayer>(self, native: &mut N)
        requires
            old(native).model().wf(),
            self.wf(old(native).model()),
        ensures
            final(native).model().wf(),
            old(native).model().destroyed(final(native).model(), self.handle),
            old(native).model().logged(
                final(native).model(),
                (CallRecord::Destroy { kind: HandleKind::Frame, handle: self.handle }),
            ),
    {
        native.destroy(HandleKind::Frame, self.handle);
    }
}

/// A lifecycle state of the pipeline; it owns exactly the extra handles that
/// are legal in that state.
pub trait PipelineState: Sized {
    /// The handles owned by the state itself are alive, beyond the pipeline
    /// and context handles that every pipeline owns.
    spec fn state_wf(&self, m: NativeModel) -> bool;
}

/// The state of a pipeline that has not been started: no extra resources.
pub struct Inactive;

impl PipelineState for Inactive {
    open spec fn state_wf(&self, m: NativeModel) -> bool {
        true
    }
}

/// The state of a started pipeline: it owns the negotiated profile and,
/// when one was supplied at start time, the configuration.
pub struct Active {
    pub profile: PipelineProfile,
    pub config: Option<Config>,
}

impl PipelineState for Active {
    open spec fn state_wf(&self, m: NativeModel) -> bool {
        self.profile.wf(m) && match self.config {
            Some(c) => c.wf(m),
            None => true,
        }
    }
}

/// The data pipeline: owns one native pipeline handle and a context, plus
/// whatever its lifecycle state owns.
pub struct Pipeline<State: PipelineState> {
    pub handle: u64,
    pub context: Context,
    pub state: State,
}

/// A pipeline that has not been started.
pub type InactivePipeline = Pipeline<Inactive>;

/// A pipeline that has been started.
pub type ActivePipeline = Pipeline<Active>;

impl<State: PipelineState> Pipeline<State> {
    /// Every handle this value owns is alive with the right kind.
    pub open spec fn wf(&self, m: NativeModel) -> bool {
        m.holds(self.handle, HandleKind::Pipeline) && self.context.wf(m) && self.state.state_wf(m)
    }
}

/// The raw configuration handle a start call is handed: the owned handle when
/// a configuration was supplied, nothing otherwise.
pub open spec fn config_arg_of(config: Option<Config>) -> Option<u64> {
    match config {
        Some(c) => Some(c.handle),
        None => None,
    }
}

impl InactivePipeline {
    /// Builds a default context and a pipeline bound to it: one native
    /// session construction and, if it passes, one pipeline construction
    /// handed that session.  The first failure report, translated, is the
    /// error, and whatever was built by then is destroyed.
    pub fn new<N: NativeLayer>(native: &mut N) -> (r: Result<InactivePipeline, Error>)
        requires
            old(native).model().wf(),
            old(native).model().can_issue(2),
        ensures
            final(native).model().wf(),
            match r {
                Ok(p) => p.wf(final(native).model())
                    && p.context.handle == old(native).model().next
                    && p.handle == old(native).model().next + 1
                    && final(native).model().live == old(native).model().live
                        .insert(p.context.handle, HandleKind::Context)
                        .insert(p.handle, HandleKind::Pipeline)
                    && final(native).model().next == old(native).model().next + 2
                    && final(native).model().log == old(native).model().log
                        .push((CallRecord::CreateContext {
                            outcome: (CallOutcome::Issued(p.context.handle)),
                        }))
                        .push((CallRecord::CreatePipeline {
                            context: p.context.handle,
                            outcome: (CallOutcome::Issued(p.handle)),
                        })),
                Err(e) => final(native).model().live == old(native).model().live
                    && (final(native).model().reclaimed == old(native).model().reclaimed
                    || final(native).model().reclaimed == old(native).model().reclaimed.push(
                        old(native).model().next,
                    ))
                    && old(native).model().next <= final(native).model().next
                    && final(native).model().next <= old(native).model().next + 1
                    && ((final(native).model().log == old(native).model().log.push(
                        final(native).model().log.last(),
                    ) && (final(native).model().log.last() matches CallRecord::CreateContext {
                        outcome: CallOutcome::Reported(ne),
                    } && e == error_of(ne))) || (final(native).model().log.len() == old(native).model().log.len() + 3 && (final(native).model().log[old(native).model().log.len() as int] matches CallRecord::CreateContext {
                        outcome: CallOutcome::Issued(ch),
                    } && final(native).model().log[old(native).model().log.len() as int + 1]
                        matches CallRecord::CreatePipeline {
                            context: c2,
                            outcome: CallOutcome::Reported(ne),
                        } && c2 == ch && e == error_of(ne) && final(native).model().log == old(native).model().log.push(
                        (CallRecord::CreateContext { outcome: (CallOutcome::Issued(ch)) }),
                    ).push(
                        final(native).model().log[old(native).model().log.len() as int + 1],
                    ).push((CallRecord::Destroy { kind: HandleKind::Context, handle: ch }))))),
            },
    {
        let context = Context::new(native)?;
        let pipeline = match Self::from_context(native, context) {
            Ok(p) => p,
            Err(e) => {
                proof {
                    assert(native.model().live =~= old(native).model().live);
                }
                return Err(e);
            },
        };
        Ok(pipeline)
    }

    /// Consumes a context and builds a pipeline bound to it: one native
    /// pipeline construction handed that session handle.  On a failure
    /// report the context is destroyed, exactly as if it had been dropped,
    /// and the report, translated, is the error.
    pub fn from_context<N: NativeLayer>(native: &mut N, context: Context) -> (r: Result<
        InactivePipeline,
        Error,
    >)
        requires
            old(native).model().wf(),
            old(native).model().can_issue(1),
            context.wf(old(native).model()),
        ensures
            final(native).model().wf(),
            match r {
                Ok(p) => p.wf(final(native).model()) && p.context == context
                    && old(native).model().allocated(
                        final(native).model(),
                        HandleKind::Pipeline,
                        p.handle,
                    )
                    && old(native).model().logged(
                        final(native).model(),
                        (CallRecord::CreatePipeline {
                            context: context.handle,
                            outcome: (CallOutcome::Issued(p.handle)),
                        }),
                    ),
                Err(e) => old(native).model().destroyed(final(native).model(), context.handle)
                    && (final(native).model().log[old(native).model().log.len() as int]
                        matches CallRecord::CreatePipeline {
                            context: c2,
                            outcome: CallOutcome::Reported(ne),
                        } && c2 == context.handle && e == error_of(ne))
                    && final(native).model().log == old(native).model().log.push(
                        final(native).model().log[old(native).model().log.len() as int],
                    ).push(
                        (CallRecord::Destroy {
                            kind: HandleKind::Context,
                            handle: context.handle,
                        }),
                    ),
            },
    {
        let mut checker = ErrorChecker::new();
        let ptr = native.create_pipeline(context.handle, &mut checker);
        match checker.check() {
            Ok(()) => Ok(Pipeline { handle: ptr, context, state: Inactive }),
            Err(e) => {
                context.delete(native);
                Err(e)
            },
        }
    }

    /// Starts the pipeline, consuming the inactive pipeline: exactly one
    /// native start call receives this pipeline's handle and the supplied
    /// configuration's handle (nothing, when none was supplied).  If it
    /// issues a profile the returned active pipeline owns the same pipeline
    /// and context handles, that profile, and the configuration; nothing is
    /// destroyed.  On a failure report the pipeline, its context and the
    /// configuration are all destroyed, exactly as if they had been dropped,
    /// and the report, translated, is the error.
    pub fn start<N: NativeLayer>(self, native: &mut N, config: Option<Config>) -> (r: Result<
        ActivePipeline,
        Error,
    >)
        requires
            old(native).model().wf(),
            old(native).model().can_issue(1),
            self.wf(old(native).model()),
            config matches Some(c) ==> c.wf(old(native).model()),
        ensures
            final(native).model().wf(),
            match r {
                Ok(active) => active.handle == self.handle && active.context == self.context
                    && active.state.config == config && old(native).model().allocated(
                    final(native).model(),
                    HandleKind::Profile,
                    active.state.profile.handle,
                ) && active.wf(final(native).model())
                    && old(native).model().logged(
                        final(native).model(),
                        (CallRecord::Start {
                            pipeline: self.handle,
                            config_handle: config_arg_of(config),
                            outcome: (CallOutcome::Issued(active.state.profile.handle)),
                        }),
                    ),
                Err(e) => final(native).model().live == (match config {
                    Some(c) => old(native).model().live.remove(c.handle),
                    None => old(native).model().live,
                }).remove(self.handle).remove(self.context.handle)
                    && final(native).model().reclaimed == (match config {
                        Some(c) => old(native).model().reclaimed.push(c.handle),
                        None => old(native).model().reclaimed,
                    }).push(self.handle).push(self.context.handle)
                    && final(native).model().next == old(native).model().next
                    && (final(native).model().log[old(native).model().log.len() as int]
                        matches CallRecord::Start {
                            pipeline: p2,
                            config_handle: cf2,
                            outcome: CallOutcome::Reported(ne),
                        } && p2 == self.handle && cf2 == config_arg_of(config) && e == error_of(
                        ne,
                    ))
                    && final(native).model().log == (match config {
                        Some(c) => old(native).model().log.push(
                            final(native).model().log[old(native).model().log.len() as int],
                        ).push(
                            (CallRecord::Destroy {
                                kind: HandleKind::Config,
                                handle: c.handle,
                            }),
                        ),
                        None => old(native).model().log.push(
                            final(native).model().log[old(native).model().log.len() as int],
                        ),
                    }).push(
                        (CallRecord::Destroy { kind: HandleKind::Pipeline, handle: self.handle }),
                    ).push(
                        (CallRecord::Destroy {
                            kind: HandleKind::Context,
                            handle: self.context.handle,
                        }),
                    ),
            },
    {
        let mut checker = ErrorChecker::new();
        let profile_ptr = match &config {
            Some(conf) => native.pipeline_start(self.handle, Some(conf.handle), &mut checker),
            None => native.pipeline_start(self.handle, None, &mut checker),
        };
        match checker.check() {
            Ok(()) => {
                let profile = PipelineProfile { handle: profile_ptr };
                let (pipeline_ptr, context_ptr) = self.into_raw_parts();
                Ok(
                    Pipeline {
                        handle: pipeline_ptr,
                        context: Context::from_raw(context_ptr),
                        state: Active { profile, config },
                    },
                )
            },
            Err(e) => {
                match config {
                    Some(conf) => conf.delete(native),
                    None => {},
                }
                self.delete(native);
                Err(e)
            },
        }
    }

    /// Decomposes the pipeline into its raw pipeline and context handles,
    /// disabling its teardown; the inverse of re-wrapping them with
    /// `Context::from_raw` and a struct literal during a state transition.
    pub fn into_raw_parts(self) -> (r: (u64, u64))
        ensures
            r.0 == self.handle,
            r.1 == self.context.handle,
    {
        (self.handle, self.context.into_raw())
    }

    /// Destroys the pipeline handle and the owned context, exactly as
    /// dropping the value would: one native destroy call for each.
    pub fn delete<N: NativeLayer>(self, native: &mut N)
        requires
            old(native).model().wf(),
            self.wf(old(native).model()),
        ensures
            final(native).model().wf(),
            final(native).model().live == old(native).model().live.remove(self.handle).remove(
                self.context.handle,
            ),
            final(native).model().reclaimed == old(native).model().reclaimed.push(
                self.handle,
            ).push(self.context.handle),
            final(native).model().next == old(native).model().next,
            final(native).model().log == old(native).model().log.push(
                (CallRecord::Destroy { kind: HandleKind::Pipeline, handle: self.handle }),
            ).push(
                (CallRecord::Destroy { kind: HandleKind::Context, handle: self.context.handle }),
            ),
    {
        native.destroy(HandleKind::Pipeline, self.handle);
        self.context.delete(native);
    }
}

impl ActivePipeline {
    /// The profile describing the negotiated streams; no native call.
    pub fn profile(&self) -> (r: &PipelineProfile)
        ensures
            *r == self.state.profile,
    {
        &self.state.profile
    }

    /// Blocks until the next frame arrives.
    ///
    /// Every native wait receives this pipeline's handle and the chosen
    /// bound: the caller's milliseconds verbatim with `Some(ms)`, the
    /// default bound with `None`.  With `Some(ms)` exactly one native wait
    /// is made and its report decides the result, a timeout report surfacing
    /// as `Error::Timeout`.  With `None` every timeout report is absorbed by
    /// another wait, so only the frame the layer eventually issues, or a
    /// non-timeout failure it actually reported, comes back.
    pub fn wait<N: NativeLayer>(&mut self, native: &mut N, timeout: Option<u32>) -> (r: Result<
        Frame,
        Error,
    >)
        requires
            old(native).model().wf(),
            old(native).model().can_issue(1),
            old(self).wf(old(native).model()),
        ensures
            *final(self) == *old(self),
            final(native).model().wf(),
            old(native).model().log.len() < final(native).model().log.len(),
            final(native).model().log.subrange(0, old(native).model().log.len() as int) == old(native).model().log,
            timeout is Some ==> final(native).model().log.len() == old(native).model().log.len()
                + 1,
            forall|i: int|
                #![trigger final(native).model().log[i]]
                old(native).model().log.len() <= i < final(native).model().log.len() ==> (final(native).model().log[i] matches CallRecord::WaitForFrames {
                    pipeline: p,
                    timeout_ms: t,
                    outcome: _,
                } && p == old(self).handle && t == (match timeout {
                    Some(ms) => ms,
                    None => DEFAULT_TIMEOUT_MS,
                })),
            forall|i: int|
                #![trigger final(native).model().log[i]]
                old(native).model().log.len() <= i < final(native).model().log.len() - 1 ==> (
                final(native).model().log[i] matches CallRecord::WaitForFrames {
                    outcome: CallOutcome::Reported(ne),
                    ..
                } && ne.kind is Timeout),
            match r {
                Ok(f) => old(native).model().allocated(
                    final(native).model(),
                    HandleKind::Frame,
                    f.handle,
                ) && (final(native).model().log.last() matches CallRecord::WaitForFrames {
                    outcome: CallOutcome::Issued(h),
                    ..
                } && h == f.handle),
                Err(e) => old(native).model().untouched(final(native).model()) && (final(native).model().log.last() matches CallRecord::WaitForFrames {
                    outcome: CallOutcome::Reported(ne),
                    ..
                } && e == error_of(ne) && (timeout is None ==> !(ne.kind is Timeout))),
            },
    {
        let timeout_ms: u32 = match timeout {
            Some(ms) => ms,
            None => DEFAULT_TIMEOUT_MS,
        };
        loop
            invariant
                native.model().wf(),
                native.model().can_issue(1),
                native.model().live == old(native).model().live,
                native.model().issued == old(native).model().issued,
                native.model().reclaimed == old(native).model().reclaimed,
                native.model().next == old(native).model().next,
                old(native).model().log.len() <= native.model().log.len(),
                native.model().log.subrange(0, old(native).model().log.len() as int) == old(native).model().log,
                forall|i: int|
                    #![trigger native.model().log[i]]
                    old(native).model().log.len() <= i < native.model().log.len() ==> (
                    native.model().log[i] matches CallRecord::WaitForFrames {
                        pipeline: p,
                        timeout_ms: t,
                        outcome: CallOutcome::Reported(ne),
                    } && p == old(self).handle && t == timeout_ms && ne.kind is Timeout),
                timeout_ms == (match timeout {
                    Some(ms) => ms,
                    None => DEFAULT_TIMEOUT_MS,
                }),
                timeout is Some ==> native.model().log.len() == old(native).model().log.len(),
                *self == *old(self),
                self.wf(native.model()),
            decreases native.model().pending_timeouts,
        {
            let mut checker = ErrorChecker::new();
            let ptr = native.pipeline_wait_for_frames(self.handle, timeout_ms, &mut checker);
            proof {
                assert(native.model().log.subrange(0, old(native).model().log.len() as int)
                    =~= old(native).model().log);
            }
            match (timeout, checker.check()) {
                (None, Err(Error::Timeout { .. })) => {
                    continue;
                },
                (_, Err(e)) => {
                    return Err(e);
                },
                (_, Ok(())) => {
                    return Ok(Frame { handle: ptr });
                },
            }
        }
    }

    /// Polls for the next frame without blocking: exactly one native poll
    /// call receives this pipeline's handle, and its report decides the
    /// result — `Ok(Some(frame))` wrapping the issued handle iff it reported
    /// a frame, `Ok(None)` iff it reported none without error, and the
    /// translated diagnostic iff it failed.
    pub fn try_wait<N: NativeLayer>(&mut self, native: &mut N) -> (r: Result<Option<Frame>, Error>)
        requires
            old(native).model().wf(),
            old(native).model().can_issue(1),
            old(self).wf(old(native).model()),
        ensures
            *final(self) == *old(self),
            final(native).model().wf(),
            match r {
                Ok(Some(f)) => old(native).model().allocated(
                    final(native).model(),
                    HandleKind::Frame,
                    f.handle,
                ) && old(native).model().logged(
                    final(native).model(),
                    (CallRecord::PollForFrames {
                        pipeline: old(self).handle,
                        outcome: (CallOutcome::Issued(f.handle)),
                    }),
                ),
                Ok(None) => old(native).model().untouched(final(native).model()) && old(native).model().logged(
                    final(native).model(),
                    (CallRecord::PollForFrames {
                        pipeline: old(self).handle,
                        outcome: (CallOutcome::NoFrame),
                    }),
                ),
                Err(e) => old(native).model().untouched(final(native).model()) && (final(native).model().log.last() matches CallRecord::PollForFrames {
                    pipeline: p,
                    outcome: CallOutcome::Reported(ne),
                } && p == old(self).handle && e == error_of(ne)) && final(native).model().log
                    == old(native).model().log.push(final(native).model().log.last()),
            },
    {
        let mut checker = ErrorChecker::new();
        let ret = native.pipeline_poll_for_frames(self.handle, &mut checker);
        match checker.check() {
            Err(err) => Err(err),
            Ok(()) => if ret.available {
                Ok(Some(Frame { handle: ret.frame }))
            } else {
                Ok(None)
            },
        }
    }

    /// Stops the pipeline, consuming the active pipeline: exactly one native
    /// stop call receives this pipeline's handle.  If it reports no error
    /// the profile and the owned configuration are destroyed and a fresh
    /// inactive pipeline owning the same pipeline and context handles is
    /// returned; on a failure report every owned handle is destroyed,
    /// exactly as if the value had been dropped, and the report, translated,
    /// is the error.
    pub fn stop<N: NativeLayer>(self, native: &mut N) -> (r: Result<InactivePipeline, Error>)
        requires
            old(native).model().wf(),
            self.wf(old(native).model()),
        ensures
            final(native).model().wf(),
            final(native).model().next == old(native).model().next,
            match r {
                Ok(p) => p.handle == self.handle && p.context == self.context && p.wf(
                    final(native).model(),
                ) && final(native).model().live == (match self.state.config {
                    Some(c) => old(native).model().live.remove(self.state.profile.handle).remove(
                        c.handle,
                    ),
                    None => old(native).model().live.remove(self.state.profile.handle),
                }) && final(native).model().reclaimed == (match self.state.config {
                    Some(c) => old(native).model().reclaimed.push(
                        self.state.profile.handle,
                    ).push(c.handle),
                    None => old(native).model().reclaimed.push(self.state.profile.handle),
                }) && final(native).model().log == (match self.state.config {
                    Some(c) => old(native).model().log.push(
                        (CallRecord::Stop {
                            pipeline: self.handle,
                            outcome: (CallOutcome::Passed),
                        }),
                    ).push(
                        (CallRecord::Destroy {
                            kind: HandleKind::Profile,
                            handle: self.state.profile.handle,
                        }),
                    ).push((CallRecord::Destroy { kind: HandleKind::Config, handle: c.handle })),
                    None => old(native).model().log.push(
                        (CallRecord::Stop {
                            pipeline: self.handle,
                            outcome: (CallOutcome::Passed),
                        }),
                    ).push(
                        (CallRecord::Destroy {
                            kind: HandleKind::Profile,
                            handle: self.state.profile.handle,
                        }),
                    ),
                }),
                Err(e) => final(native).model().live == (match self.state.config {
                    Some(c) => old(native).model().live.remove(c.handle),
                    None => old(native).model().live,
                }).remove(self.state.profile.handle).remove(self.handle).remove(
                    self.context.handle,
                ) && final(native).model().reclaimed == (match self.state.config {
                    Some(c) => old(native).model().reclaimed.push(c.handle),
                    None => old(native).model().reclaimed,
                }).push(self.state.profile.handle).push(self.handle).push(self.context.handle)
                    && (final(native).model().log[old(native).model().log.len() as int]
                        matches CallRecord::Stop {
                            pipeline: p2,
                            outcome: CallOutcome::Reported(ne),
                        } && p2 == self.handle && e == error_of(ne))
                    && final(native).model().log == (match self.state.config {
                        Some(c) => old(native).model().log.push(
                            final(native).model().log[old(native).model().log.len() as int],
                        ).push(
                            (CallRecord::Destroy {
                                kind: HandleKind::Config,
                                handle: c.handle,
                            }),
                        ),
                        None => old(native).model().log.push(
                            final(native).model().log[old(native).model().log.len() as int],
                        ),
                    }).push(
                        (CallRecord::Destroy {
                            kind: HandleKind::Profile,
                            handle: self.state.profile.handle,
                        }),
                    ).push(
                        (CallRecord::Destroy { kind: HandleKind::Pipeline, handle: self.handle }),
                    ).push(
                        (CallRecord::Destroy {
                            kind: HandleKind::Context,
                            handle: self.context.handle,
                        }),
                    ),
            },
    {
        let mut checker = ErrorChecker::new();
        native.pipeline_stop(self.handle, &mut checker);
        match checker.check() {
            Err(e) => {
                self.delete(native);
                Err(e)
            },
            Ok(()) => {
                let (pipeline_ptr, context_ptr, profile_ptr, config_ptr) = self.into_raw_parts();
                native.destroy(HandleKind::Profile, profile_ptr);
                match config_ptr {
                    Some(c) => native.destroy(HandleKind::Config, c),
                    None => {},
                }
                Ok(
                    Pipeline {
                        handle: pipeline_ptr,
                        context: Context::from_raw(context_ptr),
                        state: Inactive,
                    },
                )
            },
        }
    }

    /// Decomposes the pipeline into its raw pipeline, context and profile
    /// handles and the raw configuration handle when one is owned, disabling
    /// its teardown.
    pub fn into_raw_parts(self) -> (r: (u64, u64, u64, Option<u64>))
        ensures
            r.0 == self.handle,
            r.1 == self.context.handle,
            r.2 == self.state.profile.handle,
            r.3 == config_arg_of(self.state.config),
    {
        let Pipeline { handle, context, state: Active { profile, config } } = self;
        let config_ptr = match config {
            Some(c) => Some(c.into_raw()),
            None => None,
        };
        (handle, context.into_raw(), profile.handle, config_ptr)
    }

    /// Destroys every owned handle: the configuration when one is owned, the
    /// profile, the pipeline handle and the context, exactly as dropping the
    /// value would — one native destroy call for each.
    pub fn delete<N: NativeLayer>(self, native: &mut N)
        requires
            old(native).model().wf(),
            self.wf(old(native).model()),
        ensures
            final(native).model().wf(),
            final(native).model().live == (match self.state.config {
                Some(c) => old(native).model().live.remove(c.handle),
                None => old(native).model().live,
            }).remove(self.state.profile.handle).remove(self.handle).remove(self.context.handle),
            final(native).model().reclaimed == (match self.state.config {
                Some(c) => old(native).model().reclaimed.push(c.handle),
                None => old(native).model().reclaimed,
            }).push(self.state.profile.handle).push(self.handle).push(self.context.handle),
            final(native).model().next == old(native).model().next,
            final(native).model().log == (match self.state.config {
                Some(c) => old(native).model().log.push(
                    (CallRecord::Destroy { kind: HandleKind::Config, handle: c.handle }),
                ),
                None => old(native).model().log,
            }).push(
                (CallRecord::Destroy {
                    kind: HandleKind::Profile,
                    handle: self.state.profile.handle,
                }),
            ).push((CallRecord::Destroy { kind: HandleKind::Pipeline, handle: self.handle })).push(
                (CallRecord::Destroy { kind: HandleKind::Context, handle: self.context.handle }),
            ),
    {
        let Pipeline { handle, context, state: Active { profile, config } } = self;
        match config {
            Some(c) => c.delete(native),
            None => {},
        }
        native.destroy(HandleKind::Profile, profile.handle);
        native.destroy(HandleKind::Pipeline, handle);
        context.delete(native);
    }
}

} // verus!
