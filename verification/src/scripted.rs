//! A scripted, fully verified native layer: the test double the lifecycle
//! manager is exercised against.
//!
//! The double answers each fallible native call with the next step of a
//! caller-supplied script — success, "no frame", or a failure of a chosen
//! kind — and issues handles from a counter, so a given script makes every
//! run deterministic.  It also keeps plain logs of every handle it issued and
//! destroyed, the observable record a test compares against.

use vstd::prelude::*;
use crate::errors::{ErrorChecker, ErrorKind, NativeError};
use crate::kinds::{Format, StreamKind};
use crate::native::{CallOutcome, CallRecord, HandleKind, NativeLayer, NativeModel, PollReturn};

verus! {

/// One planned answer to a fallible native call.
#[derive(Clone, Copy, PartialEq, Eq, Structural, Debug)]
pub enum ScriptStep {
    /// The call succeeds; a poll reports a frame.
    Succeed,
    /// A poll reports that no frame is available; any other call succeeds.
    NoFrame,
    /// The call fails with a diagnostic of this kind.
    Fail(ErrorKind),
}

/// The scripted native layer.  Fallible calls consume the script front to
/// back and succeed once it is exhausted; destroys cannot fail and consume
/// nothing.
pub struct ScriptedNative {
    script: Vec<ScriptStep>,
    pos: usize,
    next_handle: u64,
    created: Vec<u64>,
    destroyed: Vec<u64>,
    live_g: Ghost<Map<u64, HandleKind>>,
    log_g: Ghost<Seq<CallRecord>>,
}

impl ScriptedNative {
    /// A fresh layer that will answer with the given script.
    pub fn new(script: Vec<ScriptStep>) -> (r: ScriptedNative)
        ensures
            r.model().wf(),
            r.model().live == Map::<u64, HandleKind>::empty(),
            r.model().next == 1,
            r.model().log == Seq::<CallRecord>::empty(),
            r.model().pending_timeouts == script@.len(),
            r.model().issued == Seq::<u64>::empty(),
            r.model().reclaimed == Seq::<u64>::empty(),
    {
        ScriptedNative {
            script,
            pos: 0,
            next_handle: 1,
            created: Vec::new(),
            destroyed: Vec::new(),
            live_g: Ghost(Map::empty()),
            log_g: Ghost(Seq::empty()),
        }
    }

    /// The log of issued handles, in order: the model's issue record, made
    /// observable so a test can count what the verified contracts account for.
    pub fn created_log(&self) -> (r: &Vec<u64>)
        ensures
            r@ == self.model().issued,
    {
        &self.created
    }

    /// The log of destroyed handles, in order: the model's destroy record,
    /// made observable in the same way.
    pub fn destroyed_log(&self) -> (r: &Vec<u64>)
        ensures
            r@ == self.model().reclaimed,
    {
        &self.destroyed
    }

    /// How many script steps have been consumed: exactly the number of
    /// fallible calls answered while the script still had steps left.
    pub fn steps_taken(&self) -> (r: usize)
        ensures
            r == self.steps_view(),
            self.model().pending_timeouts == if self.steps_view() <= self.script_len() {
                self.script_len() - self.steps_view()
            } else {
                0
            },
    {
        self.pos
    }

    /// The position of the script cursor.
    pub closed spec fn steps_view(&self) -> nat {
        self.pos as nat
    }

    /// The length of the script this layer was built with.
    pub closed spec fn script_len(&self) -> nat {
        self.script@.len()
    }

    /// Takes the next scripted answer, or success once the script is spent.
    fn take_step(&mut self) -> (s: ScriptStep)
        ensures
            final(self).script@ == old(self).script@,
            final(self).next_handle == old(self).next_handle,
            final(self).created@ == old(self).created@,
            final(self).destroyed@ == old(self).destroyed@,
            final(self).live_g@ == old(self).live_g@,
            final(self).log_g@ == old(self).log_g@,
            final(self).model().pending_timeouts <= old(self).model().pending_timeouts,
            s is Fail
                ==> final(self).model().pending_timeouts
                < old(self).model().pending_timeouts,
    {
        if self.pos < self.script.len() {
            let s = self.script[self.pos];
            self.pos = self.pos + 1;
            s
        } else {
            ScriptStep::Succeed
        }
    }

    /// The diagnostic text every scripted failure carries.
    fn fail_text() -> (r: String) {
        String::from_str("scripted native failure")
    }

    /// Answers one fallible, handle-issuing call: fails when the script says
    /// so, otherwise issues a fresh handle of the given kind.  The call is
    /// logged as `rec` applied to what the slot reports.
    fn scripted_create(
        &mut self,
        kind: HandleKind,
        rec: Ghost<spec_fn(CallOutcome) -> CallRecord>,
        checker: &mut ErrorChecker,
    ) -> (r: u64)
        requires
            old(self).model().wf(),
            old(self).model().can_issue(1),
            old(checker).slot is None,
        ensures
            final(self).model().wf(),
            match final(checker).slot {
                None => old(self).model().allocated(final(self).model(), kind, r) && old(self).model().logged(final(self).model(), rec@(CallOutcome::Issued(r))),
                Some(e) => old(self).model().untouched(final(self).model()) && old(self).model().logged(final(self).model(), rec@(CallOutcome::Reported(e))),
            },
            (final(checker).slot matches Some(e) && e.kind is Timeout)
                ==> final(self).model().pending_timeouts
                < old(self).model().pending_timeouts,
    {
        let step = self.take_step();
        match step {
            ScriptStep::Fail(k) => {
                let ne = NativeError { kind: k, message: Self::fail_text() };
                let ghost gne = ne;
                checker.slot = Some(ne);
                self.log_g = Ghost(self.log_g@.push(rec@(CallOutcome::Reported(gne))));
                proof {
                    crate::native::lemma_wf_same_handles(old(self).model(), self.model());
                }
                0
            },
            _ => {
                let h = self.next_handle;
                self.next_handle = h + 1;
                self.live_g = Ghost(self.live_g@.insert(h, kind));
                self.created.push(h);
                self.log_g = Ghost(self.log_g@.push(rec@(CallOutcome::Issued(h))));
                proof {
                    crate::native::lemma_wf_after_issue(
                        old(self).model(),
                        self.model(),
                        kind,
                        h,
                    );
                }
                h
            },
        }
    }

    /// Answers one fallible call that issues nothing either way, logged as
    /// `rec` applied to what the slot reports.
    fn scripted_unit_call(
        &mut self,
        rec: Ghost<spec_fn(CallOutcome) -> CallRecord>,
        checker: &mut ErrorChecker,
    )
        requires
            old(self).model().wf(),
            old(checker).slot is None,
        ensures
            final(self).model().wf(),
            old(self).model().untouched(final(self).model()),
            match final(checker).slot {
                None => old(self).model().logged(final(self).model(), rec@(CallOutcome::Passed)),
                Some(e) => old(self).model().logged(
                    final(self).model(),
                    rec@(CallOutcome::Reported(e)),
                ),
            },
    {
        let step = self.take_step();
        match step {
            ScriptStep::Fail(k) => {
                let ne = NativeError { kind: k, message: Self::fail_text() };
                let ghost gne = ne;
                checker.slot = Some(ne);
                self.log_g = Ghost(self.log_g@.push(rec@(CallOutcome::Reported(gne))));
            },
            _ => {
                self.log_g = Ghost(self.log_g@.push(rec@(CallOutcome::Passed)));
            },
        }
        proof {
            crate::native::lemma_wf_same_handles(old(self).model(), self.model());
        }
    }
}

impl NativeLayer for ScriptedNative {
    closed spec fn model(&self) -> NativeModel {
        NativeModel {
            live: self.live_g@,
            issued: self.created@,
            reclaimed: self.destroyed@,
            next: self.next_handle,
            log: self.log_g@,
            pending_timeouts: if self.pos <= self.script@.len() {
                (self.script@.len() - self.pos) as nat
            } else {
                0nat
            },
        }
    }

    fn create_context(&mut self, checker: &mut ErrorChecker) -> (r: u64) {
        self.scripted_create(
            HandleKind::Context,
            Ghost(|o: CallOutcome| CallRecord::CreateContext { outcome: o }),
            checker,
        )
    }

    fn create_pipeline(&mut self, context: u64, checker: &mut ErrorChecker) -> (r: u64) {
        self.scripted_create(
            HandleKind::Pipeline,
            Ghost(|o: CallOutcome| CallRecord::CreatePipeline { context, outcome: o }),
            checker,
        )
    }

    fn create_config(&mut self, checker: &mut ErrorChecker) -> (r: u64) {
        self.scripted_create(
            HandleKind::Config,
            Ghost(|o: CallOutcome| CallRecord::CreateConfig { outcome: o }),
            checker,
        )
    }

    fn config_enable_stream(
        &mut self,
        config: u64,
        stream: StreamKind,
        index: usize,
        width: usize,
        height: usize,
        format: Format,
        framerate: usize,
        checker: &mut ErrorChecker,
    ) {
        self.scripted_unit_call(
            Ghost(
                |o: CallOutcome| CallRecord::EnableStream {
                    config,
                    stream,
                    index,
                    width,
                    height,
                    format,
                    framerate,
                    outcome: o,
                },
            ),
            checker,
        )
    }

    fn config_enable_device(&mut self, config: u64, serial: &str, checker: &mut ErrorChecker) {
        self.scripted_unit_call(
            Ghost(
                |o: CallOutcome| CallRecord::EnableDevice { config, serial: serial@, outcome: o },
            ),
            checker,
        )
    }

    fn config_enable_device_from_file(
        &mut self,
        config: u64,
        file: &str,
        checker: &mut ErrorChecker,
    ) {
        self.scripted_unit_call(
            Ghost(
                |o: CallOutcome| CallRecord::EnableDeviceFromFile {
                    config,
                    file: file@,
                    outcome: o,
                },
            ),
            checker,
        )
    }

    fn pipeline_start(
        &mut self,
        pipeline: u64,
        config: Option<u64>,
        checker: &mut ErrorChecker,
    ) -> (r: u64) {
        self.scripted_create(
            HandleKind::Profile,
            Ghost(|o: CallOutcome| CallRecord::Start { pipeline, config_handle: config, outcome: o }),
            checker,
        )
    }

    fn pipeline_wait_for_frames(
        &mut self,
        pipeline: u64,
        timeout_ms: u32,
        checker: &mut ErrorChecker,
    ) -> (r: u64) {
        self.scripted_create(
            HandleKind::Frame,
            Ghost(|o: CallOutcome| CallRecord::WaitForFrames { pipeline, timeout_ms, outcome: o }),
            checker,
        )
    }

    fn pipeline_poll_for_frames(&mut self, pipeline: u64, checker: &mut ErrorChecker) -> (r:
        PollReturn) {
        let step = self.take_step();
        match step {
            ScriptStep::Fail(k) => {
                let ne = NativeError { kind: k, message: Self::fail_text() };
                let ghost gne = ne;
                checker.slot = Some(ne);
                self.log_g = Ghost(
                    self.log_g@.push(
                        CallRecord::PollForFrames {
                            pipeline,
                            outcome: CallOutcome::Reported(gne),
                        },
                    ),
                );
                proof {
                    crate::native::lemma_wf_same_handles(old(self).model(), self.model());
                }
                PollReturn { available: false, frame: 0 }
            },
            ScriptStep::NoFrame => {
                self.log_g = Ghost(
                    self.log_g@.push(
                        CallRecord::PollForFrames { pipeline, outcome: CallOutcome::NoFrame },
                    ),
                );
                proof {
                    crate::native::lemma_wf_same_handles(old(self).model(), self.model());
                }
                PollReturn { available: false, frame: 0 }
            },
            ScriptStep::Succeed => {
                let h = self.next_handle;
                self.next_handle = h + 1;
                self.live_g = Ghost(self.live_g@.insert(h, HandleKind::Frame));
                self.created.push(h);
                self.log_g = Ghost(
                    self.log_g@.push(
                        CallRecord::PollForFrames { pipeline, outcome: CallOutcome::Issued(h) },
                    ),
                );
                proof {
                    crate::native::lemma_wf_after_issue(
                        old(self).model(),
                        self.model(),
                        HandleKind::Frame,
                        h,
                    );
                }
                PollReturn { available: true, frame: h }
            },
        }
    }

    fn pipeline_stop(&mut self, pipeline: u64, checker: &mut ErrorChecker) {
        self.scripted_unit_call(
            Ghost(|o: CallOutcome| CallRecord::Stop { pipeline, outcome: o }),
            checker,
        )
    }

    fn destroy(&mut self, kind: HandleKind, h: u64) {
        self.live_g = Ghost(self.live_g@.remove(h));
        self.destroyed.push(h);
        self.log_g = Ghost(self.log_g@.push(CallRecord::Destroy { kind, handle: h }));
        proof {
            assert(old(self).model().live.contains_key(h));
            crate::native::lemma_wf_after_destroy(old(self).model(), self.model(), h);
        }
    }
}

} // verus!
