//! The native call surface the lifecycle manager consumes, together with the
//! ghost model its contracts are stated over.
//!
//! The native capture library is an opaque collaborator: the manager only
//! knows a fixed set of handle-returning constructors, handle-consuming
//! mutators, a frame-wait primitive and matched destroy calls, each fallible
//! call reporting through an error slot.  [`NativeLayer`] states that surface
//! as a trait whose contracts track which handles are live, so that every
//! caller proves it destroys each handle exactly once and never touches a
//! handle it does not own.

use vstd::prelude::*;
use crate::errors::{ErrorChecker, NativeError};
use crate::kinds::{Format, StreamKind};

verus! {

/// The kind of native resource a handle designates.
#[derive(Clone, Copy, PartialEq, Eq, Structural, Debug)]
pub enum HandleKind {
    /// A session handle: the root object the native library hands out.
    Context,
    /// A pipeline handle.
    Pipeline,
    /// A profile handle, produced by a successful pipeline start.
    Profile,
    /// A stream-configuration handle.
    Config,
    /// A frame handle, produced by a successful wait or poll.
    Frame,
}

/// What a native call reported back.
pub enum CallOutcome {
    /// The call succeeded and returned this fresh handle.
    Issued(u64),
    /// The call succeeded and returned nothing.
    Passed,
    /// A poll succeeded but reported that no frame is available.
    NoFrame,
    /// The call failed and left this diagnostic in the error slot.
    Reported(NativeError),
}

/// One native call as the model records it: which entry point ran, what it
/// was handed, and what it reported.
pub enum CallRecord {
    CreateContext { outcome: CallOutcome },
    CreatePipeline { context: u64, outcome: CallOutcome },
    CreateConfig { outcome: CallOutcome },
    EnableStream {
        config: u64,
        stream: StreamKind,
        index: usize,
        width: usize,
        height: usize,
        format: Format,
        framerate: usize,
        outcome: CallOutcome,
    },
    EnableDevice { config: u64, serial: Seq<char>, outcome: CallOutcome },
    EnableDeviceFromFile { config: u64, file: Seq<char>, outcome: CallOutcome },
    Start { pipeline: u64, config_handle: Option<u64>, outcome: CallOutcome },
    WaitForFrames { pipeline: u64, timeout_ms: u32, outcome: CallOutcome },
    PollForFrames { pipeline: u64, outcome: CallOutcome },
    Stop { pipeline: u64, outcome: CallOutcome },
    Destroy { kind: HandleKind, handle: u64 },
}

/// Ghost model of the native layer's handle table.
pub struct NativeModel {
    /// The handles currently alive, each with the kind it was issued as.
    pub live: Map<u64, HandleKind>,
    /// Every handle the layer ever issued, in order.
    pub issued: Seq<u64>,
    /// Every handle the layer destroyed, in order.
    pub reclaimed: Seq<u64>,
    /// The next handle value the layer will issue; handles are never reused,
    /// so every handle ever issued is strictly below it and nonzero.
    pub next: u64,
    /// Every native call made so far, destroys included, each with its
    /// arguments and its report.
    pub log: Seq<CallRecord>,
    /// An upper bound on how many further waits the layer may answer with a
    /// timeout report before producing a frame or a different failure; it lets
    /// a caller absorb timeout reports in a retry loop that provably ends.
    pub pending_timeouts: nat,
}

impl NativeModel {
    /// The handle table accounts for every handle exactly once: issued
    /// handles are nonzero, below the allocation cursor and never repeated;
    /// each of them is either still alive or was destroyed, and never both;
    /// and no handle is destroyed twice.
    pub open spec fn wf(self) -> bool {
        1 <= self.next && (forall|h: u64| self.live.contains_key(h) ==> 0 < h < self.next) && (
        forall|i: int| 0 <= i < self.issued.len() ==> 0 < #[trigger] self.issued[i] < self.next)
            && self.issued.no_duplicates() && self.reclaimed.no_duplicates() && (forall|h: u64|
            #[trigger] self.live.contains_key(h) ==> self.issued.contains(h)) && (forall|h: u64|
            #[trigger] self.reclaimed.contains(h) ==> self.issued.contains(h)) && (forall|h: u64|
            #[trigger] self.issued.contains(h) ==> self.live.contains_key(h)
                || self.reclaimed.contains(h)) && (forall|h: u64| !(#[trigger] self.live.contains_key(
            h,
        ) && self.reclaimed.contains(h)))
    }

    /// `h` is a live handle of kind `kind`.
    pub open spec fn holds(self, h: u64, kind: HandleKind) -> bool {
        self.live.contains_pair(h, kind)
    }

    /// Room to issue `n` more handles.
    pub open spec fn can_issue(self, n: int) -> bool {
        self.next + n <= u64::MAX
    }

    /// One fresh handle of kind `kind` was issued and nothing was destroyed.
    pub open spec fn allocated(self, post: NativeModel, kind: HandleKind, h: u64) -> bool {
        h == self.next && post.live == self.live.insert(h, kind) && post.issued
            == self.issued.push(h) && post.reclaimed == self.reclaimed && post.next == self.next
            + 1
    }

    /// The handle table is exactly as before.
    pub open spec fn untouched(self, post: NativeModel) -> bool {
        post.live == self.live && post.issued == self.issued && post.reclaimed == self.reclaimed
            && post.next == self.next
    }

    /// `h` was destroyed and nothing else changed.
    pub open spec fn destroyed(self, post: NativeModel, h: u64) -> bool {
        post.live == self.live.remove(h) && post.issued == self.issued && post.reclaimed
            == self.reclaimed.push(h) && post.next == self.next
    }

    /// The call log grew by exactly this one record.
    pub open spec fn logged(self, post: NativeModel, rec: CallRecord) -> bool {
        post.log == self.log.push(rec)
    }
}

/// A model with the same handle table and cursor as a well-formed one is
/// well-formed.
pub proof fn lemma_wf_same_handles(pre: NativeModel, post: NativeModel)
    requires
        pre.wf(),
        post.live == pre.live,
        post.issued == pre.issued,
        post.reclaimed == pre.reclaimed,
        post.next == pre.next,
    ensures
        post.wf(),
{
    assert forall|h: u64| post.live.contains_key(h) implies 0 < h < post.next by {
        assert(pre.live.contains_key(h));
    }
    assert forall|i: int| 0 <= i < post.issued.len() implies 0 < #[trigger] post.issued[i]
        < post.next by {
        assert(0 < pre.issued[i] < pre.next);
    }
    assert forall|h: u64| post.live.contains_key(h) implies post.issued.contains(h) by {
        assert(pre.live.contains_key(h));
    }
    assert forall|h: u64| post.reclaimed.contains(h) implies post.issued.contains(h) by {
        assert(pre.reclaimed.contains(h));
    }
    assert forall|h: u64| post.issued.contains(h) implies post.live.contains_key(h)
        || post.reclaimed.contains(h) by {
        assert(pre.issued.contains(h));
    }
    assert forall|h: u64| post.live.contains_key(h) implies !post.reclaimed.contains(h) by {
        assert(pre.live.contains_key(h));
    }
}

/// Issuing the cursor handle keeps the model well-formed.
pub proof fn lemma_wf_after_issue(pre: NativeModel, post: NativeModel, kind: HandleKind, h: u64)
    requires
        pre.wf(),
        pre.can_issue(1),
        pre.allocated(post, kind, h),
    ensures
        post.wf(),
{
    broadcast use vstd::seq_lib::lemma_seq_contains_after_push;

    assert(!pre.issued.contains(h)) by {
        if pre.issued.contains(h) {
            let i = choose|i: int| 0 <= i < pre.issued.len() && pre.issued[i] == h;
            assert(0 < pre.issued[i] < pre.next);
        }
    }
    assert forall|x: u64| post.live.contains_key(x) implies 0 < x < post.next by {
        if x != h {
            assert(pre.live.contains_key(x));
        }
    }
    assert forall|i: int| 0 <= i < post.issued.len() implies 0 < #[trigger] post.issued[i]
        < post.next by {
        if i < pre.issued.len() {
            assert(post.issued[i] == pre.issued[i]);
            assert(0 < pre.issued[i] < pre.next);
        } else {
            assert(post.issued[i] == h);
        }
    }
    assert forall|i: int, j: int| #![trigger post.issued[i], post.issued[j]]
        0 <= i < post.issued.len() && 0 <= j < post.issued.len() && i != j implies post.issued[i]
        != post.issued[j] by {
        if i < pre.issued.len() && j < pre.issued.len() {
            assert(pre.issued[i] != pre.issued[j]);
        } else if i < pre.issued.len() {
            assert(post.issued[j] == h);
            assert(0 < pre.issued[i] < pre.next);
        } else {
            assert(post.issued[i] == h);
            assert(0 < pre.issued[j] < pre.next);
        }
    }
    assert(post.issued.no_duplicates());
    assert forall|x: u64| post.live.contains_key(x) implies post.issued.contains(x) by {
        if x == h {
            assert(pre.issued.push(h).contains(h));
        } else {
            assert(pre.live.contains_key(x));
            assert(pre.issued.contains(x));
            assert(pre.issued.push(h).contains(x));
        }
    }
    assert forall|x: u64| post.reclaimed.contains(x) implies post.issued.contains(x) by {
        assert(pre.reclaimed.contains(x));
        assert(pre.issued.push(h).contains(x));
    }
    assert forall|x: u64| post.issued.contains(x) implies post.live.contains_key(x)
        || post.reclaimed.contains(x) by {
        assert(pre.issued.push(h).contains(x));
        if x == h {
            assert(post.live.contains_key(h));
        } else {
            assert(pre.issued.contains(x));
        }
    }
    assert forall|x: u64| post.live.contains_key(x) implies !post.reclaimed.contains(x) by {
        if x == h {
            if pre.reclaimed.contains(x) {
                assert(pre.issued.contains(x));
            }
        } else {
            assert(pre.live.contains_key(x));
        }
    }
}

/// Destroying a live handle keeps the model well-formed.
pub proof fn lemma_wf_after_destroy(pre: NativeModel, post: NativeModel, h: u64)
    requires
        pre.wf(),
        pre.live.contains_key(h),
        pre.destroyed(post, h),
    ensures
        post.wf(),
{
    broadcast use vstd::seq_lib::lemma_seq_contains_after_push;

    assert(!pre.reclaimed.contains(h));
    assert forall|x: u64| post.live.contains_key(x) implies 0 < x < post.next by {
        assert(pre.live.contains_key(x));
    }
    assert forall|i: int| 0 <= i < post.issued.len() implies 0 < #[trigger] post.issued[i]
        < post.next by {
        assert(0 < pre.issued[i] < pre.next);
    }
    assert forall|i: int, j: int| #![trigger post.reclaimed[i], post.reclaimed[j]]
        0 <= i < post.reclaimed.len() && 0 <= j < post.reclaimed.len() && i != j
        implies post.reclaimed[i] != post.reclaimed[j] by {
        if i < pre.reclaimed.len() && j < pre.reclaimed.len() {
            assert(pre.reclaimed[i] != pre.reclaimed[j]);
        } else if i < pre.reclaimed.len() {
            assert(post.reclaimed[j] == h);
            if pre.reclaimed[i] == h {
                assert(pre.reclaimed.contains(h));
            }
        } else {
            assert(post.reclaimed[i] == h);
            if pre.reclaimed[j] == h {
                assert(pre.reclaimed.contains(h));
            }
        }
    }
    assert(post.reclaimed.no_duplicates());
    assert forall|x: u64| post.live.contains_key(x) implies post.issued.contains(x) by {
        assert(pre.live.contains_key(x));
        assert(pre.issued.contains(x));
    }
    assert forall|x: u64| post.reclaimed.contains(x) implies post.issued.contains(x) by {
        assert(pre.reclaimed.push(h).contains(x));
        if x == h {
            assert(pre.live.contains_key(h));
            assert(pre.issued.contains(h));
        } else {
            assert(pre.reclaimed.contains(x));
        }
    }
    assert forall|x: u64| post.issued.contains(x) implies post.live.contains_key(x)
        || post.reclaimed.contains(x) by {
        assert(pre.issued.contains(x));
        if x == h {
            assert(pre.reclaimed.push(h).contains(h));
        } else {
            if pre.reclaimed.contains(x) {
                assert(pre.reclaimed.push(h).contains(x));
            }
        }
    }
    assert forall|x: u64| post.live.contains_key(x) implies !post.reclaimed.contains(x) by {
        assert(pre.live.contains_key(x));
        assert(x != h);
        if post.reclaimed.contains(x) {
            assert(pre.reclaimed.push(h).contains(x));
            assert(pre.reclaimed.contains(x));
        }
    }
}

/// Exactly-once destruction, read off a well-formed model: no handle is ever
/// destroyed twice, every handle ever issued is either still live or was
/// destroyed, and never both at once.  Every native call's contract keeps the
/// model well-formed, so this holds after any sequence of valid transitions.
pub proof fn lemma_exactly_once_destruction(m: NativeModel)
    requires
        m.wf(),
    ensures
        m.reclaimed.no_duplicates(),
        forall|h: u64| #[trigger] m.issued.contains(h) ==> m.live.contains_key(h)
            || m.reclaimed.contains(h),
        forall|h: u64| !(#[trigger] m.live.contains_key(h) && m.reclaimed.contains(h)),
{
}

/// Exactly-once destruction, stated over the model: a handle issued by one
/// call and destroyed by a later one leaves the handle table exactly as it
/// stood, and is live no longer — so no further destroy of it can satisfy
/// `destroy`'s precondition, and no owner of it remains to be torn down.
pub proof fn lemma_issue_then_destroy(
    m0: NativeModel,
    m1: NativeModel,
    m2: NativeModel,
    kind: HandleKind,
    h: u64,
)
    requires
        m0.wf(),
        m0.allocated(m1, kind, h),
        m1.destroyed(m2, h),
    ensures
        m2.live == m0.live,
        !m2.live.contains_key(h),
        m2.next == m1.next,
{
    assert(m2.live =~= m0.live);
}

/// What a poll for frames reports: whether a frame was available, and its
/// handle if one was.
#[derive(Clone, Copy, PartialEq, Eq, Structural, Debug)]
pub struct PollReturn {
    pub available: bool,
    pub frame: u64,
}

/// The fixed native call surface.
///
/// Every fallible call takes the address of an error slot as its final
/// parameter and fills it on failure; whether a given call succeeds is the
/// layer's own choice, so each contract states what holds of the handle table
/// for every outcome.  Destroys take no slot and cannot fail.
pub trait NativeLayer: Sized {
    /// Ghost model of this layer's handle table.
    spec fn model(&self) -> NativeModel;

    /// Constructs a session handle.
    fn create_context(&mut self, checker: &mut ErrorChecker) -> (r: u64)
        requires
            old(self).model().wf(),
            old(self).model().can_issue(1),
            old(checker).slot is None,
        ensures
            final(self).model().wf(),
            match final(checker).slot {
                None => old(self).model().allocated(final(self).model(), HandleKind::Context, r)
                    && old(self).model().logged(
                    final(self).model(),
                    (CallRecord::CreateContext { outcome: (CallOutcome::Issued(r)) }),
                ),
                Some(e) => old(self).model().untouched(final(self).model()) && old(self).model().logged(
                    final(self).model(),
                    (CallRecord::CreateContext { outcome: (CallOutcome::Reported(e)) }),
                ),
            },
    ;

    /// Constructs a pipeline handle bound to a live session.
    fn create_pipeline(&mut self, context: u64, checker: &mut ErrorChecker) -> (r: u64)
        requires
            old(self).model().wf(),
            old(self).model().can_issue(1),
            old(self).model().holds(context, HandleKind::Context),
            old(checker).slot is None,
        ensures
            final(self).model().wf(),
            match final(checker).slot {
                None => old(self).model().allocated(final(self).model(), HandleKind::Pipeline, r)
                    && old(self).model().logged(
                    final(self).model(),
                    (CallRecord::CreatePipeline { context, outcome: (CallOutcome::Issued(r)) }),
                ),
                Some(e) => old(self).model().untouched(final(self).model()) && old(self).model().logged(
                    final(self).model(),
                    (CallRecord::CreatePipeline { context, outcome: (CallOutcome::Reported(e)) }),
                ),
            },
    ;

    /// Constructs a stream-configuration handle.
    fn create_config(&mut self, checker: &mut ErrorChecker) -> (r: u64)
        requires
            old(self).model().wf(),
            old(self).model().can_issue(1),
            old(checker).slot is None,
        ensures
            final(self).model().wf(),
            match final(checker).slot {
                None => old(self).model().allocated(final(self).model(), HandleKind::Config, r)
                    && old(self).model().logged(
                    final(self).model(),
                    (CallRecord::CreateConfig { outcome: (CallOutcome::Issued(r)) }),
                ),
                Some(e) => old(self).model().untouched(final(self).model()) && old(self).model().logged(
                    final(self).model(),
                    (CallRecord::CreateConfig { outcome: (CallOutcome::Reported(e)) }),
                ),
            },
    ;

    /// Asks a live configuration to enable one stream; mutates the
    /// configuration in place, so the handle table is unchanged either way.
    fn config_enable_stream(
        &mut self,
        config: u64,
        stream: StreamKind,
        index: usize,
        width: usize,
        height: usize,
        format: Format,
        framerate: usize,
        checker: &mut ErrorChecker,
    )
        requires
            old(self).model().wf(),
            old(self).model().holds(config, HandleKind::Config),
            old(checker).slot is None,
        ensures
            final(self).model().wf(),
            old(self).model().untouched(final(self).model()),
            old(self).model().logged(
                final(self).model(),
                (CallRecord::EnableStream {
                    config,
                    stream,
                    index,
                    width,
                    height,
                    format,
                    framerate,
                    outcome: (match final(checker).slot {
                        None => CallOutcome::Passed,
                        Some(e) => CallOutcome::Reported(e),
                    }),
                }),
            ),
    ;

    /// Restricts a live configuration to the device with the given serial.
    fn config_enable_device(&mut self, config: u64, serial: &str, checker: &mut ErrorChecker)
        requires
            old(self).model().wf(),
            old(self).model().holds(config, HandleKind::Config),
            old(checker).slot is None,
        ensures
            final(self).model().wf(),
            old(self).model().untouched(final(self).model()),
            old(self).model().logged(
                final(self).model(),
                (CallRecord::EnableDevice {
                    config,
                    serial: serial@,
                    outcome: (match final(checker).slot {
                        None => CallOutcome::Passed,
                        Some(e) => CallOutcome::Reported(e),
                    }),
                }),
            ),
    ;

    /// Restricts a live configuration to a device replayed from a file.
    fn config_enable_device_from_file(
        &mut self,
        config: u64,
        file: &str,
        checker: &mut ErrorChecker,
    )
        requires
            old(self).model().wf(),
            old(self).model().holds(config, HandleKind::Config),
            old(checker).slot is None,
        ensures
            final(self).model().wf(),
            old(self).model().untouched(final(self).model()),
            old(self).model().logged(
                final(self).model(),
                (CallRecord::EnableDeviceFromFile {
                    config,
                    file: file@,
                    outcome: (match final(checker).slot {
                        None => CallOutcome::Passed,
                        Some(e) => CallOutcome::Reported(e),
                    }),
                }),
            ),
    ;

    /// Starts a live pipeline, with an optional live configuration; a success
    /// issues the profile handle describing the negotiated streams.
    fn pipeline_start(
        &mut self,
        pipeline: u64,
        config: Option<u64>,
        checker: &mut ErrorChecker,
    ) -> (r: u64)
        requires
            old(self).model().wf(),
            old(self).model().can_issue(1),
            old(self).model().holds(pipeline, HandleKind::Pipeline),
            config matches Some(c) ==> old(self).model().holds(c, HandleKind::Config),
            old(checker).slot is None,
        ensures
            final(self).model().wf(),
            match final(checker).slot {
                None => old(self).model().allocated(final(self).model(), HandleKind::Profile, r)
                    && old(self).model().logged(
                    final(self).model(),
                    (CallRecord::Start { pipeline, config_handle: config, outcome: (CallOutcome::Issued(r)) }),
                ),
                Some(e) => old(self).model().untouched(final(self).model()) && old(self).model().logged(
                    final(self).model(),
                    (CallRecord::Start { pipeline, config_handle: config, outcome: (CallOutcome::Reported(e)) }),
                ),
            },
    ;

    /// Blocks until a started pipeline produces a frame or the bound expires;
    /// a success issues the frame handle.  A timeout report strictly consumes
    /// the layer's timeout budget, so a retry loop over this call ends.
    fn pipeline_wait_for_frames(
        &mut self,
        pipeline: u64,
        timeout_ms: u32,
        checker: &mut ErrorChecker,
    ) -> (r: u64)
        requires
            old(self).model().wf(),
            old(self).model().can_issue(1),
            old(self).model().holds(pipeline, HandleKind::Pipeline),
            old(checker).slot is None,
        ensures
            final(self).model().wf(),
            match final(checker).slot {
                None => old(self).model().allocated(final(self).model(), HandleKind::Frame, r)
                    && old(self).model().logged(
                    final(self).model(),
                    (CallRecord::WaitForFrames {
                        pipeline,
                        timeout_ms,
                        outcome: (CallOutcome::Issued(r)),
                    }),
                ),
                Some(e) => old(self).model().untouched(final(self).model()) && old(self).model().logged(
                    final(self).model(),
                    (CallRecord::WaitForFrames {
                        pipeline,
                        timeout_ms,
                        outcome: (CallOutcome::Reported(e)),
                    }),
                ),
            },
            (final(checker).slot matches Some(e) && e.kind is Timeout)
                ==> final(self).model().pending_timeouts
                < old(self).model().pending_timeouts,
    ;

    /// Polls a started pipeline: reports whether a frame is immediately
    /// available, issuing its handle when one is.
    fn pipeline_poll_for_frames(&mut self, pipeline: u64, checker: &mut ErrorChecker) -> (r:
        PollReturn)
        requires
            old(self).model().wf(),
            old(self).model().can_issue(1),
            old(self).model().holds(pipeline, HandleKind::Pipeline),
            old(checker).slot is None,
        ensures
            final(self).model().wf(),
            match final(checker).slot {
                None => if r.available {
                    old(self).model().allocated(final(self).model(), HandleKind::Frame, r.frame)
                        && old(self).model().logged(
                        final(self).model(),
                        (CallRecord::PollForFrames {
                            pipeline,
                            outcome: (CallOutcome::Issued(r.frame)),
                        }),
                    )
                } else {
                    old(self).model().untouched(final(self).model()) && old(self).model().logged(
                        final(self).model(),
                        (CallRecord::PollForFrames { pipeline, outcome: (CallOutcome::NoFrame) }),
                    )
                },
                Some(e) => old(self).model().untouched(final(self).model()) && old(self).model().logged(
                    final(self).model(),
                    (CallRecord::PollForFrames { pipeline, outcome: (CallOutcome::Reported(e)) }),
                ),
            },
    ;

    /// Stops a live pipeline; destroys nothing either way.
    fn pipeline_stop(&mut self, pipeline: u64, checker: &mut ErrorChecker)
        requires
            old(self).model().wf(),
            old(self).model().holds(pipeline, HandleKind::Pipeline),
            old(checker).slot is None,
        ensures
            final(self).model().wf(),
            old(self).model().untouched(final(self).model()),
            old(self).model().logged(
                final(self).model(),
                (CallRecord::Stop {
                    pipeline,
                    outcome: (match final(checker).slot {
                        None => CallOutcome::Passed,
                        Some(e) => CallOutcome::Reported(e),
                    }),
                }),
            ),
    ;

    /// Destroys a live handle of the given kind.  The precondition demands
    /// liveness, so a handle can be destroyed at most once over its lifetime.
    fn destroy(&mut self, kind: HandleKind, h: u64)
        requires
            old(self).model().wf(),
            old(self).model().holds(h, kind),
        ensures
            final(self).model().wf(),
            old(self).model().destroyed(final(self).model(), h),
            old(self).model().logged(final(self).model(), (CallRecord::Destroy { kind, handle: h })),
    ;
}

} // verus!
