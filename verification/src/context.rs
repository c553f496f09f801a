//! The context: owner of one native session handle, the root of the native
//! call graph.

use vstd::prelude::*;
use crate::errors::{error_of, Error, ErrorChecker};
use crate::native::{CallOutcome, CallRecord, HandleKind, NativeLayer, NativeModel};

verus! {

/// Owns exactly one native session handle.
pub struct Context {
    pub handle: u64,
}

impl Context {
    /// The owned handle is alive with the right kind.
    pub open spec fn wf(&self, m: NativeModel) -> bool {
        m.holds(self.handle, HandleKind::Context)
    }

    /// Builds a fresh session: one native construction call, whose report
    /// decides the result — the issued handle on success, the translated
    /// diagnostic on failure.
    pub fn new<N: NativeLayer>(native: &mut N) -> (r: Result<Context, Error>)
        requires
            old(native).model().wf(),
            old(native).model().can_issue(1),
        ensures
            final(native).model().wf(),
            match r {
                Ok(c) => old(native).model().allocated(
                    final(native).model(),
                    HandleKind::Context,
                    c.handle,
                ) && old(native).model().logged(
                    final(native).model(),
                    (CallRecord::CreateContext { outcome: (CallOutcome::Issued(c.handle)) }),
                ),
                Err(e) => old(native).model().untouched(final(native).model()) && (final(native).model().log.last() matches CallRecord::CreateContext {
                    outcome: CallOutcome::Reported(ne),
                } && e == error_of(ne)) && final(native).model().log == old(native).model().log.push(final(native).model().log.last()),
            },
    {
        let mut checker = ErrorChecker::new();
        let ptr = native.create_context(&mut checker);
        checker.check()?;
        Ok(Context { handle: ptr })
    }

    /// Hands the raw session handle to the caller as a transfer of ownership;
    /// no destructor will run for this value.
    pub fn into_raw(self) -> (r: u64)
        ensures
            r == self.handle,
    {
        self.handle
    }

    /// Re-wraps a raw session handle as an owned value.  The handle must be
    /// valid and uniquely owned; this is the caller's obligation and is not
    /// re-validated here.
    pub fn from_raw(handle: u64) -> (r: Context)
        ensures
            r.handle == handle,
    {
        Context { handle }
    }

    /// Destroys the owned session handle with one native destroy call.
    pub fn delete<N: NativeLayer>(self, native: &mut N)
        requires
            old(native).model().wf(),
            self.wf(old(native).model()),
        ensures
            final(native).model().wf(),
            old(native).model().destroyed(final(native).model(), self.handle),
            old(native).model().logged(
                final(native).model(),
                (CallRecord::Destroy { kind: HandleKind::Context, handle: self.handle }),
            ),
    {
        native.destroy(HandleKind::Context, self.handle);
    }
}

} // verus!
