//! The stream configuration: a fluent, single-owner builder around one native
//! configuration handle, consumed by pipeline start.

use vstd::prelude::*;
use crate::errors::{error_of, Error, ErrorChecker};
use crate::kinds::{Format, StreamKind};
use crate::native::{CallOutcome, CallRecord, HandleKind, NativeLayer, NativeModel};

verus! {

/// Owns exactly one native configuration handle.  Each enabling call consumes
/// `self` and returns a new owner of the same handle; a failing call destroys
/// the handle, so no failure path leaks it.
pub struct Config {
    pub handle: u64,
}

impl Config {
    /// The owned handle is alive with the right kind.
    pub open spec fn wf(&self, m: NativeModel) -> bool {
        m.holds(self.handle, HandleKind::Config)
    }

    /// Creates an empty configuration: one native construction call, whose
    /// report decides the result — the issued handle on success, the
    /// translated diagnostic on failure.
    pub fn new<N: NativeLayer>(native: &mut N) -> (r: Result<Config, Error>)
        requires
            old(native).model().wf(),
            old(native).model().can_issue(1),
        ensures
            final(native).model().wf(),
            match r {
                Ok(c) => old(native).model().allocated(
                    final(native).model(),
                    HandleKind::Config,
                    c.handle,
                ) && old(native).model().logged(
                    final(native).model(),
                    (CallRecord::CreateConfig { outcome: (CallOutcome::Issued(c.handle)) }),
                ),
                Err(e) => old(native).model().untouched(final(native).model()) && (final(native).model().log.last() matches CallRecord::CreateConfig {
                    outcome: CallOutcome::Reported(ne),
                } && e == error_of(ne)) && final(native).model().log == old(native).model().log.push(final(native).model().log.last()),
            },
    {
        let mut checker = ErrorChecker::new();
        let ptr = native.create_config(&mut checker);
        checker.check()?;
        Ok(Config { handle: ptr })
    }

    /// Enables one data stream: exactly one native enable call receives the
    /// owned handle and every attribute verbatim.  If it reports no error the
    /// same owner comes back; if it reports a failure the handle is destroyed
    /// and that diagnostic, translated, is the error.
    pub fn enable_stream<N: NativeLayer>(
        self,
        native: &mut N,
        stream: StreamKind,
        index: usize,
        width: usize,
        height: usize,
        format: Format,
        framerate: usize,
    ) -> (r: Result<Config, Error>)
        requires
            old(native).model().wf(),
            self.wf(old(native).model()),
        ensures
            final(native).model().wf(),
            match r {
                Ok(c) => c == self && old(native).model().untouched(final(native).model()) && old(native).model().logged(
                    final(native).model(),
                    (CallRecord::EnableStream {
                        config: self.handle,
                        stream,
                        index,
                        width,
                        height,
                        format,
                        framerate,
                        outcome: (CallOutcome::Passed),
                    }),
                ),
                Err(e) => old(native).model().destroyed(final(native).model(), self.handle) && (
                final(native).model().log[old(native).model().log.len() as int]
                    matches CallRecord::EnableStream {
                        config: c2,
                        stream: s2,
                        index: i2,
                        width: w2,
                        height: h2,
                        format: f2,
                        framerate: fr2,
                        outcome: CallOutcome::Reported(ne),
                    } && c2 == self.handle && s2 == stream && i2 == index && w2 == width && h2
                    == height && f2 == format && fr2 == framerate && e == error_of(ne)) && final(native).model().log == old(native).model().log.push(
                    final(native).model().log[old(native).model().log.len() as int],
                ).push((CallRecord::Destroy { kind: HandleKind::Config, handle: self.handle })),
            },
    {
        let mut checker = ErrorChecker::new();
        native.config_enable_stream(
            self.handle,
            stream,
            index,
            width,
            height,
            format,
            framerate,
            &mut checker,
        );
        match checker.check() {
            Ok(()) => Ok(self),
            Err(e) => {
                native.destroy(HandleKind::Config, self.handle);
                Err(e)
            },
        }
    }

    /// Restricts the configuration to the physical device with the given
    /// serial number: one native enable call with the handle and the serial
    /// verbatim, under the same ownership contract as `enable_stream`.
    pub fn enable_device_from_serial<N: NativeLayer>(self, native: &mut N, serial: &str) -> (r:
        Result<Config, Error>)
        requires
            old(native).model().wf(),
            self.wf(old(native).model()),
        ensures
            final(native).model().wf(),
            match r {
                Ok(c) => c == self && old(native).model().untouched(final(native).model()) && old(native).model().logged(
                    final(native).model(),
                    (CallRecord::EnableDevice {
                        config: self.handle,
                        serial: serial@,
                        outcome: (CallOutcome::Passed),
                    }),
                ),
                Err(e) => old(native).model().destroyed(final(native).model(), self.handle) && (
                final(native).model().log[old(native).model().log.len() as int]
                    matches CallRecord::EnableDevice {
                        config: c2,
                        serial: sr2,
                        outcome: CallOutcome::Reported(ne),
                    } && c2 == self.handle && sr2 == serial@ && e == error_of(ne)) && final(native).model().log == old(native).model().log.push(
                    final(native).model().log[old(native).model().log.len() as int],
                ).push((CallRecord::Destroy { kind: HandleKind::Config, handle: self.handle })),
            },
    {
        let mut checker = ErrorChecker::new();
        native.config_enable_device(self.handle, serial, &mut checker);
        match checker.check() {
            Ok(()) => Ok(self),
            Err(e) => {
                native.destroy(HandleKind::Config, self.handle);
                Err(e)
            },
        }
    }

    /// Restricts the configuration to a device replayed from a recorded file:
    /// one native enable call with the handle and the path verbatim, under
    /// the same ownership contract as `enable_stream`.
    pub fn enable_device_from_file<N: NativeLayer>(self, native: &mut N, file: &str) -> (r: Result<
        Config,
        Error,
    >)
        requires
            old(native).model().wf(),
            self.wf(old(native).model()),
        ensures
            final(native).model().wf(),
            match r {
                Ok(c) => c == self && old(native).model().untouched(final(native).model()) && old(native).model().logged(
                    final(native).model(),
                    (CallRecord::EnableDeviceFromFile {
                        config: self.handle,
                        file: file@,
                        outcome: (CallOutcome::Passed),
                    }),
                ),
                Err(e) => old(native).model().destroyed(final(native).model(), self.handle) && (
                final(native).model().log[old(native).model().log.len() as int]
                    matches CallRecord::EnableDeviceFromFile {
                        config: c2,
                        file: fl2,
                        outcome: CallOutcome::Reported(ne),
                    } && c2 == self.handle && fl2 == file@ && e == error_of(ne)) && final(native).model().log == old(native).model().log.push(
                    final(native).model().log[old(native).model().log.len() as int],
                ).push((CallRecord::Destroy { kind: HandleKind::Config, handle: self.handle })),
            },
    {
        let mut checker = ErrorChecker::new();
        native.config_enable_device_from_file(self.handle, file, &mut checker);
        match checker.check() {
            Ok(()) => Ok(self),
            Err(e) => {
                native.destroy(HandleKind::Config, self.handle);
                Err(e)
            },
        }
    }

    /// Hands the raw configuration handle to the caller as a transfer of
    /// ownership; no destructor will run for this value.
    pub fn into_raw(self) -> (r: u64)
        ensures
            r == self.handle,
    {
        self.handle
    }

    /// Re-wraps a raw configuration handle as an owned value.  The handle
    /// must be valid and uniquely owned; this is the caller's obligation and
    /// is not re-validated here.
    pub fn from_raw(handle: u64) -> (r: Config)
        ensures
            r.handle == handle,
    {
        Config { handle }
    }

    /// Destroys the owned configuration handle with one native destroy call.
    pub fn delete<N: NativeLayer>(self, native: &mut N)
        requires
            old(native).model().wf(),
            self.wf(old(native).model()),
        ensures
            final(native).model().wf(),
            old(native).model().destroyed(final(native).model(), self.handle),
            old(native).model().logged(
                final(native).model(),
                (CallRecord::Destroy { kind: HandleKind::Config, handle: self.handle }),
            ),
    {
        native.destroy(HandleKind::Config, self.handle);
    }
}

} // verus!
