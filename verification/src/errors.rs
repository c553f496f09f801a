//! The error-checking protocol: native calls report failure through an error
//! slot, and `ErrorChecker` turns an inspected slot into a typed result.

use vstd::prelude::*;

verus! {

/// The category a native diagnostic reports.
#[derive(Clone, Copy, PartialEq, Eq, Structural, Debug)]
pub enum ErrorKind {
    /// A bounded wait expired without producing data.
    Timeout,
    /// Any other native failure.
    Other,
}

/// The diagnostic a failing native call leaves in the error slot.
#[derive(Debug)]
pub struct NativeError {
    pub kind: ErrorKind,
    pub message: String,
}

/// A typed failure surfaced by the library.
#[derive(Debug)]
pub enum Error {
    /// A native call reported failure; carries the native diagnostic.
    NativeCall { message: String },
    /// A bounded wait expired without producing data.
    Timeout { message: String },
}

/// The typed error `ErrorChecker::check` builds from a native diagnostic.
pub open spec fn error_of(e: NativeError) -> Error {
    if e.kind is Timeout {
        Error::Timeout { message: e.message }
    } else {
        Error::NativeCall { message: e.message }
    }
}

/// A stack-scoped slot that exactly one native call may fill with a
/// diagnostic.  The slot starts empty, is handed to a single native call,
/// and is then consumed by [`ErrorChecker::check`], so a native diagnostic is
/// never leaked and never inspected twice.
pub struct ErrorChecker {
    /// The slot a native call writes into on failure.
    pub slot: Option<NativeError>,
}

impl ErrorChecker {
    /// A fresh, empty error slot.
    pub fn new() -> (r: ErrorChecker)
        ensures
            r.slot is None,
    {
        ErrorChecker { slot: None }
    }

    /// Consumes the checker: an empty slot means the native call succeeded;
    /// a filled slot is translated into the typed error it describes.
    pub fn check(self) -> (r: Result<(), Error>)
        ensures
            match self.slot {
                None => r is Ok,
                Some(e) => r == Result::<(), Error>::Err(error_of(e)),
            },
    {
        match self.slot {
            None => Ok(()),
            Some(e) => {
                if let ErrorKind::Timeout = e.kind {
                    Err(Error::Timeout { message: e.message })
                } else {
                    Err(Error::NativeCall { message: e.message })
                }
            },
        }
    }
}

} // verus!
