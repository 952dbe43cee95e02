//! Errors of the process-control engine.

use vstd::prelude::*;

verus! {

/// One failure of the engine, carrying the OS error code (`errno`) where the
/// kernel reported one.
///
/// The construction errors (`PipeCreationFailed`, `ForkFailed`,
/// `AttachFailed`) and the runtime errors (`ResumeFailed`, `WaitFailed`) are
/// returned directly to the caller.  `TracingRequestFailed` and `ExecFailed`
/// arise inside the duplicated child before its image is replaced and must
/// cross the process boundary through the error channel
/// (see [`crate::channel`]).  `RelayReadFailed` and `RelayCorrupt` report a
/// channel that could not be read or held bytes that are no message.
#[derive(Clone, Copy, Debug, PartialEq, Eq, Structural)]
pub enum SdbError {
    /// The error-relay pipe could not be created.
    PipeCreationFailed { errno: i32 },
    /// The calling process could not be duplicated.
    ForkFailed { errno: i32 },
    /// The child could not request kernel tracing of itself (relayed).
    TracingRequestFailed { errno: i32 },
    /// The target path holds an embedded NUL byte; no process was created.
    PathContainsNull,
    /// The child could not replace its image with the target (relayed).
    ExecFailed { errno: i32 },
    /// Blocking for the target's next state change failed.
    WaitFailed { errno: i32 },
    /// A trace relationship with the existing target could not be made.
    AttachFailed { errno: i32 },
    /// The kernel rejected the request to let the stopped target continue.
    ResumeFailed { errno: i32 },
    /// Reading from the error-relay channel failed.
    RelayReadFailed { errno: i32 },
    /// The error-relay channel held bytes that decode as no message.
    RelayCorrupt,
}

impl SdbError {
    /// The OS error code carried by this error; zero for the variants that
    /// carry none.
    pub open spec fn spec_errno(self) -> i32 {
        match self {
            SdbError::PipeCreationFailed { errno } => errno,
            SdbError::ForkFailed { errno } => errno,
            SdbError::TracingRequestFailed { errno } => errno,
            SdbError::PathContainsNull => 0,
            SdbError::ExecFailed { errno } => errno,
            SdbError::WaitFailed { errno } => errno,
            SdbError::AttachFailed { errno } => errno,
            SdbError::ResumeFailed { errno } => errno,
            SdbError::RelayReadFailed { errno } => errno,
            SdbError::RelayCorrupt => 0,
        }
    }

    /// Validity: an OS error code is never negative.
    pub open spec fn wf(self) -> bool {
        0 <= self.spec_errno()
    }
}

} // verus!
