use vstd::prelude::*;
use crate::multiplexer::RegistrationError;
use crate::setup::SetupError;
use crate::swapchain::{AcquireError, SubmitError};

verus! {

/// How an error propagates through the runtime: setup errors abort
/// startup; everything inside the running loop is reported and the loop
/// continues, except slot exhaustion, which additionally skips that tick's
/// hardware submission; a client's failure stays with that client.
#[derive(Clone, Copy, PartialEq, Eq, Structural, Debug)]
pub enum ErrorKind {
    /// Fatal before the loop starts; the process aborts.
    SetupFailure,
    /// Reported and survived: the loop continues.
    RuntimeTransient,
    /// Every slot outstanding: reported, and this tick is skipped.
    ResourceExhaustion,
    /// Isolated to one client; other clients and the frame loop go on.
    ClientFailure,
}

/// Startup discovery failures are fatal to process start.
pub fn classify_setup(e: SetupError) -> (k: ErrorKind)
    ensures
        k is SetupFailure,
{
    let _ = e;
    ErrorKind::SetupFailure
}

/// An unpollable source is found during setup, before the loop runs.
pub fn classify_registration(e: RegistrationError) -> (k: ErrorKind)
    ensures
        k is SetupFailure,
{
    let _ = e;
    ErrorKind::SetupFailure
}

/// Slot exhaustion is reported and the tick is skipped; the display keeps
/// showing stale content.
pub fn classify_acquire(e: AcquireError) -> (k: ErrorKind)
    ensures
        k is ResourceExhaustion,
{
    let _ = e;
    ErrorKind::ResourceExhaustion
}

/// A rejected commit is transient: surfaced, never retried automatically,
/// and the loop continues.
pub fn classify_submit(e: SubmitError) -> (k: ErrorKind)
    ensures
        k is RuntimeTransient,
{
    let _ = e;
    ErrorKind::RuntimeTransient
}

impl ErrorKind {
    /// Whether the runtime survives this kind of error once the loop runs.
    pub fn survivable(&self) -> (b: bool)
        ensures
            b == !(*self is SetupFailure),
    {
        !matches!(self, ErrorKind::SetupFailure)
    }
}

} // verus!
