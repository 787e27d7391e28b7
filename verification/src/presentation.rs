//! How the outcome of presenting a frame is recovered from.

use vstd::prelude::*;

verus! {

/// Why a frame could not be acquired from the surface or presented.
#[derive(Clone, Copy, Debug, PartialEq, Eq)]
pub enum SurfaceFailure {
    /// No frame became available in time.
    Timeout,
    /// The surface changed underneath its configuration.
    Outdated,
    /// The surface was lost and has to be configured again.
    Lost,
    /// No memory is left for a new frame.
    OutOfMemory,
}

/// What follows the attempt to present one frame.
#[derive(Clone, Copy, Debug, PartialEq, Eq)]
pub enum Recovery {
    /// The frame was presented; nothing is to be repaired.
    Proceed,
    /// The surface is stale: configure it again at the last known size and
    /// give up this frame.
    Reconfigure,
    /// A passing failure: give up this frame and change nothing.
    Skip,
    /// Nothing can be repaired: the application terminates.
    Terminate,
}

/// The recovery that each outcome of a presentation calls for.
pub open spec fn recovery_of(outcome: Result<(), SurfaceFailure>) -> Recovery {
    match outcome {
        Ok(_) => Recovery::Proceed,
        Err(SurfaceFailure::Lost) => Recovery::Reconfigure,
        Err(SurfaceFailure::Outdated) => Recovery::Reconfigure,
        Err(SurfaceFailure::OutOfMemory) => Recovery::Terminate,
        Err(SurfaceFailure::Timeout) => Recovery::Skip,
    }
}

/// Classifies the outcome of a presentation.
pub fn classify(outcome: &Result<(), SurfaceFailure>) -> (recovery: Recovery)
    ensures
        recovery == recovery_of(*outcome),
        recovery is Proceed <==> outcome is Ok,
        recovery is Terminate <==> *outcome == Err::<(), SurfaceFailure>(
            SurfaceFailure::OutOfMemory,
        ),
{
    match outcome {
        Ok(_) => Recovery::Proceed,
        Err(SurfaceFailure::Lost) | Err(SurfaceFailure::Outdated) => Recovery::Reconfigure,
        Err(SurfaceFailure::OutOfMemory) => Recovery::Terminate,
        Err(SurfaceFailure::Timeout) => Recovery::Skip,
    }
}

/// Only running out of memory is fatal: every other failure leaves the
/// application running.
pub proof fn lemma_only_out_of_memory_is_fatal(failure: SurfaceFailure)
    ensures
        recovery_of(Err(failure)) is Terminate <==> failure is OutOfMemory,
        recovery_of(Err(failure)) is Reconfigure <==> failure is Lost || failure is Outdated,
        recovery_of(Err(failure)) is Skip <==> failure is Timeout,
        !(recovery_of(Err(failure)) is Proceed),
{
}

} // verus!
