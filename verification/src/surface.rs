//! What a render attempt can come to.

use vstd::prelude::*;

verus! {

/// A presentation failure that is expected to be gone by the next frame.
#[derive(Clone, Copy, Debug, PartialEq, Eq, Structural)]
pub enum TransientError {
    /// The surface changed under the frame.
    Outdated,
    /// No frame could be acquired in time.
    Timeout,
}

/// The result of one render attempt.
///
/// An outcome belongs to the frame that produced it. It has neither `Copy`
/// nor `Clone`, and the loop takes it by value, so one outcome cannot be
/// judged twice.
#[derive(Debug, PartialEq, Eq, Structural)]
pub enum SurfaceOutcome {
    /// The frame reached the surface.
    Presented,
    /// The surface is gone and has to be configured again.
    Lost,
    /// No memory is left for another frame.
    OutOfMemory,
    /// Any other failure.
    Transient(TransientError),
}

} // verus!
