//! Failures, split into those the next frame cures and those nothing cures.

use vstd::prelude::*;

verus! {

/// What the device reported when an operation failed for good.
#[derive(Clone, Copy, Debug, PartialEq, Eq, Structural)]
pub enum DeviceFault {
    DeviceLost,
    OutOfMemory,
    SurfaceLost,
    /// A chain came back without a single image.
    NoImages,
    /// The device named an image the chain does not have.
    ImageOutOfRange,
    /// The images that came back have another size than was asked for.
    ExtentMismatch,
    Other,
}

/// The per-frame operation that was under way.
#[derive(Clone, Copy, Debug, PartialEq, Eq, Structural)]
pub enum Stage {
    Setup,
    Recreate,
    Acquire,
    Record,
    Submit,
    Present,
}

/// A failure with no recovery policy: the outer loop shuts down in order.
#[derive(Clone, Copy, Debug, PartialEq, Eq, Structural)]
pub struct FatalDeviceError {
    pub stage: Stage,
    pub fault: DeviceFault,
}

/// Why a chain was not rebuilt.
#[derive(Clone, Copy, Debug, PartialEq, Eq, Structural)]
pub enum RecreateFailure {
    /// The surface size is outside what the device accepts right now, as
    /// during an interactive resize or while minimized. Try again next frame.
    UnsupportedDimensions,
    /// Not recoverable.
    Device(DeviceFault),
}

/// Why no image was acquired.
#[derive(Clone, Copy, Debug, PartialEq, Eq, Structural)]
pub enum AcquireFailure {
    /// The chain no longer fits the surface. Abandon the frame; the chain is
    /// rebuilt at the start of the next one.
    OutOfDate,
    /// Not recoverable.
    Device(DeviceFault),
}

} // verus!
