//! The presentation chain manager: the presentable images, the size they were
//! built for, and the flag that says they no longer fit the surface.

use vstd::prelude::*;
use crate::config::Extent;
use crate::error::{AcquireFailure, DeviceFault, RecreateFailure};

verus! {

/// How an attempt to rebuild the chain ended. `C` is whatever the caller
/// keeps per chain: the images, their views and their framebuffers.
pub enum RecreateOutcome<C> {
    /// A new chain exists, with this many images; `extent` is the size read
    /// from them.
    Rebuilt { resources: C, image_count: usize, extent: Extent },
    /// The device refused the requested size. The old chain was not touched.
    UnsupportedDimensions,
    Failed(DeviceFault),
}

impl<C> RecreateOutcome<C> {
    /// The outcome that reports `failure`.
    pub open spec fn refusal(failure: RecreateFailure) -> RecreateOutcome<C> {
        match failure {
            RecreateFailure::UnsupportedDimensions => RecreateOutcome::UnsupportedDimensions,
            RecreateFailure::Device(fault) => RecreateOutcome::Failed(fault),
        }
    }

    /// Reports a rebuild that did not happen.
    pub fn refused(failure: RecreateFailure) -> (outcome: RecreateOutcome<C>)
        ensures
            outcome == Self::refusal(failure),
    {
        match failure {
            RecreateFailure::UnsupportedDimensions => RecreateOutcome::UnsupportedDimensions,
            RecreateFailure::Device(fault) => RecreateOutcome::Failed(fault),
        }
    }
}

/// How a request for the next presentable image ended.
#[derive(Clone, Copy, Debug, PartialEq, Eq, Structural)]
pub enum AcquireOutcome {
    /// `suboptimal` is a hint: the image is usable, the chain should be
    /// rebuilt before the next frame.
    Acquired { image_index: usize, suboptimal: bool },
    OutOfDate,
    Failed(DeviceFault),
}

impl AcquireOutcome {
    /// The outcome that reports `failure`.
    pub open spec fn refusal(failure: AcquireFailure) -> AcquireOutcome {
        match failure {
            AcquireFailure::OutOfDate => AcquireOutcome::OutOfDate,
            AcquireFailure::Device(fault) => AcquireOutcome::Failed(fault),
        }
    }

    /// Reports an acquisition that yielded no image.
    pub fn refused(failure: AcquireFailure) -> (outcome: AcquireOutcome)
        ensures
            outcome == Self::refusal(failure),
    {
        match failure {
            AcquireFailure::OutOfDate => AcquireOutcome::OutOfDate,
            AcquireFailure::Device(fault) => AcquireOutcome::Failed(fault),
        }
    }
}

/// An image that may be written once its acquire signal has fired.
#[derive(Clone, Copy, Debug, PartialEq, Eq, Structural)]
pub struct AcquiredImage {
    pub image_index: usize,
    pub suboptimal: bool,
}

/// What a chain manager is, mathematically.
pub struct ChainModel<C> {
    /// The images, views and framebuffers currently in use.
    pub resources: C,
    /// The size the images were built for.
    pub extent: Extent,
    /// The size of the dynamic viewport.
    pub viewport: Extent,
    pub image_count: nat,
    /// The chain must be rebuilt before it is drawn to again.
    pub stale: bool,
}

impl<C> ChainModel<C> {
    /// There is an image to draw to, and the viewport has the size the chain
    /// was built for.
    pub open spec fn wf(self) -> bool {
        self.image_count >= 1 && self.viewport == self.extent
    }

    /// A fresh chain of `image_count` images of size `extent`.
    pub open spec fn fresh(resources: C, extent: Extent, image_count: nat) -> ChainModel<C> {
        ChainModel { resources, extent, viewport: extent, image_count, stale: false }
    }

    /// Whether `outcome` replaces the chain that was to be rebuilt for
    /// `dimensions`: only a stale chain is replaced, and only by one that has
    /// images, and images of that size.
    pub open spec fn replaced_by(self, dimensions: Extent, outcome: RecreateOutcome<C>) -> bool {
        self.stale && (outcome matches RecreateOutcome::Rebuilt { image_count, extent, .. }
            && image_count >= 1 && extent == dimensions)
    }

    /// The chain after an attempt to rebuild it for `dimensions`: size and
    /// viewport are those read from the new images.
    pub open spec fn after_recreate(
        self,
        dimensions: Extent,
        outcome: RecreateOutcome<C>,
    ) -> ChainModel<C> {
        if self.replaced_by(dimensions, outcome) {
            ChainModel::fresh(
                outcome->resources,
                outcome->extent,
                outcome->image_count as nat,
            )
        } else {
            self
        }
    }

    /// What the attempt to rebuild for `dimensions` reports: nothing to do on
    /// a chain that is not stale, else the outcome's own verdict, where a
    /// chain without images or with images of another size is a fault.
    pub open spec fn recreate_verdict(
        self,
        dimensions: Extent,
        outcome: RecreateOutcome<C>,
    ) -> Result<(), RecreateFailure> {
        if !self.stale {
            Ok(())
        } else {
            match outcome {
                RecreateOutcome::Rebuilt { image_count, extent, .. } => if image_count == 0 {
                    Err(RecreateFailure::Device(DeviceFault::NoImages))
                } else if extent != dimensions {
                    Err(RecreateFailure::Device(DeviceFault::ExtentMismatch))
                } else {
                    Ok(())
                },
                RecreateOutcome::UnsupportedDimensions => Err(
                    RecreateFailure::UnsupportedDimensions,
                ),
                RecreateOutcome::Failed(fault) => Err(RecreateFailure::Device(fault)),
            }
        }
    }

    /// What an acquisition yields: the image, if the chain has it, else why
    /// there is none.
    pub open spec fn acquire_verdict(self, outcome: AcquireOutcome) -> Result<
        AcquiredImage,
        AcquireFailure,
    > {
        match outcome {
            AcquireOutcome::Acquired { image_index, suboptimal } => if image_index
                < self.image_count {
                Ok(AcquiredImage { image_index, suboptimal })
            } else {
                Err(AcquireFailure::Device(DeviceFault::ImageOutOfRange))
            },
            AcquireOutcome::OutOfDate => Err(AcquireFailure::OutOfDate),
            AcquireOutcome::Failed(fault) => Err(AcquireFailure::Device(fault)),
        }
    }

    /// The chain after an acquisition: flagged by an out-of-date answer and by
    /// a suboptimal image, otherwise as before. Nothing here clears the flag.
    pub open spec fn after_acquire(self, outcome: AcquireOutcome) -> ChainModel<C> {
        match self.acquire_verdict(outcome) {
            Ok(image) => self.flagged(self.stale || image.suboptimal),
            Err(AcquireFailure::OutOfDate) => self.flagged(true),
            Err(AcquireFailure::Device(_)) => self,
        }
    }

    /// The chain with its flag set to `stale`.
    pub open spec fn flagged(self, stale: bool) -> ChainModel<C> {
        ChainModel { stale, ..self }
    }
}

/// Holds the chain's resources and its staleness flag.
pub struct SwapchainHandler<C> {
    resources: C,
    extent: Extent,
    viewport: Extent,
    image_count: usize,
    must_recreate: bool,
}

impl<C> View for SwapchainHandler<C> {
    type V = ChainModel<C>;

    closed spec fn view(&self) -> ChainModel<C> {
        ChainModel {
            resources: self.resources,
            extent: self.extent,
            viewport: self.viewport,
            image_count: self.image_count as nat,
            stale: self.must_recreate,
        }
    }
}

impl<C> SwapchainHandler<C> {
    /// Takes over a chain that was just built for `extent`. A chain without
    /// images is refused.
    pub fn new(resources: C, extent: Extent, image_count: usize) -> (r: Result<
        SwapchainHandler<C>,
        DeviceFault,
    >)
        ensures
            image_count >= 1 ==> (r matches Ok(h) && h@ == ChainModel::fresh(
                resources,
                extent,
                image_count as nat,
            )),
            image_count == 0 ==> r == Err::<SwapchainHandler<C>, DeviceFault>(
                DeviceFault::NoImages,
            ),
    {
        if image_count == 0 {
            Err(DeviceFault::NoImages)
        } else {
            Ok(
                SwapchainHandler {
                    resources,
                    extent,
                    viewport: extent,
                    image_count,
                    must_recreate: false,
                },
            )
        }
    }

    /// Whether the chain must be rebuilt before the next draw.
    pub fn get_recreate(&self) -> (stale: bool)
        ensures
            stale == self@.stale,
    {
        self.must_recreate
    }

    /// Sets the flag and nothing else.
    pub fn set_recreate(&mut self, new_value: bool)
        ensures
            final(self)@ == old(self)@.flagged(new_value),
    {
        self.must_recreate = new_value;
    }

    /// Settles an attempt to rebuild the chain for `dimensions`.
    ///
    /// A chain that is not stale stays as it is and the outcome is dropped. A
    /// stale chain is replaced by a rebuilt one whose images have the size
    /// asked for, takes the size read from them as its size and its viewport,
    /// and is no longer stale. After any failure the old chain, its size and
    /// its flag are exactly what they were.
    pub fn check_and_recreate(&mut self, dimensions: Extent, outcome: RecreateOutcome<C>) -> (r:
        Result<(), RecreateFailure>)
        ensures
            final(self)@ == old(self)@.after_recreate(dimensions, outcome),
            r == old(self)@.recreate_verdict(dimensions, outcome),
            r is Ok <==> !old(self)@.stale || old(self)@.replaced_by(dimensions, outcome),
            r is Err ==> final(self)@ == old(self)@,
            old(self)@.replaced_by(dimensions, outcome) ==> {
                &&& final(self)@.extent == outcome->extent
                &&& final(self)@.viewport == outcome->extent
                &&& final(self)@.extent == dimensions
                &&& final(self)@.resources == outcome->resources
                &&& !final(self)@.stale
            },
            old(self)@.wf() ==> final(self)@.wf(),
    {
        if !self.must_recreate {
            return Ok(());
        }
        match outcome {
            RecreateOutcome::Rebuilt { resources, image_count, extent } => {
                if image_count == 0 {
                    return Err(RecreateFailure::Device(DeviceFault::NoImages));
                }
                if extent != dimensions {
                    return Err(RecreateFailure::Device(DeviceFault::ExtentMismatch));
                }
                self.resources = resources;
                self.image_count = image_count;
                self.extent = extent;
                self.viewport = extent;
                self.must_recreate = false;
                Ok(())
            },
            RecreateOutcome::UnsupportedDimensions => Err(RecreateFailure::UnsupportedDimensions),
            RecreateOutcome::Failed(fault) => Err(RecreateFailure::Device(fault)),
        }
    }

    /// Settles a request for the next presentable image.
    ///
    /// An image of the chain is handed on, and a suboptimal one flags the
    /// chain for the next frame. An out-of-date answer flags the chain and
    /// yields no image. An image the chain does not have is a device fault.
    pub fn acquire_next(&mut self, outcome: AcquireOutcome) -> (r: Result<
        AcquiredImage,
        AcquireFailure,
    >)
        ensures
            r == old(self)@.acquire_verdict(outcome),
            final(self)@ == old(self)@.after_acquire(outcome),
            r matches Ok(image) ==> image.image_index < final(self)@.image_count,
            old(self)@.stale ==> final(self)@.stale,
            old(self)@.wf() ==> final(self)@.wf(),
    {
        match outcome {
            AcquireOutcome::Acquired { image_index, suboptimal } => {
                if image_index < self.image_count {
                    self.must_recreate = self.must_recreate || suboptimal;
                    Ok(AcquiredImage { image_index, suboptimal })
                } else {
                    Err(AcquireFailure::Device(DeviceFault::ImageOutOfRange))
                }
            },
            AcquireOutcome::OutOfDate => {
                self.must_recreate = true;
                Err(AcquireFailure::OutOfDate)
            },
            AcquireOutcome::Failed(fault) => Err(AcquireFailure::Device(fault)),
        }
    }

    /// The size the chain's images were built for.
    pub fn extent(&self) -> (e: Extent)
        ensures
            e == self@.extent,
    {
        self.extent
    }

    /// The size of the dynamic viewport.
    pub fn viewport(&self) -> (e: Extent)
        ensures
            e == self@.viewport,
    {
        self.viewport
    }

    pub fn image_count(&self) -> (n: usize)
        ensures
            n == self@.image_count,
    {
        self.image_count
    }

    /// The images, views and framebuffers in use.
    pub fn resources(&self) -> (c: &C)
        ensures
            *c == self@.resources,
    {
        &self.resources
    }
}

} // verus!
