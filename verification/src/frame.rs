//! The frame submission engine: one frame is a walk
//! `Idle -> Acquiring -> Recording -> Submitting -> Presenting -> Idle`,
//! with a detour through `Recreating` when the chain is stale.
//!
//! The engine answers each event with the next action to perform, and is
//! told how that action ended. It performs nothing itself.

use vstd::prelude::*;
use crate::chain::{AcquireOutcome, ChainModel, RecreateOutcome, SwapchainHandler};
use crate::config::{ClearColor, Extent};
use crate::error::{AcquireFailure, DeviceFault, FatalDeviceError, RecreateFailure, Stage};

verus! {

/// Stands for the GPU-side completion of everything submitted for one frame.
#[derive(Clone, Copy, Debug, PartialEq, Eq, Structural)]
pub enum FrameFuture {
    /// Already complete: nothing to wait for.
    Ready,
    /// Completes when the frame drawn to this image has been presented.
    Fence { image_index: usize },
}

/// The two things a submission waits for before it runs on the device.
#[derive(Clone, Copy, Debug, PartialEq, Eq, Structural)]
pub struct WaitSet {
    /// The previous frame's completion.
    pub previous_frame: FrameFuture,
    /// The image whose acquire signal gates the write.
    pub image_acquired: usize,
}

/// Where in a frame the engine stands.
#[derive(Clone, Copy, Debug, PartialEq, Eq, Structural)]
pub enum FramePhase {
    Idle,
    Recreating,
    Acquiring,
    Recording { image_index: usize },
    Submitting { image_index: usize },
    Presenting { image_index: usize },
}

/// How scheduling the presentation ended.
#[derive(Clone, Copy, Debug, PartialEq, Eq, Structural)]
pub enum PresentOutcome {
    Presented,
    OutOfDate,
    Failed(DeviceFault),
}

/// What the caller reports to the engine.
pub enum FrameEvent<C> {
    /// A new loop iteration: whether the window was resized since the last
    /// one, and the surface's size now.
    Begin { resized: bool, surface: Extent },
    Recreated(RecreateOutcome<C>),
    Acquired(AcquireOutcome),
    Recorded(Result<(), DeviceFault>),
    Submitted(Result<(), DeviceFault>),
    Presented(PresentOutcome),
}

/// How a frame ended when nothing fatal happened.
#[derive(Clone, Copy, Debug, PartialEq, Eq, Structural)]
pub enum FrameEnd {
    Presented,
    /// Abandoned before acquisition: the surface size is not usable yet.
    UnsupportedDimensions,
    /// Abandoned at acquisition: nothing was drawn or presented.
    AcquireOutOfDate,
    /// Drawn, but the presentation found the chain out of date.
    PresentOutOfDate,
}

/// What the engine asks the caller to do next.
#[derive(Clone, Copy, Debug, PartialEq, Eq, Structural)]
pub enum FrameAction {
    /// Rebuild the chain for `dimensions`.
    Recreate { dimensions: Extent },
    /// Ask for the next presentable image.
    Acquire,
    /// Record the pass: begin on the image's framebuffer with the clear
    /// colour, bind, draw, end.
    Record { image_index: usize, viewport: Extent, clear_color: ClearColor },
    /// Hand the recorded work to the queue behind `wait`.
    Submit { image_index: usize, wait: WaitSet },
    /// Schedule the image for presentation behind the submitted work.
    Present { image_index: usize },
    /// The frame is over. Poll, pace, and begin again.
    Finish(FrameEnd),
    /// Shut down in order.
    Abort(FatalDeviceError),
    /// The event does not belong to the current phase. Nothing changed.
    Rejected,
}

/// What a frame submission engine is, mathematically.
pub struct FrameModel<C> {
    pub chain: ChainModel<C>,
    pub phase: FramePhase,
    /// The one live completion future, or `None` while a submission holds it.
    pub previous_frame_end: Option<FrameFuture>,
    /// The surface size seen at the start of the current frame.
    pub surface: Extent,
    pub clear_color: ClearColor,
}

impl FramePhase {
    /// The image being drawn to, in the phases that have one.
    pub open spec fn image(self) -> Option<usize> {
        match self {
            FramePhase::Recording { image_index } => Some(image_index),
            FramePhase::Submitting { image_index } => Some(image_index),
            FramePhase::Presenting { image_index } => Some(image_index),
            _ => None,
        }
    }

    /// The phases in which a submission holds the previous frame's future.
    pub open spec fn holds_future(self) -> bool {
        self is Submitting || self is Presenting
    }
}

impl<C> FrameModel<C> {
    /// An engine between frames, on a fresh chain.
    pub open spec fn initial(chain: ChainModel<C>, clear_color: ClearColor) -> FrameModel<C> {
        FrameModel {
            chain,
            phase: FramePhase::Idle,
            previous_frame_end: Some(FrameFuture::Ready),
            surface: chain.extent,
            clear_color,
        }
    }

    /// The states the engine can be in.
    pub open spec fn wf(self) -> bool {
        &&& self.chain.wf()
        &&& self.phase is Recreating ==> self.chain.stale
        &&& self.phase.image() matches Some(i) ==> i < self.chain.image_count
        &&& self.phase.holds_future() <==> self.previous_frame_end is None
    }

    pub open spec fn with_phase(self, phase: FramePhase) -> FrameModel<C> {
        FrameModel { phase, ..self }
    }

    pub open spec fn with_stale(self, stale: bool) -> FrameModel<C> {
        FrameModel { chain: self.chain.flagged(stale), ..self }
    }

    /// Back to `Idle` with a future that is already complete.
    pub open spec fn reset(self) -> FrameModel<C> {
        FrameModel {
            phase: FramePhase::Idle,
            previous_frame_end: Some(FrameFuture::Ready),
            ..self
        }
    }

    pub open spec fn fatal(stage: Stage, fault: DeviceFault) -> FrameAction {
        FrameAction::Abort(FatalDeviceError { stage, fault })
    }

    /// A frame begins: a resize always flags the chain, and a flagged chain is
    /// rebuilt before anything is acquired.
    pub open spec fn on_begin(self, resized: bool, surface: Extent) -> (FrameModel<C>, FrameAction) {
        let stale = resized || self.chain.stale;
        let seen = FrameModel { surface, ..self.with_stale(stale) };
        if stale {
            (seen.with_phase(FramePhase::Recreating), FrameAction::Recreate { dimensions: surface })
        } else {
            (seen.with_phase(FramePhase::Acquiring), FrameAction::Acquire)
        }
    }

    /// The rebuild ended: go on to acquire, abandon the frame, or give up.
    pub open spec fn on_recreated(self, outcome: RecreateOutcome<C>) -> (
        FrameModel<C>,
        FrameAction,
    ) {
        let rebuilt = FrameModel {
            chain: self.chain.after_recreate(self.surface, outcome),
            ..self
        };
        match self.chain.recreate_verdict(self.surface, outcome) {
            Ok(_) => (rebuilt.with_phase(FramePhase::Acquiring), FrameAction::Acquire),
            Err(RecreateFailure::UnsupportedDimensions) => (
                rebuilt.with_phase(FramePhase::Idle),
                FrameAction::Finish(FrameEnd::UnsupportedDimensions),
            ),
            Err(RecreateFailure::Device(fault)) => (
                rebuilt.with_phase(FramePhase::Idle),
                Self::fatal(Stage::Recreate, fault),
            ),
        }
    }

    /// The acquisition ended: record on the image, abandon the frame, or
    /// give up. The chain manager has flagged itself where it had to.
    pub open spec fn on_acquired(self, outcome: AcquireOutcome) -> (FrameModel<C>, FrameAction) {
        let settled = FrameModel { chain: self.chain.after_acquire(outcome), ..self };
        match self.chain.acquire_verdict(outcome) {
            Ok(image) => (
                settled.with_phase(FramePhase::Recording { image_index: image.image_index }),
                FrameAction::Record {
                    image_index: image.image_index,
                    viewport: self.chain.viewport,
                    clear_color: self.clear_color,
                },
            ),
            Err(AcquireFailure::OutOfDate) => (
                settled.with_phase(FramePhase::Idle),
                FrameAction::Finish(FrameEnd::AcquireOutOfDate),
            ),
            Err(AcquireFailure::Device(fault)) => (
                settled.with_phase(FramePhase::Idle),
                Self::fatal(Stage::Acquire, fault),
            ),
        }
    }

    /// The future a submission waits on: the live one, or one that is already
    /// complete where none is live.
    pub open spec fn waited_future(self) -> FrameFuture {
        match self.previous_frame_end {
            Some(future) => future,
            None => FrameFuture::Ready,
        }
    }

    /// The pass is recorded: the submission takes the previous frame's future
    /// and waits on it and on the image.
    pub open spec fn on_recorded(self, image_index: usize, outcome: Result<(), DeviceFault>) -> (
        FrameModel<C>,
        FrameAction,
    ) {
        match outcome {
            Ok(_) => (
                FrameModel {
                    phase: FramePhase::Submitting { image_index },
                    previous_frame_end: None,
                    ..self
                },
                FrameAction::Submit {
                    image_index,
                    wait: WaitSet {
                        previous_frame: self.waited_future(),
                        image_acquired: image_index,
                    },
                },
            ),
            Err(fault) => (self.with_phase(FramePhase::Idle), Self::fatal(Stage::Record, fault)),
        }
    }

    /// The work is queued: present the image behind it.
    pub open spec fn on_submitted(self, image_index: usize, outcome: Result<(), DeviceFault>) -> (
        FrameModel<C>,
        FrameAction,
    ) {
        match outcome {
            Ok(_) => (
                self.with_phase(FramePhase::Presenting { image_index }),
                FrameAction::Present { image_index },
            ),
            Err(fault) => (self.reset(), Self::fatal(Stage::Submit, fault)),
        }
    }

    /// The presentation ended: the frame's own future becomes the live one, or
    /// a complete one takes its place.
    pub open spec fn on_presented(self, image_index: usize, outcome: PresentOutcome) -> (
        FrameModel<C>,
        FrameAction,
    ) {
        match outcome {
            PresentOutcome::Presented => (
                FrameModel {
                    phase: FramePhase::Idle,
                    previous_frame_end: Some(FrameFuture::Fence { image_index }),
                    ..self
                },
                FrameAction::Finish(FrameEnd::Presented),
            ),
            PresentOutcome::OutOfDate => (
                self.reset().with_stale(true),
                FrameAction::Finish(FrameEnd::PresentOutOfDate),
            ),
            PresentOutcome::Failed(fault) => (self.reset(), Self::fatal(Stage::Present, fault)),
        }
    }

    /// Whether `event` is the one the current phase waits for.
    pub open spec fn expects(self, event: FrameEvent<C>) -> bool {
        match (self.phase, event) {
            (FramePhase::Idle, FrameEvent::Begin { .. }) => true,
            (FramePhase::Recreating, FrameEvent::Recreated(_)) => true,
            (FramePhase::Acquiring, FrameEvent::Acquired(_)) => true,
            (FramePhase::Recording { .. }, FrameEvent::Recorded(_)) => true,
            (FramePhase::Submitting { .. }, FrameEvent::Submitted(_)) => true,
            (FramePhase::Presenting { .. }, FrameEvent::Presented(_)) => true,
            _ => false,
        }
    }

    /// The engine's whole behaviour: the state after `event` and the action it
    /// answers with.
    pub open spec fn step(self, event: FrameEvent<C>) -> (FrameModel<C>, FrameAction) {
        match (self.phase, event) {
            (FramePhase::Idle, FrameEvent::Begin { resized, surface }) => self.on_begin(
                resized,
                surface,
            ),
            (FramePhase::Recreating, FrameEvent::Recreated(outcome)) => self.on_recreated(outcome),
            (FramePhase::Acquiring, FrameEvent::Acquired(outcome)) => self.on_acquired(outcome),
            (FramePhase::Recording { image_index }, FrameEvent::Recorded(outcome)) => self.on_recorded(
                image_index,
                outcome,
            ),
            (
                FramePhase::Submitting { image_index },
                FrameEvent::Submitted(outcome),
            ) => self.on_submitted(image_index, outcome),
            (
                FramePhase::Presenting { image_index },
                FrameEvent::Presented(outcome),
            ) => self.on_presented(image_index, outcome),
            _ => (self, FrameAction::Rejected),
        }
    }
}

/// Owns the chain manager and the one live completion future, and walks them
/// through each frame.
pub struct GraphicsHandler<C> {
    swapchain: SwapchainHandler<C>,
    phase: FramePhase,
    previous_frame_end: Option<FrameFuture>,
    surface: Extent,
    clear_color: ClearColor,
}

impl<C> View for GraphicsHandler<C> {
    type V = FrameModel<C>;

    closed spec fn view(&self) -> FrameModel<C> {
        FrameModel {
            chain: self.swapchain@,
            phase: self.phase,
            previous_frame_end: self.previous_frame_end,
            surface: self.surface,
            clear_color: self.clear_color,
        }
    }
}

impl<C> GraphicsHandler<C> {
    /// An engine between frames on a chain that was just built for `extent`,
    /// with a completion future that is already complete. A chain without
    /// images is a setup failure.
    pub fn new(resources: C, extent: Extent, image_count: usize, clear_color: ClearColor) -> (r:
        Result<GraphicsHandler<C>, FatalDeviceError>)
        ensures
            image_count >= 1 ==> (r matches Ok(h) && h@ == FrameModel::initial(
                ChainModel::fresh(resources, extent, image_count as nat),
                clear_color,
            ) && h@.wf()),
            image_count == 0 ==> r == Err::<GraphicsHandler<C>, FatalDeviceError>(
                FatalDeviceError { stage: Stage::Setup, fault: DeviceFault::NoImages },
            ),
    {
        match SwapchainHandler::new(resources, extent, image_count) {
            Ok(swapchain) => Ok(
                GraphicsHandler {
                    swapchain,
                    phase: FramePhase::Idle,
                    previous_frame_end: Some(FrameFuture::Ready),
                    surface: extent,
                    clear_color,
                },
            ),
            Err(fault) => Err(FatalDeviceError { stage: Stage::Setup, fault }),
        }
    }

    /// Takes the outcome of the last action and answers with the next one.
    ///
    /// The answer and the new state are exactly those of [`FrameModel::step`].
    /// An event that the current phase does not wait for changes nothing and
    /// is answered with `Rejected`.
    pub fn vulkan_loop(&mut self, event: FrameEvent<C>) -> (action: FrameAction)
        ensures
            (final(self)@, action) == old(self)@.step(event),
            old(self)@.wf() ==> final(self)@.wf(),
            !old(self)@.expects(event) ==> action == FrameAction::Rejected && final(self)@ == old(
                self,
            )@,
    {
        let phase = self.phase;
        match (phase, event) {
            (FramePhase::Idle, FrameEvent::Begin { resized, surface }) => {
                let stale = resized || self.swapchain.get_recreate();
                self.swapchain.set_recreate(stale);
                self.surface = surface;
                if stale {
                    self.phase = FramePhase::Recreating;
                    FrameAction::Recreate { dimensions: surface }
                } else {
                    self.phase = FramePhase::Acquiring;
                    FrameAction::Acquire
                }
            },
            (FramePhase::Recreating, FrameEvent::Recreated(outcome)) => {
                let dimensions = self.surface;
                match self.swapchain.check_and_recreate(dimensions, outcome) {
                    Ok(_) => {
                        self.phase = FramePhase::Acquiring;
                        FrameAction::Acquire
                    },
                    Err(RecreateFailure::UnsupportedDimensions) => {
                        self.phase = FramePhase::Idle;
                        FrameAction::Finish(FrameEnd::UnsupportedDimensions)
                    },
                    Err(RecreateFailure::Device(fault)) => {
                        self.phase = FramePhase::Idle;
                        FrameAction::Abort(FatalDeviceError { stage: Stage::Recreate, fault })
                    },
                }
            },
            (FramePhase::Acquiring, FrameEvent::Acquired(outcome)) => {
                match self.swapchain.acquire_next(outcome) {
                    Ok(image) => {
                        self.phase = FramePhase::Recording { image_index: image.image_index };
                        FrameAction::Record {
                            image_index: image.image_index,
                            viewport: self.swapchain.viewport(),
                            clear_color: self.clear_color,
                        }
                    },
                    Err(AcquireFailure::OutOfDate) => {
                        self.phase = FramePhase::Idle;
                        FrameAction::Finish(FrameEnd::AcquireOutOfDate)
                    },
                    Err(AcquireFailure::Device(fault)) => {
                        self.phase = FramePhase::Idle;
                        FrameAction::Abort(FatalDeviceError { stage: Stage::Acquire, fault })
                    },
                }
            },
            (FramePhase::Recording { image_index }, FrameEvent::Recorded(outcome)) => {
                match outcome {
                    Ok(_) => {
                        let previous_frame = match self.previous_frame_end {
                            Some(future) => future,
                            None => FrameFuture::Ready,
                        };
                        self.previous_frame_end = None;
                        self.phase = FramePhase::Submitting { image_index };
                        FrameAction::Submit {
                            image_index,
                            wait: WaitSet { previous_frame, image_acquired: image_index },
                        }
                    },
                    Err(fault) => {
                        self.phase = FramePhase::Idle;
                        FrameAction::Abort(FatalDeviceError { stage: Stage::Record, fault })
                    },
                }
            },
            (FramePhase::Submitting { image_index }, FrameEvent::Submitted(outcome)) => {
                match outcome {
                    Ok(_) => {
                        self.phase = FramePhase::Presenting { image_index };
                        FrameAction::Present { image_index }
                    },
                    Err(fault) => {
                        self.previous_frame_end = Some(FrameFuture::Ready);
                        self.phase = FramePhase::Idle;
                        FrameAction::Abort(FatalDeviceError { stage: Stage::Submit, fault })
                    },
                }
            },
            (FramePhase::Presenting { image_index }, FrameEvent::Presented(outcome)) => {
                self.phase = FramePhase::Idle;
                match outcome {
                    PresentOutcome::Presented => {
                        self.previous_frame_end = Some(FrameFuture::Fence { image_index });
                        FrameAction::Finish(FrameEnd::Presented)
                    },
                    PresentOutcome::OutOfDate => {
                        self.swapchain.set_recreate(true);
                        self.previous_frame_end = Some(FrameFuture::Ready);
                        FrameAction::Finish(FrameEnd::PresentOutOfDate)
                    },
                    PresentOutcome::Failed(fault) => {
                        self.previous_frame_end = Some(FrameFuture::Ready);
                        FrameAction::Abort(FatalDeviceError { stage: Stage::Present, fault })
                    },
                }
            },
            _ => FrameAction::Rejected,
        }
    }

    /// The chain manager.
    pub fn swapchain(&self) -> (chain: &SwapchainHandler<C>)
        ensures
            chain@ == self@.chain,
    {
        &self.swapchain
    }

    pub fn phase(&self) -> (phase: FramePhase)
        ensures
            phase == self@.phase,
    {
        self.phase
    }

    /// The live completion future: `Some` between frames, `None` only while a
    /// submission holds it.
    pub fn previous_frame_end(&self) -> (future: Option<FrameFuture>)
        ensures
            future == self@.previous_frame_end,
    {
        self.previous_frame_end
    }

    /// The surface size seen when the current frame began.
    pub fn surface(&self) -> (surface: Extent)
        ensures
            surface == self@.surface,
    {
        self.surface
    }
}

} // verus!
