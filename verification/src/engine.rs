//! The outer loop: poll, draw one frame, pace, and on quit or on a fatal
//! device error wait for the device before leaving.

use vstd::prelude::*;
use crate::chain::ChainModel;
use crate::config::{EngineConfig, Extent};
use crate::error::{DeviceFault, FatalDeviceError, Stage};
use crate::frame::{FrameAction, FrameEvent, FrameModel, GraphicsHandler};

verus! {

/// Where in an iteration the loop stands.
#[derive(Clone, Copy, Debug, PartialEq, Eq, Structural)]
pub enum LoopPhase {
    /// Waiting for the polled window events.
    Polling,
    /// A frame is under way.
    Drawing,
    /// Waiting for the pacing delay.
    Pacing,
    /// Waiting for the device to fall idle before teardown.
    Draining,
    Stopped,
}

/// What the caller reports to the loop.
pub enum LoopEvent<C> {
    /// The window events of this iteration, and the surface's size now.
    Polled { quit: bool, resized: bool, surface: Extent },
    /// How the GPU operation last asked for ended.
    Gpu(FrameEvent<C>),
    /// The pacing delay is over.
    Paced,
    /// The device is idle.
    Idled,
}

/// What the loop asks the caller to do next.
#[derive(Clone, Copy, Debug, PartialEq, Eq, Structural)]
pub enum LoopAction {
    /// Poll the window's events and read the surface size.
    Poll,
    /// Perform this GPU operation.
    Gpu(FrameAction),
    /// Delay to cap the frame rate.
    Pace,
    /// Wait until the device has finished all submitted work.
    WaitIdle,
    /// Release everything and leave, with the error that ended the loop if
    /// one did.
    Exit(Option<FatalDeviceError>),
    /// The event does not belong to the current phase. Nothing changed.
    Rejected,
}

/// What the engine is, mathematically.
pub struct EngineModel<C> {
    pub graphics: FrameModel<C>,
    pub phase: LoopPhase,
    /// The fatal error that ended the loop, once one has.
    pub failure: Option<FatalDeviceError>,
    pub config: EngineConfig,
}

impl<C> EngineModel<C> {
    /// An engine about to poll for the first time, on a fresh chain of
    /// `image_count` images of size `extent`.
    pub open spec fn initial(
        config: EngineConfig,
        resources: C,
        extent: Extent,
        image_count: nat,
    ) -> EngineModel<C> {
        EngineModel {
            graphics: FrameModel::initial(
                ChainModel::fresh(resources, extent, image_count),
                config.clear_color,
            ),
            phase: LoopPhase::Polling,
            failure: None,
            config,
        }
    }

    /// The states the engine can be in: frames are cleared to the configured
    /// colour, a frame is under way exactly while the loop is drawing, and an
    /// error is kept only once the loop is ending.
    pub open spec fn wf(self) -> bool {
        &&& self.graphics.wf()
        &&& self.graphics.clear_color == self.config.clear_color
        &&& self.phase is Drawing <==> !(self.graphics.phase is Idle)
        &&& self.failure is Some ==> self.phase is Draining || self.phase is Stopped
    }

    /// What the loop does with the frame engine's answer.
    pub open spec fn dispatch(self, graphics: FrameModel<C>, answer: FrameAction) -> (
        EngineModel<C>,
        LoopAction,
    ) {
        match answer {
            FrameAction::Rejected => (self, LoopAction::Rejected),
            FrameAction::Finish(_) => (
                EngineModel { graphics, phase: LoopPhase::Pacing, ..self },
                LoopAction::Pace,
            ),
            FrameAction::Abort(error) => (
                EngineModel { graphics, phase: LoopPhase::Draining, failure: Some(error), ..self },
                LoopAction::WaitIdle,
            ),
            _ => (
                EngineModel { graphics, phase: LoopPhase::Drawing, ..self },
                LoopAction::Gpu(answer),
            ),
        }
    }

    /// The frame engine's state and answer for the GPU part of `event`.
    pub open spec fn forward(self, event: FrameEvent<C>) -> (EngineModel<C>, LoopAction) {
        let (graphics, answer) = self.graphics.step(event);
        self.dispatch(graphics, answer)
    }

    /// The loop's whole behaviour: the state after `event` and the action it
    /// answers with.
    pub open spec fn step(self, event: LoopEvent<C>) -> (EngineModel<C>, LoopAction) {
        match (self.phase, event) {
            (LoopPhase::Stopped, _) => (self, LoopAction::Exit(self.failure)),
            (LoopPhase::Polling, LoopEvent::Polled { quit, resized, surface }) => if quit {
                (EngineModel { phase: LoopPhase::Draining, ..self }, LoopAction::WaitIdle)
            } else {
                self.forward(FrameEvent::Begin { resized, surface })
            },
            (LoopPhase::Drawing, LoopEvent::Gpu(outcome)) => self.forward(outcome),
            (LoopPhase::Pacing, LoopEvent::Paced) => (
                EngineModel { phase: LoopPhase::Polling, ..self },
                LoopAction::Poll,
            ),
            (LoopPhase::Draining, LoopEvent::Idled) => (
                EngineModel { phase: LoopPhase::Stopped, ..self },
                LoopAction::Exit(self.failure),
            ),
            _ => (self, LoopAction::Rejected),
        }
    }
}

/// Owns the whole render state and runs the loop over it.
pub struct Engine<C> {
    graphics: GraphicsHandler<C>,
    phase: LoopPhase,
    failure: Option<FatalDeviceError>,
    config: EngineConfig,
}

impl<C> View for Engine<C> {
    type V = EngineModel<C>;

    closed spec fn view(&self) -> EngineModel<C> {
        EngineModel {
            graphics: self.graphics@,
            phase: self.phase,
            failure: self.failure,
            config: self.config,
        }
    }
}

impl<C> Engine<C> {
    /// An engine about to poll for the first time, on a chain that was just
    /// built for `extent`. A chain without images is a setup failure.
    pub fn new(config: EngineConfig, resources: C, extent: Extent, image_count: usize) -> (r:
        Result<Engine<C>, FatalDeviceError>)
        ensures
            image_count >= 1 ==> (r matches Ok(engine) && engine@ == EngineModel::initial(
                config,
                resources,
                extent,
                image_count as nat,
            ) && engine@.wf()),
            image_count == 0 ==> r == Err::<Engine<C>, FatalDeviceError>(
                FatalDeviceError { stage: Stage::Setup, fault: DeviceFault::NoImages },
            ),
    {
        match GraphicsHandler::new(resources, extent, image_count, config.clear_color) {
            Ok(graphics) => Ok(Engine { graphics, phase: LoopPhase::Polling, failure: None, config }),
            Err(error) => Err(error),
        }
    }

    /// Takes the outcome of the last action and answers with the next one.
    ///
    /// The answer and the new state are exactly those of
    /// [`EngineModel::step`]. A quit is taken only between frames and is
    /// answered with `WaitIdle`; `Exit` comes only after the device is idle.
    pub fn run(&mut self, event: LoopEvent<C>) -> (action: LoopAction)
        ensures
            (final(self)@, action) == old(self)@.step(event),
            old(self)@.wf() ==> final(self)@.wf(),
            action is Exit ==> (old(self)@.phase is Draining && event is Idled) || old(
                self,
            )@.phase is Stopped,
    {
        let phase = self.phase;
        match (phase, event) {
            (LoopPhase::Stopped, _) => LoopAction::Exit(self.failure),
            (LoopPhase::Polling, LoopEvent::Polled { quit, resized, surface }) => {
                if quit {
                    self.phase = LoopPhase::Draining;
                    LoopAction::WaitIdle
                } else {
                    self.forward(FrameEvent::Begin { resized, surface })
                }
            },
            (LoopPhase::Drawing, LoopEvent::Gpu(outcome)) => self.forward(outcome),
            (LoopPhase::Pacing, LoopEvent::Paced) => {
                self.phase = LoopPhase::Polling;
                LoopAction::Poll
            },
            (LoopPhase::Draining, LoopEvent::Idled) => {
                self.phase = LoopPhase::Stopped;
                LoopAction::Exit(self.failure)
            },
            _ => LoopAction::Rejected,
        }
    }

    /// Hands `event` to the frame engine and turns its answer into the
    /// loop's.
    fn forward(&mut self, event: FrameEvent<C>) -> (action: LoopAction)
        ensures
            (final(self)@, action) == old(self)@.forward(event),
    {
        let answer = self.graphics.vulkan_loop(event);
        match answer {
            FrameAction::Rejected => LoopAction::Rejected,
            FrameAction::Finish(_) => {
                self.phase = LoopPhase::Pacing;
                LoopAction::Pace
            },
            FrameAction::Abort(error) => {
                self.failure = Some(error);
                self.phase = LoopPhase::Draining;
                LoopAction::WaitIdle
            },
            _ => {
                self.phase = LoopPhase::Drawing;
                LoopAction::Gpu(answer)
            },
        }
    }

    /// The frame engine.
    pub fn graphics(&self) -> (graphics: &GraphicsHandler<C>)
        ensures
            graphics@ == self@.graphics,
    {
        &self.graphics
    }

    pub fn phase(&self) -> (phase: LoopPhase)
        ensures
            phase == self@.phase,
    {
        self.phase
    }

    pub fn config(&self) -> (config: EngineConfig)
        ensures
            config == self@.config,
    {
        self.config
    }

    /// The fatal error that ended the loop, once one has.
    pub fn failure(&self) -> (failure: Option<FatalDeviceError>)
        ensures
            failure == self@.failure,
    {
        self.failure
    }
}

} // verus!
