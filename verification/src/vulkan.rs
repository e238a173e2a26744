//! The steps of a frame that this crate performs itself on a Vulkan device:
//! rebuilding the swapchain, reading the size of its images back, deriving
//! the viewport and a framebuffer for each image, and acquiring the next
//! image.
//!
//! How a framebuffer is made of an image is the caller's to say, and the
//! recording, the submission and the presentation stay with the caller: they
//! need the pipeline, the vertices and the completion futures.

use std::sync::Arc;
use vstd::prelude::*;
use vulkano::image::SwapchainImage;
use vulkano::swapchain::{AcquireError, Swapchain, SwapchainAcquireFuture, SwapchainCreationError};
use crate::chain::{AcquireOutcome, RecreateOutcome};
use crate::config::{EngineConfig, Extent};
use crate::engine::{Engine, EngineModel, LoopAction, LoopEvent};
use crate::error::{AcquireFailure, DeviceFault, FatalDeviceError, RecreateFailure, Stage};
use crate::frame::{FrameAction, FrameEvent};
use crate::laws::{forwarded, signals_staleness};

verus! {

/// `vulkano::swapchain::Swapchain`, carried through and never looked into.
#[verifier::external_type_specification]
#[verifier::external_body]
#[verifier::reject_recursive_types(W)]
pub struct ExSwapchain<W>(Swapchain<W>);

/// `vulkano::image::SwapchainImage`, carried through and never looked into.
#[verifier::external_type_specification]
#[verifier::external_body]
#[verifier::reject_recursive_types(W)]
pub struct ExSwapchainImage<W>(SwapchainImage<W>);

/// `vulkano::swapchain::SwapchainAcquireFuture`, the acquire signal of one
/// image, carried through and never looked into.
#[verifier::external_type_specification]
#[verifier::external_body]
#[verifier::reject_recursive_types(W)]
pub struct ExSwapchainAcquireFuture<W>(SwapchainAcquireFuture<W>);

/// `vulkano::swapchain::SwapchainCreationError`, read only by
/// `recreate_failure`.
#[verifier::external_type_specification]
#[verifier::external_body]
pub struct ExSwapchainCreationError(SwapchainCreationError);

/// `vulkano::swapchain::AcquireError`, read only by `acquire_failure`.
#[verifier::external_type_specification]
#[verifier::external_body]
pub struct ExAcquireError(AcquireError);

/// What is kept per chain on a Vulkan device. `B` is what the caller derives
/// from one image: its view and its framebuffer.
#[verifier::reject_recursive_types(W)]
pub struct ChainResources<W, B> {
    pub chain: Arc<Swapchain<W>>,
    pub images: Vec<Arc<SwapchainImage<W>>>,
    /// One per image, in the images' order.
    pub framebuffers: Vec<B>,
}

impl<W, B> ChainResources<W, B> {
    /// Every image has its framebuffer.
    pub open spec fn wf(self) -> bool {
        self.framebuffers@.len() == self.images@.len()
    }
}

/// What is left for the caller once [`drive`] has done its part.
#[verifier::reject_recursive_types(W)]
pub enum Step<W> {
    /// The device gave an image and `signal` fires when it may be written.
    /// `action` is what the engine made of the image: the recording, or the
    /// wait before the exit where the chain has no such image. The signal is
    /// the caller's to keep or release either way.
    Acquired { action: LoopAction, signal: SwapchainAcquireFuture<W> },
    /// Perform this action.
    Do(LoopAction),
}

/// Calls `Swapchain::recreate`, sets the builder's `dimensions` and builds.
/// Nothing is claimed of the result: it is the device's answer. The call
/// retires `chain` once the device has been asked, but not when the size is
/// refused before that.
#[verifier::external_body]
fn rebuild_chain<W>(chain: &Arc<Swapchain<W>>, dimensions: Extent) -> (r: Result<
    (Arc<Swapchain<W>>, Vec<Arc<SwapchainImage<W>>>),
    SwapchainCreationError,
>) {
    chain.recreate().dimensions([dimensions.width, dimensions.height]).build()
}

/// Tells the variants of `SwapchainCreationError` apart: a refused size,
/// the three faults that have a name here, and the rest. Nothing is claimed
/// of the result.
#[verifier::external_body]
fn recreate_failure(error: SwapchainCreationError) -> (failure: RecreateFailure) {
    match error {
        SwapchainCreationError::UnsupportedDimensions => RecreateFailure::UnsupportedDimensions,
        SwapchainCreationError::OomError(_) => RecreateFailure::Device(DeviceFault::OutOfMemory),
        SwapchainCreationError::DeviceLost => RecreateFailure::Device(DeviceFault::DeviceLost),
        SwapchainCreationError::SurfaceLost => RecreateFailure::Device(DeviceFault::SurfaceLost),
        _ => RecreateFailure::Device(DeviceFault::Other),
    }
}

/// Calls `vulkano::swapchain::acquire_next_image` without a timeout, so the
/// call waits as long as the driver does. Nothing is claimed of the result:
/// it is the device's answer, and the index need not be one of the chain's.
#[verifier::external_body]
fn acquire_image<W>(chain: &Arc<Swapchain<W>>) -> (r: Result<
    (usize, bool, SwapchainAcquireFuture<W>),
    AcquireError,
>) {
    vulkano::swapchain::acquire_next_image(chain.clone(), None)
}

/// Tells the variants of `AcquireError` apart: a chain out of date, the
/// three faults that have a name here, and the rest. Nothing is claimed of
/// the result.
#[verifier::external_body]
fn acquire_failure(error: AcquireError) -> (failure: AcquireFailure) {
    match error {
        AcquireError::OutOfDate => AcquireFailure::OutOfDate,
        AcquireError::OomError(_) => AcquireFailure::Device(DeviceFault::OutOfMemory),
        AcquireError::DeviceLost => AcquireFailure::Device(DeviceFault::DeviceLost),
        AcquireError::SurfaceLost => AcquireFailure::Device(DeviceFault::SurfaceLost),
        _ => AcquireFailure::Device(DeviceFault::Other),
    }
}

/// Calls `SwapchainImage::dimensions` and hands width and height on. Nothing
/// is claimed of the result: it is what the image reports of itself.
#[verifier::external_body]
fn image_extent<W>(image: &Arc<SwapchainImage<W>>) -> (extent: Extent) {
    let dimensions = image.dimensions();
    Extent { width: dimensions[0], height: dimensions[1] }
}

/// The size the first image reports, where there is an image.
pub fn first_image_extent<W>(images: &Vec<Arc<SwapchainImage<W>>>) -> (read: Option<Extent>)
    ensures
        read is Some <==> images@.len() >= 1,
{
    if images.len() == 0 {
        None
    } else {
        Some(image_extent(&images[0]))
    }
}

/// `framebuffers` are what `make` gave for `images`: one for each, in order.
pub open spec fn made_by<W, B, F>(
    make: F,
    images: Seq<Arc<SwapchainImage<W>>>,
    framebuffers: Seq<B>,
) -> bool where F: Fn(&Arc<SwapchainImage<W>>) -> Result<B, DeviceFault> {
    &&& framebuffers.len() == images.len()
    &&& forall|i: int|
        0 <= i < images.len() ==> call_ensures(
            make,
            (&images[i],),
            Ok::<B, DeviceFault>(#[trigger] framebuffers[i]),
        )
}

/// `make` answered the image at `index` with `fault` after it had given a
/// framebuffer for every image before it.
pub open spec fn stopped_at<W, B, F>(
    make: F,
    images: Seq<Arc<SwapchainImage<W>>>,
    index: int,
    fault: DeviceFault,
) -> bool where F: Fn(&Arc<SwapchainImage<W>>) -> Result<B, DeviceFault> {
    &&& 0 <= index < images.len()
    &&& call_ensures(make, (&images[index],), Err::<B, DeviceFault>(fault))
    &&& exists|earlier: Seq<B>| #[trigger] made_by(make, images.take(index), earlier)
}

/// `fault` is the first failure of `make` on `images`, taken in order.
pub open spec fn refused_by<W, B, F>(
    make: F,
    images: Seq<Arc<SwapchainImage<W>>>,
    fault: DeviceFault,
) -> bool where F: Fn(&Arc<SwapchainImage<W>>) -> Result<B, DeviceFault> {
    exists|index: int| #[trigger] stopped_at::<W, B, F>(make, images, index, fault)
}

/// Derives what depends on the size of the images: the viewport, which is
/// the size of the first image, and a framebuffer for each image, in order.
/// It stops at the first framebuffer that cannot be had.
///
/// `first_extent` is the size read from the first image. All images of a
/// chain share it.
pub fn window_size_dependent_setup<W, B, F>(
    images: &Vec<Arc<SwapchainImage<W>>>,
    first_extent: Extent,
    make: &F,
) -> (r: Result<(Extent, Vec<B>), DeviceFault>) where
    F: Fn(&Arc<SwapchainImage<W>>) -> Result<B, DeviceFault>,

    requires
        images@.len() >= 1,
        forall|i: int| 0 <= i < images@.len() ==> call_requires(*make, (&#[trigger] images@[i],)),
    ensures
        r matches Ok((viewport, framebuffers)) ==> viewport == first_extent && made_by(
            *make,
            images@,
            framebuffers@,
        ),
        r matches Err(fault) ==> refused_by::<W, B, F>(*make, images@, fault),
{
    let mut framebuffers: Vec<B> = Vec::new();
    let mut next: usize = 0;
    while next < images.len()
        invariant
            next <= images@.len(),
            framebuffers@.len() == next,
            forall|i: int|
                0 <= i < images@.len() ==> call_requires(*make, (&#[trigger] images@[i],)),
            forall|i: int|
                0 <= i < next ==> call_ensures(
                    *make,
                    (&images@[i],),
                    Ok::<B, DeviceFault>(#[trigger] framebuffers@[i]),
                ),
        decreases images@.len() - next,
    {
        match make(&images[next]) {
            Ok(framebuffer) => {
                framebuffers.push(framebuffer);
            },
            Err(fault) => {
                proof {
                    let index = next as int;
                    assert(made_by(*make, images@.take(index), framebuffers@));
                    assert(stopped_at::<W, B, F>(*make, images@, index, fault));
                }
                return Err(fault);
            },
        }
        next = next + 1;
    }
    Ok((first_extent, framebuffers))
}

/// A rebuilt chain comes with a framebuffer for each image, and its image
/// count is the number of its images.
pub open spec fn well_built<W, B>(outcome: RecreateOutcome<ChainResources<W, B>>) -> bool {
    outcome matches RecreateOutcome::Rebuilt { resources, image_count, .. } ==> resources.wf()
        && image_count == resources.images@.len()
}

/// The engine counts the images it really holds, each with its framebuffer,
/// so an image index it hands out is an index into both.
pub open spec fn fits<W, B>(engine: EngineModel<ChainResources<W, B>>) -> bool {
    let chain = engine.graphics.chain;
    chain.resources.wf() && chain.image_count == chain.resources.images@.len()
}

/// An event that cannot break [`fits`].
pub open spec fn event_fits<W, B>(event: LoopEvent<ChainResources<W, B>>) -> bool {
    event matches LoopEvent::Gpu(FrameEvent::Recreated(outcome)) ==> well_built(outcome)
}

/// `outcome` is what becomes of `built`, the device's answer to the rebuild,
/// and of `first_extent`, the size read from the first of the new images.
///
/// A refusal is reported as it is. A swapchain without images, or one whose
/// first image gave no size, is the fault `NoImages`. Any other is reported
/// with its images, their number, the size read and the framebuffers `make`
/// gave, or, where `make` failed on an image, as the fault it failed with.
pub open spec fn derived<W, B, F>(
    built: Result<(Arc<Swapchain<W>>, Vec<Arc<SwapchainImage<W>>>), RecreateFailure>,
    first_extent: Option<Extent>,
    make: F,
    outcome: RecreateOutcome<ChainResources<W, B>>,
) -> bool where F: Fn(&Arc<SwapchainImage<W>>) -> Result<B, DeviceFault> {
    match built {
        Err(failure) => outcome == RecreateOutcome::<ChainResources<W, B>>::refusal(failure),
        Ok((chain, images)) => if images@.len() == 0 || first_extent is None {
            outcome == RecreateOutcome::<ChainResources<W, B>>::Failed(DeviceFault::NoImages)
        } else {
            match outcome {
                RecreateOutcome::Rebuilt { resources, image_count, extent } => {
                    &&& resources.chain == chain
                    &&& resources.images == images
                    &&& image_count == images@.len()
                    &&& Some(extent) == first_extent
                    &&& made_by(make, images@, resources.framebuffers@)
                },
                RecreateOutcome::Failed(fault) => refused_by::<W, B, F>(make, images@, fault),
                RecreateOutcome::UnsupportedDimensions => false,
            }
        },
    }
}

/// Turns the device's answer to a rebuild into the outcome the engine takes:
/// derives viewport and framebuffers of a new swapchain's images, or hands
/// the refusal on.
pub fn derive_chain<W, B, F>(
    built: Result<(Arc<Swapchain<W>>, Vec<Arc<SwapchainImage<W>>>), RecreateFailure>,
    first_extent: Option<Extent>,
    make: &F,
) -> (outcome: RecreateOutcome<ChainResources<W, B>>) where
    F: Fn(&Arc<SwapchainImage<W>>) -> Result<B, DeviceFault>,

    requires
        built matches Ok((_, images)) ==> forall|i: int|
            0 <= i < images@.len() ==> call_requires(*make, (&#[trigger] images@[i],)),
    ensures
        derived(built, first_extent, *make, outcome),
        well_built(outcome),
{
    match built {
        Ok((chain, images)) => {
            let read = match first_extent {
                Some(read) => read,
                None => {
                    return RecreateOutcome::Failed(DeviceFault::NoImages);
                },
            };
            if images.len() == 0 {
                return RecreateOutcome::Failed(DeviceFault::NoImages);
            }
            match window_size_dependent_setup(&images, read, make) {
                Ok((extent, framebuffers)) => {
                    let image_count = images.len();
                    RecreateOutcome::Rebuilt {
                        resources: ChainResources { chain, images, framebuffers },
                        image_count,
                        extent,
                    }
                },
                Err(fault) => RecreateOutcome::Failed(fault),
            }
        },
        Err(failure) => RecreateOutcome::refused(failure),
    }
}

/// Asks the device for a swapchain of size `dimensions`, reads the size of
/// its first image back and derives viewport and framebuffers. `current`
/// itself is only read; the device retires its swapchain once it has been
/// asked, unless it refuses the size first.
///
/// Whether the device builds a swapchain, and of what size, is its own
/// answer. Whatever it answers, the outcome is what [`derive_chain`] makes
/// of that answer: a rebuilt chain holds the swapchain and the images the
/// device gave, counts those images, carries the size read from the first
/// and has for each image the framebuffer `make` gave. Whether that size is
/// the one asked for is settled where the outcome is taken.
pub fn rebuild<W, B, F>(current: &ChainResources<W, B>, dimensions: Extent, make: &F) -> (outcome:
    RecreateOutcome<ChainResources<W, B>>) where
    F: Fn(&Arc<SwapchainImage<W>>) -> Result<B, DeviceFault>,

    requires
        forall|image: &Arc<SwapchainImage<W>>| call_requires(*make, (image,)),
    ensures
        well_built(outcome),
        exists|
            built: Result<(Arc<Swapchain<W>>, Vec<Arc<SwapchainImage<W>>>), RecreateFailure>,
            first_extent: Option<Extent>,
        | #[trigger] derived(built, first_extent, *make, outcome),
        outcome matches RecreateOutcome::Rebuilt { resources, image_count, .. } ==> {
            &&& image_count >= 1
            &&& image_count == resources.images@.len()
            &&& made_by(*make, resources.images@, resources.framebuffers@)
        },
{
    let (built, first_extent) = match rebuild_chain(&current.chain, dimensions) {
        Ok((chain, images)) => {
            let first_extent = first_image_extent(&images);
            (Ok((chain, images)), first_extent)
        },
        Err(error) => (Err(recreate_failure(error)), None),
    };
    let outcome = derive_chain(built, first_extent, make);
    assert(derived(built, first_extent, *make, outcome));
    outcome
}

/// `after` and `step` are what the acquisition `outcome` leaves of `waiting`:
/// the signal is handed on exactly when the device gave an image, whatever
/// the engine made of it.
pub open spec fn settles_acquire<W, B>(
    waiting: EngineModel<ChainResources<W, B>>,
    outcome: AcquireOutcome,
    after: EngineModel<ChainResources<W, B>>,
    step: Step<W>,
) -> bool {
    let (next, answer) = waiting.step(LoopEvent::Gpu(FrameEvent::Acquired(outcome)));
    &&& after == next
    &&& match step {
        Step::Acquired { action, .. } => action == answer && outcome is Acquired,
        Step::Do(action) => action == answer && !(outcome is Acquired),
    }
}

/// `after` and `step` are what is left of `waiting` once its `answer` has
/// been carried out as far as an acquisition goes.
pub open spec fn acquiring<W, B>(
    waiting: EngineModel<ChainResources<W, B>>,
    answer: LoopAction,
    after: EngineModel<ChainResources<W, B>>,
    step: Step<W>,
) -> bool {
    if answer == LoopAction::Gpu(FrameAction::Acquire) {
        exists|outcome: AcquireOutcome| #[trigger] settles_acquire(waiting, outcome, after, step)
    } else {
        after == waiting && step == Step::<W>::Do(answer)
    }
}

/// `after` and `step` are what the rebuild `outcome` leaves of `waiting`.
pub open spec fn settles_rebuild<W, B>(
    waiting: EngineModel<ChainResources<W, B>>,
    outcome: RecreateOutcome<ChainResources<W, B>>,
    after: EngineModel<ChainResources<W, B>>,
    step: Step<W>,
) -> bool {
    let (next, answer) = waiting.step(LoopEvent::Gpu(FrameEvent::Recreated(outcome)));
    well_built(outcome) && acquiring(next, answer, after, step)
}

/// What [`drive`] may leave of `before` on `event`: the engine's own answer,
/// with a rebuild and an acquisition already settled for some outcome.
pub open spec fn driven<W, B>(
    before: EngineModel<ChainResources<W, B>>,
    event: LoopEvent<ChainResources<W, B>>,
    after: EngineModel<ChainResources<W, B>>,
    step: Step<W>,
) -> bool {
    let (waiting, answer) = before.step(event);
    if answer is Gpu && answer->Gpu_0 is Recreate {
        exists|outcome: RecreateOutcome<ChainResources<W, B>>| #[trigger]
            settles_rebuild(waiting, outcome, after, step)
    } else {
        acquiring(waiting, answer, after, step)
    }
}

/// Carries out an acquisition where `answer` asks for one.
fn settle<W, B>(engine: &mut Engine<ChainResources<W, B>>, answer: LoopAction) -> (step: Step<W>)
    ensures
        acquiring(old(engine)@, answer, final(engine)@, step),
        old(engine)@.wf() ==> final(engine)@.wf(),
        fits(old(engine)@) ==> fits(final(engine)@),
{
    let ghost waiting = engine@;
    match answer {
        LoopAction::Gpu(FrameAction::Acquire) => {
            match acquire_image(&engine.graphics().swapchain().resources().chain) {
                Ok((image_index, suboptimal, signal)) => {
                    let outcome = AcquireOutcome::Acquired { image_index, suboptimal };
                    let action = engine.run(LoopEvent::Gpu(FrameEvent::Acquired(outcome)));
                    let step = Step::Acquired { action, signal };
                    assert(settles_acquire(waiting, outcome, engine@, step));
                    step
                },
                Err(error) => {
                    let outcome = AcquireOutcome::refused(acquire_failure(error));
                    let action = engine.run(LoopEvent::Gpu(FrameEvent::Acquired(outcome)));
                    let step = Step::Do(action);
                    assert(settles_acquire(waiting, outcome, engine@, step));
                    step
                },
            }
        },
        _ => Step::Do(answer),
    }
}

/// Takes `event` to the engine and performs what it can of the answer.
///
/// A rebuild and an acquisition are carried out here, on the chain the
/// engine holds, and their outcomes go straight back to the engine: the
/// device is asked for the size the engine names, the size of the first new
/// image is read back, and the engine takes the new chain only where the
/// two agree. Whatever the device answers, the engine ends in a state and
/// with an action that its own transition function gives for some outcome.
/// Every other action comes back untouched, so what comes back is never a
/// request to rebuild or to acquire.
pub fn drive<W, B, F>(
    engine: &mut Engine<ChainResources<W, B>>,
    event: LoopEvent<ChainResources<W, B>>,
    make: &F,
) -> (step: Step<W>) where F: Fn(&Arc<SwapchainImage<W>>) -> Result<B, DeviceFault>
    requires
        forall|image: &Arc<SwapchainImage<W>>| call_requires(*make, (image,)),
    ensures
        driven(old(engine)@, event, final(engine)@, step),
        old(engine)@.wf() ==> final(engine)@.wf(),
        fits(old(engine)@) && event_fits(event) ==> fits(final(engine)@),
        old(engine)@.wf() ==> !(step matches Step::Do(LoopAction::Gpu(action)) && (
        action is Recreate || action is Acquire)),
{
    let answer = engine.run(event);
    let ghost waiting = engine@;
    match answer {
        LoopAction::Gpu(FrameAction::Recreate { dimensions }) => {
            let outcome = rebuild(
                engine.graphics().swapchain().resources(),
                dimensions,
                make,
            );
            let ghost settled = outcome;
            let next = engine.run(LoopEvent::Gpu(FrameEvent::Recreated(outcome)));
            let step = settle(engine, next);
            assert(settles_rebuild(waiting, settled, engine@, step));
            step
        },
        _ => settle(engine, answer),
    }
}

/// `r` is what becomes of a swapchain created for `extent` whose first image
/// gave the size `first_extent`.
///
/// A swapchain without images, or one whose first image gave no size, is the
/// setup failure `NoImages`; images of another size than `extent` are the
/// setup failure `ExtentMismatch`. Otherwise an engine is owed unless `make`
/// fails, and its first failure is a setup failure with the fault it gave.
pub open spec fn assembled<W, B, F>(
    config: EngineConfig,
    chain: Arc<Swapchain<W>>,
    images: Vec<Arc<SwapchainImage<W>>>,
    extent: Extent,
    first_extent: Option<Extent>,
    make: F,
    r: Result<Engine<ChainResources<W, B>>, FatalDeviceError>,
) -> bool where F: Fn(&Arc<SwapchainImage<W>>) -> Result<B, DeviceFault> {
    if images@.len() == 0 || first_extent is None {
        r matches Err(error) && error == (FatalDeviceError {
            stage: Stage::Setup,
            fault: DeviceFault::NoImages,
        })
    } else if first_extent != Some(extent) {
        r matches Err(error) && error == (FatalDeviceError {
            stage: Stage::Setup,
            fault: DeviceFault::ExtentMismatch,
        })
    } else {
        match r {
            Ok(engine) => {
                let held = engine@.graphics.chain.resources;
                &&& engine@ == EngineModel::initial(config, held, extent, images@.len())
                &&& held.chain == chain
                &&& held.images == images
                &&& made_by(make, images@, held.framebuffers@)
                &&& engine@.wf()
                &&& fits(engine@)
            },
            Err(error) => error.stage == Stage::Setup && refused_by::<W, B, F>(
                make,
                images@,
                error.fault,
            ),
        }
    }
}

/// Builds the engine around a swapchain that was created for `extent` and
/// whose first image gave the size `first_extent`: derives viewport and
/// framebuffers and starts between frames.
pub fn assemble_from<W, B, F>(
    config: EngineConfig,
    chain: Arc<Swapchain<W>>,
    images: Vec<Arc<SwapchainImage<W>>>,
    extent: Extent,
    first_extent: Option<Extent>,
    make: &F,
) -> (r: Result<Engine<ChainResources<W, B>>, FatalDeviceError>) where
    F: Fn(&Arc<SwapchainImage<W>>) -> Result<B, DeviceFault>,

    requires
        forall|i: int| 0 <= i < images@.len() ==> call_requires(*make, (&#[trigger] images@[i],)),
    ensures
        assembled(config, chain, images, extent, first_extent, *make, r),
{
    let read = match first_extent {
        Some(read) => read,
        None => {
            return Err(FatalDeviceError { stage: Stage::Setup, fault: DeviceFault::NoImages });
        },
    };
    if images.len() == 0 {
        return Err(FatalDeviceError { stage: Stage::Setup, fault: DeviceFault::NoImages });
    }
    if read != extent {
        return Err(FatalDeviceError { stage: Stage::Setup, fault: DeviceFault::ExtentMismatch });
    }
    match window_size_dependent_setup(&images, read, make) {
        Ok((viewport, framebuffers)) => {
            let image_count = images.len();
            Engine::new(
                config,
                ChainResources { chain, images, framebuffers },
                viewport,
                image_count,
            )
        },
        Err(fault) => Err(FatalDeviceError { stage: Stage::Setup, fault }),
    }
}

/// Builds the engine around a swapchain that was just created for `extent`:
/// reads the size of its first image back, derives viewport and framebuffers
/// and starts between frames.
///
/// What the first image reports is the device's answer. Whatever it is, the
/// result is what [`assemble_from`] makes of it. A swapchain without images
/// is a setup failure of its own, and an engine, where there is one, stands
/// on images of size `extent` with a viewport of that size and a framebuffer
/// from `make` for each image.
pub fn assemble<W, B, F>(
    config: EngineConfig,
    chain: Arc<Swapchain<W>>,
    images: Vec<Arc<SwapchainImage<W>>>,
    extent: Extent,
    make: &F,
) -> (r: Result<Engine<ChainResources<W, B>>, FatalDeviceError>) where
    F: Fn(&Arc<SwapchainImage<W>>) -> Result<B, DeviceFault>,

    requires
        forall|i: int| 0 <= i < images@.len() ==> call_requires(*make, (&#[trigger] images@[i],)),
    ensures
        exists|first_extent: Option<Extent>|
            (first_extent is Some <==> images@.len() >= 1) && #[trigger] assembled(
                config,
                chain,
                images,
                extent,
                first_extent,
                *make,
                r,
            ),
        r matches Ok(engine) ==> {
            let held = engine@.graphics.chain.resources;
            &&& images@.len() >= 1
            &&& engine@ == EngineModel::initial(config, held, extent, images@.len())
            &&& held.chain == chain
            &&& held.images == images
            &&& made_by(*make, images@, held.framebuffers@)
            &&& engine@.wf()
            &&& fits(engine@)
        },
        r matches Err(error) ==> {
            &&& error.stage == Stage::Setup
            &&& (images@.len() == 0 && error.fault == DeviceFault::NoImages) || (images@.len() >= 1
                && error.fault == DeviceFault::ExtentMismatch) || refused_by::<W, B, F>(
                *make,
                images@,
                error.fault,
            )
        },
        images@.len() == 0 ==> (r matches Err(error) && error == (FatalDeviceError {
            stage: Stage::Setup,
            fault: DeviceFault::NoImages,
        })),
{
    let first_extent = first_image_extent(&images);
    let r = assemble_from(config, chain, images, extent, first_extent, make);
    assert(assembled(config, chain, images, extent, first_extent, *make, r));
    r
}

/// Driving the engine without a resize or a staleness signal never rebuilds:
/// the swapchain, its images and their framebuffers stay the ones held
/// before, whatever the device answers to the acquisition.
pub proof fn quiet_drive_keeps_chain<W, B>(
    before: EngineModel<ChainResources<W, B>>,
    event: LoopEvent<ChainResources<W, B>>,
    after: EngineModel<ChainResources<W, B>>,
    step: Step<W>,
)
    requires
        before.wf(),
        !before.graphics.chain.stale,
        forwarded(before, event) matches Some(frame_event) ==> !signals_staleness(frame_event),
        driven(before, event, after, step),
    ensures
        after.graphics.chain.resources == before.graphics.chain.resources,
        after.graphics.chain.extent == before.graphics.chain.extent,
        after.graphics.chain.image_count == before.graphics.chain.image_count,
{
    let (waiting, answer) = before.step(event);
    if answer == LoopAction::Gpu(FrameAction::Acquire) {
        let outcome = choose|outcome: AcquireOutcome|
            #[trigger] settles_acquire(waiting, outcome, after, step);
        assert(settles_acquire(waiting, outcome, after, step));
    }
}

/// Driving a new loop iteration either keeps the chain that was held, size
/// and all, or leaves a new one that the engine took because the size that
/// came with it is the surface's size of that very iteration; chain and
/// viewport then have that size. In [`drive`] the size that comes with a new
/// chain is the one its first image reports.
pub proof fn drive_rebuilds_for_surface<W, B>(
    before: EngineModel<ChainResources<W, B>>,
    resized: bool,
    surface: Extent,
    after: EngineModel<ChainResources<W, B>>,
    step: Step<W>,
)
    requires
        before.wf(),
        before.phase is Polling,
        driven(before, LoopEvent::Polled { quit: false, resized, surface }, after, step),
    ensures
        ({
            let held = before.graphics.chain;
            let left = after.graphics.chain;
            ||| left.resources == held.resources && left.extent == held.extent && left.viewport
                == held.viewport && left.image_count == held.image_count
            ||| left.extent == surface && left.viewport == surface && left.resources.wf()
                && left.image_count == left.resources.images@.len()
        }),
{
    let event = LoopEvent::Polled { quit: false, resized, surface };
    let (waiting, answer) = before.step(event);
    if answer is Gpu && answer->Gpu_0 is Recreate {
        let rebuild = choose|outcome: RecreateOutcome<ChainResources<W, B>>|
            #[trigger] settles_rebuild(waiting, outcome, after, step);
        assert(settles_rebuild(waiting, rebuild, after, step));
        let (next, then) = waiting.step(LoopEvent::Gpu(FrameEvent::Recreated(rebuild)));
        if then == LoopAction::Gpu(FrameAction::Acquire) {
            let outcome = choose|outcome: AcquireOutcome|
                #[trigger] settles_acquire(next, outcome, after, step);
            assert(settles_acquire(next, outcome, after, step));
        }
    } else if answer == LoopAction::Gpu(FrameAction::Acquire) {
        let outcome = choose|outcome: AcquireOutcome|
            #[trigger] settles_acquire(waiting, outcome, after, step);
        assert(settles_acquire(waiting, outcome, after, step));
    }
}

} // verus!
