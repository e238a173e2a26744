use frame_engine::chain::{AcquireOutcome, AcquiredImage, RecreateOutcome, SwapchainHandler};
use frame_engine::config::Extent;
use frame_engine::error::{AcquireFailure, DeviceFault, RecreateFailure};

fn chain(resources: u32, width: u32, height: u32, images: usize) -> SwapchainHandler<u32> {
    match SwapchainHandler::new(resources, Extent::new(width, height), images) {
        Ok(handler) => handler,
        Err(fault) => panic!("no chain: {:?}", fault),
    }
}

#[test]
fn fresh_chain_is_not_stale_and_viewport_covers_it() {
    let handler = chain(1, 800, 600, 3);
    assert!(!handler.get_recreate());
    assert_eq!(handler.extent(), Extent::new(800, 600));
    assert_eq!(handler.viewport(), Extent::new(800, 600));
    assert_eq!(handler.image_count(), 3);
    assert_eq!(*handler.resources(), 1);
}

#[test]
fn chain_without_images_is_refused() {
    assert!(matches!(
        SwapchainHandler::new(1u32, Extent::new(800, 600), 0),
        Err(DeviceFault::NoImages)
    ));
}

#[test]
fn set_recreate_sets_only_the_flag() {
    let mut handler = chain(1, 800, 600, 3);
    handler.set_recreate(true);
    assert!(handler.get_recreate());
    assert_eq!(handler.extent(), Extent::new(800, 600));
    assert_eq!(handler.viewport(), Extent::new(800, 600));
    assert_eq!(handler.image_count(), 3);
    assert_eq!(*handler.resources(), 1);
    handler.set_recreate(false);
    assert!(!handler.get_recreate());
}

#[test]
fn recreate_on_fresh_chain_does_nothing() {
    let mut handler = chain(1, 800, 600, 3);
    let r = handler.check_and_recreate(
        Extent::new(400, 300),
        RecreateOutcome::Rebuilt { resources: 2, image_count: 2, extent: Extent::new(400, 300) },
    );
    assert_eq!(r, Ok(()));
    assert_eq!(*handler.resources(), 1);
    assert_eq!(handler.extent(), Extent::new(800, 600));
    assert_eq!(handler.image_count(), 3);
    let r = handler.check_and_recreate(Extent::new(0, 0), RecreateOutcome::UnsupportedDimensions);
    assert_eq!(r, Ok(()));
    assert!(!handler.get_recreate());
}

#[test]
fn successful_recreate_replaces_chain_and_clears_flag() {
    let mut handler = chain(1, 800, 600, 3);
    handler.set_recreate(true);
    let r = handler.check_and_recreate(
        Extent::new(400, 300),
        RecreateOutcome::Rebuilt { resources: 2, image_count: 2, extent: Extent::new(400, 300) },
    );
    assert_eq!(r, Ok(()));
    assert!(!handler.get_recreate());
    assert_eq!(*handler.resources(), 2);
    assert_eq!(handler.image_count(), 2);
    assert_eq!(handler.extent(), Extent::new(400, 300));
}

#[test]
fn viewport_matches_chain_after_recreate() {
    let mut handler = chain(1, 800, 600, 3);
    handler.set_recreate(true);
    let r = handler.check_and_recreate(
        Extent::new(1024, 768),
        RecreateOutcome::Rebuilt { resources: 5, image_count: 3, extent: Extent::new(1024, 768) },
    );
    assert_eq!(r, Ok(()));
    assert_eq!(handler.viewport(), Extent::new(1024, 768));
    assert_eq!(handler.viewport(), handler.extent());
}

#[test]
fn unsupported_dimensions_leave_chain_intact_and_stale() {
    let mut handler = chain(7, 800, 600, 3);
    handler.set_recreate(true);
    let r = handler.check_and_recreate(Extent::new(0, 0), RecreateOutcome::UnsupportedDimensions);
    assert_eq!(r, Err(RecreateFailure::UnsupportedDimensions));
    assert!(handler.get_recreate());
    assert_eq!(*handler.resources(), 7);
    assert_eq!(handler.extent(), Extent::new(800, 600));
    assert_eq!(handler.viewport(), Extent::new(800, 600));
    assert_eq!(handler.image_count(), 3);
}

#[test]
fn device_fault_during_recreate_is_reported() {
    let mut handler = chain(7, 800, 600, 3);
    handler.set_recreate(true);
    let r = handler.check_and_recreate(
        Extent::new(400, 300),
        RecreateOutcome::Failed(DeviceFault::DeviceLost),
    );
    assert_eq!(r, Err(RecreateFailure::Device(DeviceFault::DeviceLost)));
    assert!(handler.get_recreate());
    assert_eq!(*handler.resources(), 7);
    assert_eq!(handler.extent(), Extent::new(800, 600));
}

#[test]
fn rebuilt_chain_without_images_is_a_fault() {
    let mut handler = chain(7, 800, 600, 3);
    handler.set_recreate(true);
    let r = handler.check_and_recreate(
        Extent::new(400, 300),
        RecreateOutcome::Rebuilt { resources: 8, image_count: 0, extent: Extent::new(400, 300) },
    );
    assert_eq!(r, Err(RecreateFailure::Device(DeviceFault::NoImages)));
    assert!(handler.get_recreate());
    assert_eq!(*handler.resources(), 7);
    assert_eq!(handler.image_count(), 3);
}

#[test]
fn two_images_of_400_by_300_leave_a_viewport_of_400_by_300() {
    let mut handler = chain(1, 800, 600, 3);
    assert_eq!(handler.viewport(), Extent::new(800, 600));
    handler.set_recreate(true);
    let r = handler.check_and_recreate(
        Extent::new(400, 300),
        RecreateOutcome::Rebuilt { resources: 2, image_count: 2, extent: Extent::new(400, 300) },
    );
    assert_eq!(r, Ok(()));
    assert_eq!(handler.viewport(), Extent::new(400, 300));
    assert_eq!(handler.extent(), Extent::new(400, 300));
    assert_eq!(handler.image_count(), 2);
}

#[test]
fn images_of_another_size_than_asked_for_are_a_fault() {
    let mut handler = chain(7, 800, 600, 3);
    handler.set_recreate(true);
    let r = handler.check_and_recreate(
        Extent::new(400, 300),
        RecreateOutcome::Rebuilt { resources: 8, image_count: 2, extent: Extent::new(1, 1) },
    );
    assert_eq!(r, Err(RecreateFailure::Device(DeviceFault::ExtentMismatch)));
    assert!(handler.get_recreate());
    assert_eq!(*handler.resources(), 7);
    assert_eq!(handler.extent(), Extent::new(800, 600));
    assert_eq!(handler.viewport(), Extent::new(800, 600));
    assert_eq!(handler.image_count(), 3);
}

#[test]
fn acquired_image_is_handed_on() {
    let mut handler = chain(1, 800, 600, 3);
    let r = handler.acquire_next(AcquireOutcome::Acquired { image_index: 2, suboptimal: false });
    assert_eq!(r, Ok(AcquiredImage { image_index: 2, suboptimal: false }));
    assert!(!handler.get_recreate());
}

#[test]
fn suboptimal_image_flags_chain_but_is_usable() {
    let mut handler = chain(1, 800, 600, 3);
    let r = handler.acquire_next(AcquireOutcome::Acquired { image_index: 0, suboptimal: true });
    assert_eq!(r, Ok(AcquiredImage { image_index: 0, suboptimal: true }));
    assert!(handler.get_recreate());
}

#[test]
fn optimal_image_does_not_clear_a_set_flag() {
    let mut handler = chain(1, 800, 600, 3);
    handler.set_recreate(true);
    let r = handler.acquire_next(AcquireOutcome::Acquired { image_index: 0, suboptimal: false });
    assert_eq!(r, Ok(AcquiredImage { image_index: 0, suboptimal: false }));
    assert!(handler.get_recreate());
}

#[test]
fn out_of_date_acquire_flags_chain() {
    let mut handler = chain(1, 800, 600, 3);
    let r = handler.acquire_next(AcquireOutcome::OutOfDate);
    assert_eq!(r, Err(AcquireFailure::OutOfDate));
    assert!(handler.get_recreate());
    assert_eq!(*handler.resources(), 1);
}

#[test]
fn image_outside_chain_is_a_fault() {
    let mut handler = chain(1, 800, 600, 3);
    let r = handler.acquire_next(AcquireOutcome::Acquired { image_index: 3, suboptimal: true });
    assert_eq!(r, Err(AcquireFailure::Device(DeviceFault::ImageOutOfRange)));
    assert!(!handler.get_recreate());
}

#[test]
fn device_fault_during_acquire_is_reported() {
    let mut handler = chain(1, 800, 600, 3);
    let r = handler.acquire_next(AcquireOutcome::Failed(DeviceFault::SurfaceLost));
    assert_eq!(r, Err(AcquireFailure::Device(DeviceFault::SurfaceLost)));
    assert!(!handler.get_recreate());
}

#[test]
fn refusals_report_their_failure() {
    assert!(matches!(
        RecreateOutcome::<u32>::refused(RecreateFailure::UnsupportedDimensions),
        RecreateOutcome::UnsupportedDimensions
    ));
    assert!(matches!(
        RecreateOutcome::<u32>::refused(RecreateFailure::Device(DeviceFault::OutOfMemory)),
        RecreateOutcome::Failed(DeviceFault::OutOfMemory)
    ));
    assert_eq!(AcquireOutcome::refused(AcquireFailure::OutOfDate), AcquireOutcome::OutOfDate);
    assert_eq!(
        AcquireOutcome::refused(AcquireFailure::Device(DeviceFault::Other)),
        AcquireOutcome::Failed(DeviceFault::Other)
    );
}
