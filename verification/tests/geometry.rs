use std::sync::Arc;

use frame_engine::chain::RecreateOutcome;
use frame_engine::error::{DeviceFault, RecreateFailure};
use frame_engine::geometry::{has_size, AllocationFailure, MemoryFault, VertexArray, VertexBuffer};
use frame_engine::config::Extent;
use frame_engine::vulkan::{derive_chain, first_image_extent, ChainResources};
use vulkano::image::SwapchainImage;

#[test]
fn vertex_array_keeps_vertices_in_order() {
    let triangle = vec![[-500i32, -250], [0, 500], [250, -100]];
    let array = VertexArray::from(triangle.clone());
    assert_eq!(array.data, triangle);
}

#[test]
fn geometry_is_frame_invariant() {
    let array = VertexArray::from(vec![[-500i32, -250], [0, 500], [250, -100]]);
    let first: Vec<[i32; 2]> = array.data.clone();
    for _ in 0..100 {
        assert_eq!(array.data, first);
    }
}

#[test]
fn empty_vertex_array_is_allowed() {
    let array: VertexArray<[i32; 2]> = VertexArray::from(Vec::new());
    assert!(array.data.is_empty());
}

#[test]
fn chain_without_images_has_no_size_to_read() {
    let images: Vec<Arc<SwapchainImage<()>>> = Vec::new();
    assert_eq!(first_image_extent(&images), None);
}

#[test]
fn failed_upload_is_reported_as_the_devices_fault() {
    let array = VertexArray::from(vec![[-500i32, -250], [0, 500], [250, -100]]);
    let faults = [
        MemoryFault::OutOfMemory,
        MemoryFault::TooManyObjects,
        MemoryFault::MemoryMapFailed,
        MemoryFault::Other,
    ];
    for fault in faults {
        match VertexBuffer::from_upload(Err(fault), &array) {
            Ok(_) => panic!("a buffer came of a failed upload"),
            Err(reported) => assert_eq!(reported, AllocationFailure::Device(fault)),
        }
    }
}

#[test]
fn only_vertices_without_size_have_no_size() {
    struct Marker;
    assert!(!has_size::<()>());
    assert!(!has_size::<Marker>());
    assert!(!has_size::<[u32; 0]>());
    assert!(has_size::<u8>());
    assert!(has_size::<[i32; 2]>());
}

#[test]
fn refused_rebuild_is_reported_as_it_is() {
    let make = |_image: &Arc<SwapchainImage<()>>| -> Result<u32, DeviceFault> { Ok(1) };
    let refused: RecreateOutcome<ChainResources<(), u32>> =
        derive_chain(Err(RecreateFailure::UnsupportedDimensions), None, &make);
    assert!(matches!(refused, RecreateOutcome::UnsupportedDimensions));
    let lost: RecreateOutcome<ChainResources<(), u32>> =
        derive_chain(Err(RecreateFailure::Device(DeviceFault::DeviceLost)), None, &make);
    assert!(matches!(lost, RecreateOutcome::Failed(DeviceFault::DeviceLost)));
    let oom: RecreateOutcome<ChainResources<(), u32>> =
        derive_chain(
            Err(RecreateFailure::Device(DeviceFault::OutOfMemory)),
            Some(Extent::new(400, 300)),
            &make,
        );
    assert!(matches!(oom, RecreateOutcome::Failed(DeviceFault::OutOfMemory)));
}
