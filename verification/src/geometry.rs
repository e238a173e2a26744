//! The geometry buffer builder: one draw's vertices, uploaded once into
//! memory the GPU can read.

use std::sync::Arc;
use vstd::prelude::*;
use vulkano::buffer::CpuAccessibleBuffer;
use vulkano::device::Device;
use vulkano::memory::pool::{PotentialDedicatedAllocation, StdMemoryPoolAlloc};
use vulkano::memory::DeviceMemoryAllocError;

verus! {

/// `vulkano::buffer::CpuAccessibleBuffer`, carried through and never looked
/// into.
#[verifier::external_type_specification]
#[verifier::external_body]
#[verifier::reject_recursive_types(T)]
#[verifier::reject_recursive_types(A)]
pub struct ExCpuAccessibleBuffer<T: ?Sized, A>(CpuAccessibleBuffer<T, A>);

/// `vulkano::memory::pool::PotentialDedicatedAllocation`, the buffer's
/// default allocation.
#[verifier::external_type_specification]
#[verifier::external_body]
#[verifier::reject_recursive_types(A)]
pub struct ExPotentialDedicatedAllocation<A>(PotentialDedicatedAllocation<A>);

/// `vulkano::memory::pool::StdMemoryPoolAlloc`, the buffer's default
/// allocation.
#[verifier::external_type_specification]
#[verifier::external_body]
pub struct ExStdMemoryPoolAlloc(StdMemoryPoolAlloc);

/// `vulkano::device::Device`, carried through and never looked into.
#[verifier::external_type_specification]
#[verifier::external_body]
pub struct ExDevice(Device);

/// `vulkano::memory::DeviceMemoryAllocError`, read only by
/// `allocation_failure`.
#[verifier::external_type_specification]
#[verifier::external_body]
pub struct ExDeviceMemoryAllocError(DeviceMemoryAllocError);

/// What the device reported when it gave no memory.
#[derive(Clone, Copy, Debug, PartialEq, Eq, Structural)]
pub enum MemoryFault {
    OutOfMemory,
    TooManyObjects,
    MemoryMapFailed,
    Other,
}

/// Why the geometry could not be uploaded. None of these is recoverable.
#[derive(Clone, Copy, Debug, PartialEq, Eq, Structural)]
pub enum AllocationFailure {
    /// The vertex type takes no memory, so there is nothing the device could
    /// map. The device is not asked.
    ZeroSizedVertex,
    Device(MemoryFault),
}

/// Whether vertices of type `V` take memory.
pub fn has_size<V>() -> (b: bool)
    ensures
        b == (vstd::layout::size_of::<V>() != 0),
{
    core::mem::size_of::<V>() != 0
}

/// The vertices of one draw, in order.
pub struct VertexArray<V> {
    pub data: Vec<V>,
}

impl<V> View for VertexArray<V> {
    type V = Seq<V>;

    open spec fn view(&self) -> Seq<V> {
        self.data@
    }
}

impl<V> From<Vec<V>> for VertexArray<V> {
    fn from(vec: Vec<V>) -> (array: VertexArray<V>) {
        VertexArray { data: vec }
    }
}

impl<V> vstd::std_specs::convert::FromSpecImpl<Vec<V>> for VertexArray<V> {
    open spec fn obeys_from_spec() -> bool {
        true
    }

    /// The array holds exactly the given vertices, in the given order.
    open spec fn from_spec(vec: Vec<V>) -> VertexArray<V> {
        VertexArray { data: vec }
    }
}

/// A vertex array in GPU-visible memory. It is not written again.
#[verifier::reject_recursive_types(V)]
pub struct VertexBuffer<V> {
    pub buffer: Arc<CpuAccessibleBuffer<[V]>>,
    vertex_count: usize,
    /// The vertices the buffer was made of.
    vertices: Ghost<Seq<V>>,
}

impl<V> View for VertexBuffer<V> {
    type V = Seq<V>;

    /// The vertices the buffer was made of, in order.
    closed spec fn view(&self) -> Seq<V> {
        self.vertices@
    }
}

/// Calls `CpuAccessibleBuffer::from_iter` with every usage allowed and no
/// host caching, on the vertices in order. Nothing is claimed of the result:
/// whether memory is to be had is the device's answer. The call maps the
/// memory as a slice and divides by the size of a vertex to do so, which is
/// why a vertex type without size is left out.
#[verifier::external_body]
fn upload<V: Copy + 'static>(device: Arc<Device>, data: &Vec<V>) -> (r: Result<
    Arc<CpuAccessibleBuffer<[V]>>,
    DeviceMemoryAllocError,
>)
    requires
        vstd::layout::size_of::<V>() != 0,
{
    CpuAccessibleBuffer::from_iter(
        device,
        vulkano::buffer::BufferUsage::all(),
        false,
        data.iter().cloned(),
    )
}

/// Tells the variants of `DeviceMemoryAllocError` apart. Nothing is claimed
/// of the result.
#[verifier::external_body]
fn allocation_failure(error: DeviceMemoryAllocError) -> (fault: MemoryFault) {
    match error {
        DeviceMemoryAllocError::OomError(_) => MemoryFault::OutOfMemory,
        DeviceMemoryAllocError::TooManyObjects => MemoryFault::TooManyObjects,
        DeviceMemoryAllocError::MemoryMapFailed => MemoryFault::MemoryMapFailed,
        _ => MemoryFault::Other,
    }
}

/// What becomes of `uploaded`, the device's answer to the upload of `array`:
/// a buffer made of the array's vertices, or the device's fault as it is.
pub open spec fn settled<V>(
    uploaded: Result<Arc<CpuAccessibleBuffer<[V]>>, MemoryFault>,
    array: Seq<V>,
    r: Result<VertexBuffer<V>, AllocationFailure>,
) -> bool {
    match uploaded {
        Ok(buffer) => r matches Ok(made) && made.held() == buffer && made@ == array
            && made.vertex_count() == array.len(),
        Err(fault) => r == Err::<VertexBuffer<V>, AllocationFailure>(
            AllocationFailure::Device(fault),
        ),
    }
}

impl<V: Copy + 'static> VertexBuffer<V> {
    /// Uploads `array`.
    ///
    /// Vertices that take no memory are refused before the device is asked,
    /// and nothing else is. Whether memory is to be had is the device's
    /// answer. Whatever it answers, the result is what
    /// [`VertexBuffer::from_upload`] makes of that answer: a buffer, where
    /// there is one, was made of exactly the array's vertices and a draw from
    /// it reads as many.
    pub fn new(device: Arc<Device>, array: VertexArray<V>) -> (r: Result<
        VertexBuffer<V>,
        AllocationFailure,
    >)
        ensures
            r matches Err(AllocationFailure::ZeroSizedVertex) <==> vstd::layout::size_of::<V>()
                == 0,
            vstd::layout::size_of::<V>() != 0 ==> exists|
                uploaded: Result<Arc<CpuAccessibleBuffer<[V]>>, MemoryFault>,
            | #[trigger] settled(uploaded, array@, r),
            r matches Ok(made) ==> made@ == array@ && made.vertex_count() == array@.len(),
    {
        if !has_size::<V>() {
            return Err(AllocationFailure::ZeroSizedVertex);
        }
        let uploaded = match upload(device, &array.data) {
            Ok(buffer) => Ok(buffer),
            Err(error) => Err(allocation_failure(error)),
        };
        let r = VertexBuffer::from_upload(uploaded, &array);
        assert(settled(uploaded, array@, r));
        r
    }
}

impl<V> VertexBuffer<V> {
    /// How many vertices a draw from this buffer reads.
    pub closed spec fn vertex_count(self) -> nat {
        self.vertex_count as nat
    }

    /// The GPU-side buffer itself.
    pub closed spec fn held(self) -> Arc<CpuAccessibleBuffer<[V]>> {
        self.buffer
    }

    /// Turns the device's answer to the upload of `array` into the result:
    /// the buffer together with what it was made of, or the device's fault.
    pub fn from_upload(
        uploaded: Result<Arc<CpuAccessibleBuffer<[V]>>, MemoryFault>,
        array: &VertexArray<V>,
    ) -> (r: Result<VertexBuffer<V>, AllocationFailure>)
        ensures
            settled(uploaded, array@, r),
    {
        match uploaded {
            Ok(buffer) => Ok(
                VertexBuffer {
                    buffer,
                    vertex_count: array.data.len(),
                    vertices: Ghost(array@),
                },
            ),
            Err(fault) => Err(AllocationFailure::Device(fault)),
        }
    }

    pub fn len(&self) -> (n: usize)
        ensures
            n == self.vertex_count(),
    {
        self.vertex_count
    }
}

} // verus!
