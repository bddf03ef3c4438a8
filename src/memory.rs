//! Choice of memory types and the buffers that static and per-frame data
//! live in.
use vstd::prelude::*;

verus! {

/// Raw value of `VK_MEMORY_PROPERTY_DEVICE_LOCAL_BIT`.
pub const MEMORY_DEVICE_LOCAL: u32 = 0x1;
/// Raw value of `VK_MEMORY_PROPERTY_HOST_VISIBLE_BIT`.
pub const MEMORY_HOST_VISIBLE: u32 = 0x2;
/// Raw value of `VK_MEMORY_PROPERTY_HOST_COHERENT_BIT`.
pub const MEMORY_HOST_COHERENT: u32 = 0x4;

/// Raw value of `VK_BUFFER_USAGE_TRANSFER_SRC_BIT`.
pub const BUFFER_USAGE_TRANSFER_SRC: u32 = 0x1;
/// Raw value of `VK_BUFFER_USAGE_TRANSFER_DST_BIT`.
pub const BUFFER_USAGE_TRANSFER_DST: u32 = 0x2;
/// Raw value of `VK_BUFFER_USAGE_UNIFORM_BUFFER_BIT`.
pub const BUFFER_USAGE_UNIFORM_BUFFER: u32 = 0x10;
/// Raw value of `VK_BUFFER_USAGE_INDEX_BUFFER_BIT`.
pub const BUFFER_USAGE_INDEX_BUFFER: u32 = 0x40;
/// Raw value of `VK_BUFFER_USAGE_VERTEX_BUFFER_BIT`.
pub const BUFFER_USAGE_VERTEX_BUFFER: u32 = 0x80;

/// The most memory types that a device can report.
pub const MAX_MEMORY_TYPES: usize = 32;

/// One memory type of the device.
#[derive(Clone, Copy, Debug, PartialEq, Eq, Structural)]
pub struct MemoryType {
    pub property_flags: u32,
    pub heap_index: u32,
}

/// Every flag of `wanted` is among `flags`.
pub open spec fn has_flags(flags: u32, wanted: u32) -> bool {
    flags & wanted == wanted
}

/// Memory type `i` is allowed by `type_bits` and has every wanted property.
pub open spec fn type_fits(type_bits: u32, wanted: u32, types: Seq<MemoryType>, i: int) -> bool {
    &&& 0 <= i < types.len()
    &&& i < MAX_MEMORY_TYPES
    &&& type_bits & (1u32 << (i as u32)) != 0
    &&& has_flags(types[i].property_flags, wanted)
}

/// `k` is the first memory type that fits.
pub open spec fn is_first_fit(type_bits: u32, wanted: u32, types: Seq<MemoryType>, k: int) -> bool {
    &&& type_fits(type_bits, wanted, types, k)
    &&& forall|j: int| 0 <= j < k ==> !type_fits(type_bits, wanted, types, j)
}

/// Why no memory can back a buffer.
#[derive(Clone, Copy, Debug, PartialEq, Eq, Structural)]
pub enum MemoryError {
    NoSuitableMemoryType,
}

/// The first memory type that `type_bits` allows and that has every property
/// of `required_props`; there is no fallback.
pub fn find_memory_type(type_bits: u32, required_props: u32, memory_types: &Vec<MemoryType>) -> (r:
    Result<u32, MemoryError>)
    ensures
        r matches Ok(k) ==> is_first_fit(type_bits, required_props, memory_types@, k as int),
        r is Err <==> forall|j: int| !type_fits(type_bits, required_props, memory_types@, j),
{
    let mut i: usize = 0;
    while i < memory_types.len() && i < MAX_MEMORY_TYPES
        invariant
            i <= MAX_MEMORY_TYPES,
            i <= memory_types@.len(),
            forall|j: int| 0 <= j < i ==> !type_fits(type_bits, required_props, memory_types@, j),
        decreases memory_types@.len() - i,
    {
        let flags = memory_types[i].property_flags;
        if type_bits & (1u32 << (i as u32)) != 0 && flags & required_props == required_props {
            assert(type_fits(type_bits, required_props, memory_types@, i as int));
            return Ok(i as u32);
        }
        i = i + 1;
    }
    Err(MemoryError::NoSuitableMemoryType)
}

/// When bit `k` of the requirement is set and type `k` is the only one with
/// the wanted properties, the search finds exactly `k`.
pub proof fn lemma_single_fit_is_found(
    type_bits: u32,
    wanted: u32,
    types: Seq<MemoryType>,
    k: int,
)
    requires
        0 <= k < types.len(),
        k < MAX_MEMORY_TYPES,
        type_bits & (1u32 << (k as u32)) != 0,
        has_flags(types[k].property_flags, wanted),
        forall|j: int| 0 <= j < types.len() && j != k ==> !has_flags(#[trigger] types[j].property_flags, wanted),
    ensures
        is_first_fit(type_bits, wanted, types, k),
        forall|m: int| is_first_fit(type_bits, wanted, types, m) ==> m == k,
        !(forall|j: int| !type_fits(type_bits, wanted, types, j)),
{
    assert(type_fits(type_bits, wanted, types, k));
}

/// The three kinds of buffer that the renderer keeps.
#[derive(Clone, Copy, Debug, PartialEq, Eq, Structural)]
pub enum BufferKind {
    Vertex,
    Index,
    Uniform,
}

pub open spec fn kind_usage(kind: BufferKind) -> u32 {
    match kind {
        BufferKind::Vertex => BUFFER_USAGE_VERTEX_BUFFER,
        BufferKind::Index => BUFFER_USAGE_INDEX_BUFFER,
        BufferKind::Uniform => BUFFER_USAGE_UNIFORM_BUFFER,
    }
}

impl BufferKind {
    /// The usage flag that the kind's buffers are bound with.
    pub fn usage(&self) -> (r: u32)
        ensures
            r == kind_usage(*self),
    {
        match self {
            BufferKind::Vertex => BUFFER_USAGE_VERTEX_BUFFER,
            BufferKind::Index => BUFFER_USAGE_INDEX_BUFFER,
            BufferKind::Uniform => BUFFER_USAGE_UNIFORM_BUFFER,
        }
    }
}

/// Marks the static vertex buffer.
#[derive(Clone, Copy, Debug)]
pub struct VertexBuffer;

impl VertexBuffer {
    pub fn get_usage() -> (r: u32)
        ensures
            r == BUFFER_USAGE_VERTEX_BUFFER,
    {
        BufferKind::Vertex.usage()
    }
}

/// Marks the static index buffer.
#[derive(Clone, Copy, Debug)]
pub struct IndexBuffer;

impl IndexBuffer {
    pub fn get_usage() -> (r: u32)
        ensures
            r == BUFFER_USAGE_INDEX_BUFFER,
    {
        BufferKind::Index.usage()
    }
}

/// A buffer to create: its size in bytes, its usage flags, and the memory
/// properties that its memory must have.
#[derive(Clone, Copy, Debug, PartialEq, Eq, Structural)]
pub struct BufferRequest {
    pub size: u64,
    pub usage: u32,
    pub memory_properties: u32,
}

/// Memory that the host writes and the device sees without a flush.
pub open spec fn host_shared() -> u32 {
    MEMORY_HOST_VISIBLE | MEMORY_HOST_COHERENT
}

/// The two buffers of an upload through a staging buffer: the host writes
/// the staging buffer, a copy command moves it to the destination.
#[derive(Clone, Copy, Debug, PartialEq, Eq, Structural)]
pub struct StagedUpload {
    pub staging: BufferRequest,
    pub destination: BufferRequest,
}

/// Plans the upload of `size` bytes of static data into device-local memory.
pub fn plan_staged_upload(kind: BufferKind, size: u64) -> (r: StagedUpload)
    ensures
        r.staging == (BufferRequest {
            size,
            usage: BUFFER_USAGE_TRANSFER_SRC,
            memory_properties: host_shared(),
        }),
        r.destination == (BufferRequest {
            size,
            usage: kind_usage(kind) | BUFFER_USAGE_TRANSFER_DST,
            memory_properties: MEMORY_DEVICE_LOCAL,
        }),
{
    let staging = BufferRequest {
        size,
        usage: BUFFER_USAGE_TRANSFER_SRC,
        memory_properties: MEMORY_HOST_VISIBLE | MEMORY_HOST_COHERENT,
    };
    let destination = BufferRequest {
        size,
        usage: kind.usage() | BUFFER_USAGE_TRANSFER_DST,
        memory_properties: MEMORY_DEVICE_LOCAL,
    };
    StagedUpload { staging, destination }
}

/// Plans one host-visible, coherent uniform buffer of `size` bytes for each
/// frame in flight.
pub fn plan_uniform_buffers(size: u64, frames_in_flight: usize) -> (r: Vec<BufferRequest>)
    ensures
        r@.len() == frames_in_flight,
        forall|i: int|
            0 <= i < r@.len() ==> #[trigger] r@[i] == (BufferRequest {
                size,
                usage: BUFFER_USAGE_UNIFORM_BUFFER,
                memory_properties: host_shared(),
            }),
{
    let request = BufferRequest {
        size,
        usage: BufferKind::Uniform.usage(),
        memory_properties: MEMORY_HOST_VISIBLE | MEMORY_HOST_COHERENT,
    };
    let mut r: Vec<BufferRequest> = Vec::new();
    let mut i: usize = 0;
    while i < frames_in_flight
        invariant
            i <= frames_in_flight,
            r@.len() == i,
            request == (BufferRequest {
                size,
                usage: BUFFER_USAGE_UNIFORM_BUFFER,
                memory_properties: host_shared(),
            }),
            forall|k: int| 0 <= k < r@.len() ==> #[trigger] r@[k] == request,
        decreases frames_in_flight - i,
    {
        r.push(request);
        i = i + 1;
    }
    r
}

} // verus!
