//! Constants and helpers of the client API: heap and memory type
//! properties, CPU mapping modes, sync object kinds.
use vstd::prelude::*;

use crate::protocol::MagmaHeap;
use crate::protocol::MagmaMemoryType;
use crate::protocol::MagmaSyncObjType;

verus! {

pub const MAGMA_BUS_TYPE_UNKNOWN: u32 = 0;
pub const MAGMA_BUS_TYPE_PCI: u32 = 1;
pub const MAGMA_BUS_TYPE_PLATFORM: u32 = 2;

// Same as the PCI vendor ids.
pub const MAGMA_VENDOR_ID_INTEL: u16 = 0x8086;
pub const MAGMA_VENDOR_ID_AMD: u16 = 0x1002;
pub const MAGMA_VENDOR_ID_MALI: u16 = 0x13B5;
pub const MAGMA_VENDOR_ID_QCOM: u16 = 0x5413;
pub const MAGMA_VENDOR_ID_VIRTGPU: u16 = 0x1AF4;

/// Set on heaps of device memory.
pub const MAGMA_HEAP_DEVICE_LOCAL_BIT: u64 = 0x00000001;
/// Set on heaps that the CPU can map.
pub const MAGMA_HEAP_CPU_VISIBLE_BIT: u64 = 0x00000010;

pub const MAGMA_MEMORY_PROPERTY_DEVICE_LOCAL_BIT: u32 = 0x00000001;
pub const MAGMA_MEMORY_PROPERTY_HOST_VISIBLE_BIT: u32 = 0x00000002;
pub const MAGMA_MEMORY_PROPERTY_HOST_COHERENT_BIT: u32 = 0x00000004;
pub const MAGMA_MEMORY_PROPERTY_HOST_CACHED_BIT: u32 = 0x00000008;
pub const MAGMA_MEMORY_PROPERTY_LAZILY_ALLOCATED_BIT: u32 = 0x00000010;
pub const MAGMA_MEMORY_PROPERTY_PROTECTED_BIT: u32 = 0x00000020;

/// The buffer may be exported as an OS handle.
pub const MAGMA_BUFFER_FLAG_EXTERNAL: u32 = 0x000000001;
/// The buffer may be scanned out directly.
pub const MAGMA_BUFFER_FLAG_SCANOUT: u32 = 0x000000002;

/// AMD ordered-append buffer.
pub const MAGMA_BUFFER_FLAG_AMD_OA: u32 = 0x000000001;
/// AMD global on-chip data storage buffer.
pub const MAGMA_BUFFER_FLAG_AMD_GDS: u32 = 0x000000002;

pub const MAGMA_SYNC_WHOLE_RANGE: u64 = 1;
pub const MAGMA_SYNC_RANGES: u64 = 2;
pub const MAGMA_SYNC_INVALIDATE_READ: u64 = 4;
pub const MAGMA_SYNC_INVALIDATE_WRITE: u64 = 8;

pub const MAGMA_SYNC_OBJ_TYPE_BINARY: u32 = 0;
pub const MAGMA_SYNC_OBJ_TYPE_TIMELINE: u32 = 1;

/// Kind of a sync object, as the client API names it.
pub type MagmaSyncType = MagmaSyncObjType;

/// An OS handle with its type.
#[derive(Debug, Clone, Copy, PartialEq, Eq, Default)]
pub struct MagmaHandle {
    pub os_handle: i64,
    pub handle_type: u32,
}

/// A range of a CPU mapping.
#[derive(Debug, Clone, Copy, PartialEq, Eq, Default)]
pub struct MagmaMappedMemoryRange {
    pub offset: u64,
    pub size: u64,
}

/// Cache mode "cached" of a CPU mapping: `MAGMA_MAP_CACHE_CACHED` of magma-gpu.
#[verifier::external_body]
fn map_cache_cached() -> (v: u32)
    ensures
        v == 1,
{
    magma_gpu::util::MAGMA_MAP_CACHE_CACHED
}

/// Cache mode "uncached" of a CPU mapping: `MAGMA_MAP_CACHE_UNCACHED` of magma-gpu.
#[verifier::external_body]
fn map_cache_uncached() -> (v: u32)
    ensures
        v == 2,
{
    magma_gpu::util::MAGMA_MAP_CACHE_UNCACHED
}

/// Cache mode "write-combined" of a CPU mapping: `MAGMA_MAP_CACHE_WC` of magma-gpu.
#[verifier::external_body]
pub(crate) fn map_cache_wc() -> (v: u32)
    ensures
        v == 3,
{
    magma_gpu::util::MAGMA_MAP_CACHE_WC
}

/// Read-write access of a CPU mapping: `MAGMA_MAP_ACCESS_RW` of magma-gpu.
#[verifier::external_body]
pub(crate) fn map_access_rw() -> (v: u32)
    ensures
        v == 0x30,
{
    magma_gpu::util::MAGMA_MAP_ACCESS_RW
}

impl MagmaHeap {
    /// Whether the heap is device memory.
    pub fn is_device_local(&self) -> (b: bool)
        ensures
            b == (self.heap_flags & MAGMA_HEAP_DEVICE_LOCAL_BIT != 0),
    {
        self.heap_flags & MAGMA_HEAP_DEVICE_LOCAL_BIT != 0
    }

    /// Whether the CPU can map the heap.
    pub fn is_cpu_visible(&self) -> (b: bool)
        ensures
            b == (self.heap_flags & MAGMA_HEAP_CPU_VISIBLE_BIT != 0),
    {
        self.heap_flags & MAGMA_HEAP_CPU_VISIBLE_BIT != 0
    }
}

/// The handles among `handles` that are there, in order.
pub open spec fn present_handles(handles: Seq<Option<u32>>) -> Seq<Option<u32>> {
    handles.filter(|h: Option<u32>| h is Some)
}

/// The handles that are there are the last one, if it is there, after
/// those before it.
pub proof fn lemma_present_handles_step(handles: Seq<Option<u32>>)
    requires
        handles.len() > 0,
    ensures
        present_handles(handles) == if handles.last() is Some {
            present_handles(handles.drop_last()).push(handles.last())
        } else {
            present_handles(handles.drop_last())
        },
{
    reveal_with_fuel(Seq::filter, 1);
}

/// Every memory type lies on a heap that exists, and the host can see the
/// memory of a type exactly when the CPU can map its heap.
pub open spec fn types_on_matching_heaps(types: Seq<MagmaMemoryType>, heaps: Seq<MagmaHeap>) -> bool {
    forall|i: int| #![trigger types[i]]
        0 <= i < types.len() ==> types[i].heap_idx < heaps.len()
            && ((types[i].property_flags & MAGMA_MEMORY_PROPERTY_HOST_VISIBLE_BIT != 0)
                == (heaps[types[i].heap_idx as int].heap_flags & MAGMA_HEAP_CPU_VISIBLE_BIT != 0))
}

/// Which of the flag combinations that the backends report say host visible
/// or CPU visible.
pub proof fn lemma_visibility_bits()
    ensures
        MAGMA_HEAP_CPU_VISIBLE_BIT & MAGMA_HEAP_CPU_VISIBLE_BIT != 0,
        (MAGMA_HEAP_CPU_VISIBLE_BIT | MAGMA_HEAP_DEVICE_LOCAL_BIT) & MAGMA_HEAP_CPU_VISIBLE_BIT != 0,
        (MAGMA_HEAP_DEVICE_LOCAL_BIT | MAGMA_HEAP_CPU_VISIBLE_BIT) & MAGMA_HEAP_CPU_VISIBLE_BIT != 0,
        MAGMA_HEAP_DEVICE_LOCAL_BIT & MAGMA_HEAP_CPU_VISIBLE_BIT == 0,
        MAGMA_MEMORY_PROPERTY_DEVICE_LOCAL_BIT & MAGMA_MEMORY_PROPERTY_HOST_VISIBLE_BIT == 0,
        (MAGMA_MEMORY_PROPERTY_HOST_COHERENT_BIT | MAGMA_MEMORY_PROPERTY_HOST_VISIBLE_BIT)
            & MAGMA_MEMORY_PROPERTY_HOST_VISIBLE_BIT != 0,
        (MAGMA_MEMORY_PROPERTY_HOST_COHERENT_BIT | MAGMA_MEMORY_PROPERTY_HOST_VISIBLE_BIT
            | MAGMA_MEMORY_PROPERTY_HOST_CACHED_BIT) & MAGMA_MEMORY_PROPERTY_HOST_VISIBLE_BIT != 0,
        (MAGMA_MEMORY_PROPERTY_DEVICE_LOCAL_BIT | MAGMA_MEMORY_PROPERTY_HOST_COHERENT_BIT
            | MAGMA_MEMORY_PROPERTY_HOST_VISIBLE_BIT) & MAGMA_MEMORY_PROPERTY_HOST_VISIBLE_BIT != 0,
        (MAGMA_MEMORY_PROPERTY_DEVICE_LOCAL_BIT | MAGMA_MEMORY_PROPERTY_HOST_COHERENT_BIT
            | MAGMA_MEMORY_PROPERTY_HOST_CACHED_BIT | MAGMA_MEMORY_PROPERTY_HOST_VISIBLE_BIT)
            & MAGMA_MEMORY_PROPERTY_HOST_VISIBLE_BIT != 0,
        (MAGMA_MEMORY_PROPERTY_DEVICE_LOCAL_BIT | MAGMA_MEMORY_PROPERTY_HOST_VISIBLE_BIT)
            & MAGMA_MEMORY_PROPERTY_HOST_VISIBLE_BIT != 0,
{
    assert(0x10u64 & 0x10u64 != 0 && (0x10u64 | 0x1u64) & 0x10u64 != 0 && (0x1u64 | 0x10u64) & 0x10u64 != 0
        && 0x1u64 & 0x10u64 == 0) by (bit_vector);
    assert(1u32 & 2u32 == 0 && (4u32 | 2u32) & 2u32 != 0 && (4u32 | 2u32 | 8u32) & 2u32 != 0
        && (1u32 | 4u32 | 2u32) & 2u32 != 0 && (1u32 | 4u32 | 8u32 | 2u32) & 2u32 != 0
        && (1u32 | 2u32) & 2u32 != 0) by (bit_vector);
}

/// The CPU mapping mode of memory with `property_flags`: none when the host
/// cannot see it; otherwise read-write access with cached mode when host
/// cached, write-combined when only coherent, and uncached else.
pub open spec fn spec_map_info(property_flags: u32) -> Option<u32> {
    if property_flags & MAGMA_MEMORY_PROPERTY_HOST_VISIBLE_BIT == 0 {
        None
    } else if property_flags & MAGMA_MEMORY_PROPERTY_HOST_CACHED_BIT != 0 {
        Some(1u32 | 0x30u32)
    } else if property_flags & MAGMA_MEMORY_PROPERTY_HOST_COHERENT_BIT != 0 {
        Some(3u32 | 0x30u32)
    } else {
        Some(2u32 | 0x30u32)
    }
}

impl MagmaMemoryType {
    /// Whether the memory is device local.
    pub fn is_device_local(&self) -> (b: bool)
        ensures
            b == (self.property_flags & MAGMA_MEMORY_PROPERTY_DEVICE_LOCAL_BIT != 0),
    {
        self.property_flags & MAGMA_MEMORY_PROPERTY_DEVICE_LOCAL_BIT != 0
    }

    /// Whether the host can see the memory.
    pub fn is_host_visible(&self) -> (b: bool)
        ensures
            b == (self.property_flags & MAGMA_MEMORY_PROPERTY_HOST_VISIBLE_BIT != 0),
    {
        self.property_flags & MAGMA_MEMORY_PROPERTY_HOST_VISIBLE_BIT != 0
    }

    /// Whether the memory is host coherent.
    pub fn is_coherent(&self) -> (b: bool)
        ensures
            b == (self.property_flags & MAGMA_MEMORY_PROPERTY_HOST_COHERENT_BIT != 0),
    {
        self.property_flags & MAGMA_MEMORY_PROPERTY_HOST_COHERENT_BIT != 0
    }

    /// Whether the memory is host cached.
    pub fn is_cached(&self) -> (b: bool)
        ensures
            b == (self.property_flags & MAGMA_MEMORY_PROPERTY_HOST_CACHED_BIT != 0),
    {
        self.property_flags & MAGMA_MEMORY_PROPERTY_HOST_CACHED_BIT != 0
    }

    /// Whether the memory is protected.
    pub fn is_protected(&self) -> (b: bool)
        ensures
            b == (self.property_flags & MAGMA_MEMORY_PROPERTY_PROTECTED_BIT != 0),
    {
        self.property_flags & MAGMA_MEMORY_PROPERTY_PROTECTED_BIT != 0
    }

    /// The CPU mapping mode of memory of this type, if the host can map it.
    pub fn get_map_info(&self) -> (r: Option<u32>)
        ensures
            r == spec_map_info(self.property_flags),
    {
        if !self.is_host_visible() {
            return None;
        }
        let cache = if self.is_cached() {
            map_cache_cached()
        } else if self.is_coherent() {
            map_cache_wc()
        } else {
            map_cache_uncached()
        };
        Some(cache | map_access_rw())
    }
}

/// The sync object kind that `val` names: timeline for 1, binary for any
/// other value.
pub open spec fn spec_sync_type(val: u32) -> MagmaSyncType {
    if val == 1 {
        MagmaSyncObjType::Timeline
    } else {
        MagmaSyncObjType::Binary
    }
}

impl From<u32> for MagmaSyncObjType {
    fn from(val: u32) -> (r: MagmaSyncObjType) {
        match val {
            1 => MagmaSyncObjType::Timeline,
            _ => MagmaSyncObjType::Binary,
        }
    }
}

impl vstd::std_specs::convert::FromSpecImpl<u32> for MagmaSyncObjType {
    open spec fn obeys_from_spec() -> bool {
        true
    }

    open spec fn from_spec(val: u32) -> MagmaSyncObjType {
        spec_sync_type(val)
    }
}

} // verus!
