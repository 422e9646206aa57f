//! Arm Mali devices under the panthor driver: memory layout, scheduling
//! groups, mappings, cache operations and submissions.
use vstd::prelude::*;

use crate::defines::MAGMA_HEAP_CPU_VISIBLE_BIT;
use crate::defines::MAGMA_HEAP_DEVICE_LOCAL_BIT;
use crate::defines::lemma_present_handles_step;
use crate::defines::present_handles;
use crate::defines::MAGMA_MEMORY_PROPERTY_DEVICE_LOCAL_BIT;
use crate::defines::MAGMA_MEMORY_PROPERTY_HOST_CACHED_BIT;
use crate::defines::MAGMA_MEMORY_PROPERTY_HOST_COHERENT_BIT;
use crate::defines::MAGMA_MEMORY_PROPERTY_HOST_VISIBLE_BIT;
use crate::amdgpu::pow2_nat;
use crate::defines::MagmaMappedMemoryRange;
use crate::error::Error;
use crate::protocol::MagmaCreateQueueInfo;
use crate::protocol::MagmaGpuMapFlags;
use crate::protocol::MagmaHeap;
use crate::protocol::MagmaMemoryType;
use crate::protocol::MagmaQueueFlags;
use crate::protocol::MagmaSubmitAddressSpaceInfo;
use crate::submit::MagmaSubmitBufferInfo;

verus! {

/// The coherency mode that the kernel reports when the GPU is not coherent
/// with the CPU.
pub const DRM_PANTHOR_GPU_COHERENCY_NONE: u32 = 31;

/// Size of the single unified memory heap.
pub const PANTHOR_HEAP_SIZE: u64 = 0x1_0000_0000;

/// The single unified heap of 4 GiB, device local and CPU visible.
pub fn query_memory_heaps() -> (r: Vec<MagmaHeap>)
    ensures
        r@ == seq![
            MagmaHeap {
                heap_size: PANTHOR_HEAP_SIZE,
                heap_flags: MAGMA_HEAP_DEVICE_LOCAL_BIT | MAGMA_HEAP_CPU_VISIBLE_BIT,
            },
        ],
{
    let mut v: Vec<MagmaHeap> = Vec::new();
    v.push(MagmaHeap { heap_size: PANTHOR_HEAP_SIZE, heap_flags: MAGMA_HEAP_DEVICE_LOCAL_BIT | MAGMA_HEAP_CPU_VISIBLE_BIT });
    assert(v@ =~= seq![
        MagmaHeap {
            heap_size: PANTHOR_HEAP_SIZE,
            heap_flags: MAGMA_HEAP_DEVICE_LOCAL_BIT | MAGMA_HEAP_CPU_VISIBLE_BIT,
        },
    ]);
    v
}

/// The memory types on the unified heap: device only; host visible and
/// coherent; host visible, coherent and cached, only when the GPU is
/// coherent (`selected_coherency` not `DRM_PANTHOR_GPU_COHERENCY_NONE`);
/// host visible and cached.
pub open spec fn spec_memory_types(selected_coherency: u32) -> Seq<MagmaMemoryType> {
    let d = MAGMA_MEMORY_PROPERTY_DEVICE_LOCAL_BIT;
    let v = MAGMA_MEMORY_PROPERTY_HOST_VISIBLE_BIT;
    let c = MAGMA_MEMORY_PROPERTY_HOST_COHERENT_BIT;
    let k = MAGMA_MEMORY_PROPERTY_HOST_CACHED_BIT;
    let head = seq![
        MagmaMemoryType { property_flags: d, heap_idx: 0 },
        MagmaMemoryType { property_flags: d | v | c, heap_idx: 0 },
    ];
    let mid = if selected_coherency != DRM_PANTHOR_GPU_COHERENCY_NONE {
        head.push(MagmaMemoryType { property_flags: d | v | c | k, heap_idx: 0 })
    } else {
        head
    };
    mid.push(MagmaMemoryType { property_flags: d | v | k, heap_idx: 0 })
}

/// The memory types of a GPU whose coherency mode is `selected_coherency`.
pub fn query_memory_types(selected_coherency: u32) -> (r: Vec<MagmaMemoryType>)
    ensures
        r@ == spec_memory_types(selected_coherency),
{
    let mut types: Vec<MagmaMemoryType> = Vec::new();
    types.push(MagmaMemoryType { property_flags: MAGMA_MEMORY_PROPERTY_DEVICE_LOCAL_BIT, heap_idx: 0 });
    types.push(
        MagmaMemoryType {
            property_flags: MAGMA_MEMORY_PROPERTY_DEVICE_LOCAL_BIT | MAGMA_MEMORY_PROPERTY_HOST_VISIBLE_BIT
                | MAGMA_MEMORY_PROPERTY_HOST_COHERENT_BIT,
            heap_idx: 0,
        },
    );
    let is_coherent = selected_coherency != DRM_PANTHOR_GPU_COHERENCY_NONE;
    if is_coherent {
        types.push(
            MagmaMemoryType {
                property_flags: MAGMA_MEMORY_PROPERTY_DEVICE_LOCAL_BIT | MAGMA_MEMORY_PROPERTY_HOST_VISIBLE_BIT
                    | MAGMA_MEMORY_PROPERTY_HOST_COHERENT_BIT | MAGMA_MEMORY_PROPERTY_HOST_CACHED_BIT,
                heap_idx: 0,
            },
        );
    }
    types.push(
        MagmaMemoryType {
            property_flags: MAGMA_MEMORY_PROPERTY_DEVICE_LOCAL_BIT | MAGMA_MEMORY_PROPERTY_HOST_VISIBLE_BIT
                | MAGMA_MEMORY_PROPERTY_HOST_CACHED_BIT,
            heap_idx: 0,
        },
    );
    assert(types@ =~= spec_memory_types(selected_coherency));
    types
}

/// Number of bits set in `x`.
pub open spec fn popcount64(x: u64) -> nat
    decreases x,
{
    if x == 0 {
        0
    } else {
        (x % 2) as nat + popcount64(x / 2)
    }
}

proof fn lemma_popcount64_le_bits(x: u64, bits: nat)
    requires
        x < pow2_nat(bits),
    ensures
        popcount64(x) <= bits,
    decreases bits,
{
    if x != 0 && bits > 0 {
        lemma_popcount64_le_bits(x / 2, (bits - 1) as nat);
    }
}

proof fn lemma_popcount64_bound(x: u64)
    ensures
        popcount64(x) <= 64,
{
    reveal_with_fuel(pow2_nat, 65);
    assert(pow2_nat(64) == 0x1_0000_0000_0000_0000);
    lemma_popcount64_le_bits(x, 64);
}

/// Number of bits set in `x`.
pub fn count_ones_u64(x: u64) -> (n: u32)
    ensures
        n == popcount64(x),
        n <= 64,
{
    let mut v = x;
    let mut n: u32 = 0;
    proof {
        lemma_popcount64_bound(x);
    }
    while v != 0
        invariant
            n + popcount64(v) == popcount64(x),
            popcount64(x) <= 64,
        decreases v,
    {
        n = n + (v % 2) as u32;
        v = v / 2;
    }
    n
}

/// Group priority low.
pub const PANTHOR_GROUP_PRIORITY_LOW: u8 = 0;
/// Group priority medium.
pub const PANTHOR_GROUP_PRIORITY_MEDIUM: u8 = 1;
/// Group priority high.
pub const PANTHOR_GROUP_PRIORITY_HIGH: u8 = 2;
/// Size of the ring buffer of a group's queue: 64 KiB.
pub const PANTHOR_QUEUE_RINGBUF_SIZE: u32 = 0x1_0000;

/// What the kernel is asked for to create a scheduling group with one queue.
#[derive(Debug, Clone, Copy, PartialEq, Eq, Structural)]
pub struct PanthorGroupCreate {
    pub queue_priority: u8,
    pub ringbuf_size: u32,
    pub max_compute_cores: u8,
    pub max_fragment_cores: u8,
    pub max_tiler_cores: u8,
    pub priority: u8,
    pub compute_core_mask: u64,
    pub fragment_core_mask: u64,
    pub tiler_core_mask: u64,
    pub vm_id: u32,
}

/// The core mask for cores `present`: all of them, or core 0 when the
/// kernel reports none.
pub open spec fn core_mask(present: u64) -> u64 {
    if present != 0 {
        present
    } else {
        1
    }
}

/// The number of cores in `mask`, at least 1.
pub open spec fn core_count(mask: u64) -> u8 {
    if popcount64(mask) >= 1 {
        popcount64(mask) as u8
    } else {
        1
    }
}

/// The group priority for client priority `p`: low, medium, high for 0, 1,
/// 2; medium for any other.
pub open spec fn group_priority(p: u32) -> u8 {
    if p == 0 {
        PANTHOR_GROUP_PRIORITY_LOW
    } else if p == 1 {
        PANTHOR_GROUP_PRIORITY_MEDIUM
    } else if p == 2 {
        PANTHOR_GROUP_PRIORITY_HIGH
    } else {
        PANTHOR_GROUP_PRIORITY_MEDIUM
    }
}

/// A client's priority maps onto the group priorities in order: 0 is low,
/// 1 medium, 2 high, and anything above falls back to medium; so a higher
/// client priority up to 2 never gets a lower group priority.
pub proof fn lemma_group_priority_levels(p: u32, q: u32)
    ensures
        p == 0 ==> group_priority(p) == PANTHOR_GROUP_PRIORITY_LOW,
        p == 1 ==> group_priority(p) == PANTHOR_GROUP_PRIORITY_MEDIUM,
        p == 2 ==> group_priority(p) == PANTHOR_GROUP_PRIORITY_HIGH,
        p > 2 ==> group_priority(p) == PANTHOR_GROUP_PRIORITY_MEDIUM,
        p <= q <= 2 ==> group_priority(p) <= group_priority(q),
        PANTHOR_GROUP_PRIORITY_LOW < PANTHOR_GROUP_PRIORITY_MEDIUM < PANTHOR_GROUP_PRIORITY_HIGH,
{
}

/// The cores a group may use are those the GPU reports, or core 0 alone
/// when it reports none.
pub proof fn lemma_core_mask_is_present_cores(present: u64)
    ensures
        present != 0 ==> core_mask(present) == present,
        present == 0 ==> core_mask(present) == 1,
{
}

/// The group to create for a queue as `info` asks, in VM `vm_id`, on a GPU
/// with shader cores `shader_present` and tiler cores `tiler_present`: all
/// present cores (core 0 when none is reported) for compute, fragment and
/// tiling, and one medium-priority queue with a 64 KiB ring.
pub fn group_create_params(shader_present: u64, tiler_present: u64, vm_id: u32, info: &MagmaCreateQueueInfo) -> (r: PanthorGroupCreate)
    ensures
        r == (PanthorGroupCreate {
            queue_priority: 1,
            ringbuf_size: PANTHOR_QUEUE_RINGBUF_SIZE,
            max_compute_cores: core_count(core_mask(shader_present)),
            max_fragment_cores: core_count(core_mask(shader_present)),
            max_tiler_cores: core_count(core_mask(tiler_present)),
            priority: group_priority(info.priority),
            compute_core_mask: core_mask(shader_present),
            fragment_core_mask: core_mask(shader_present),
            tiler_core_mask: core_mask(tiler_present),
            vm_id,
        }),
        info.priority == 0 ==> r.priority == PANTHOR_GROUP_PRIORITY_LOW,
        info.priority == 1 ==> r.priority == PANTHOR_GROUP_PRIORITY_MEDIUM,
        info.priority == 2 ==> r.priority == PANTHOR_GROUP_PRIORITY_HIGH,
        info.priority > 2 ==> r.priority == PANTHOR_GROUP_PRIORITY_MEDIUM,
{
    let compute_core_mask = if shader_present != 0 {
        shader_present
    } else {
        1
    };
    let fragment_core_mask = if shader_present != 0 {
        shader_present
    } else {
        1
    };
    let tiler_core_mask = if tiler_present != 0 {
        tiler_present
    } else {
        1
    };
    let c = count_ones_u64(compute_core_mask);
    let f = count_ones_u64(fragment_core_mask);
    let t = count_ones_u64(tiler_core_mask);
    let max_compute_cores: u8 = if c >= 1 {
        c as u8
    } else {
        1
    };
    let max_fragment_cores: u8 = if f >= 1 {
        f as u8
    } else {
        1
    };
    let max_tiler_cores: u8 = if t >= 1 {
        t as u8
    } else {
        1
    };
    let priority = if info.priority == 0 {
        PANTHOR_GROUP_PRIORITY_LOW
    } else if info.priority == 1 {
        PANTHOR_GROUP_PRIORITY_MEDIUM
    } else if info.priority == 2 {
        PANTHOR_GROUP_PRIORITY_HIGH
    } else {
        PANTHOR_GROUP_PRIORITY_MEDIUM
    };
    PanthorGroupCreate {
        queue_priority: 1,
        ringbuf_size: PANTHOR_QUEUE_RINGBUF_SIZE,
        max_compute_cores,
        max_fragment_cores,
        max_tiler_cores,
        priority,
        compute_core_mask,
        fragment_core_mask,
        tiler_core_mask,
        vm_id,
    }
}

/// Whether a queue created with `info` only binds memory: it asks for
/// sparse binding, or it is of family 1.
pub fn is_bind_queue(info: &MagmaCreateQueueInfo) -> (r: bool)
    ensures
        r == (info.flags & 8 != 0 || info.queue_family_idx == 1),
{
    (info.flags & MagmaQueueFlags::from_bits_retain(8).bits()) != 0 || info.queue_family_idx == 1
}

/// Bind operation: map.
pub const DRM_PANTHOR_VM_BIND_OP_TYPE_MAP: u32 = 0;
/// Bind operation: unmap.
pub const DRM_PANTHOR_VM_BIND_OP_TYPE_UNMAP: u32 = 0x1000_0000;
/// Bind operation: only wait and signal.
pub const DRM_PANTHOR_VM_BIND_OP_TYPE_SYNC_ONLY: u32 = 0x2000_0000;
/// Map flag: the GPU may not write.
pub const DRM_PANTHOR_VM_BIND_OP_MAP_READONLY: u32 = 0x1;
/// Map flag: the GPU may not execute.
pub const DRM_PANTHOR_VM_BIND_OP_MAP_NOEXEC: u32 = 0x2;
/// Bind flag: the bind runs asynchronously.
pub const DRM_PANTHOR_VM_BIND_ASYNC: u32 = 0x1;

/// The bind flags of a mapping with `flags` (bits of `MagmaGpuMapFlags`):
/// a map, not executable without the execute bit, read-only without the
/// write bit.
pub open spec fn spec_map_bind_flags(flags: u64) -> u32 {
    let a = if flags & 4 == 0 {
        DRM_PANTHOR_VM_BIND_OP_TYPE_MAP | DRM_PANTHOR_VM_BIND_OP_MAP_NOEXEC
    } else {
        DRM_PANTHOR_VM_BIND_OP_TYPE_MAP
    };
    if flags & 2 == 0 {
        a | DRM_PANTHOR_VM_BIND_OP_MAP_READONLY
    } else {
        a
    }
}

/// A mapping is bound as a map; it is read-only exactly when it lacks the
/// write bit and not executable exactly when it lacks the execute bit; the
/// read bit changes nothing.
pub proof fn lemma_map_bind_flags_follow_bits(flags: u64)
    ensures
        (spec_map_bind_flags(flags) & DRM_PANTHOR_VM_BIND_OP_MAP_READONLY != 0) == (flags & 2 == 0),
        (spec_map_bind_flags(flags) & DRM_PANTHOR_VM_BIND_OP_MAP_NOEXEC != 0) == (flags & 4 == 0),
        spec_map_bind_flags(flags) & !(DRM_PANTHOR_VM_BIND_OP_MAP_READONLY | DRM_PANTHOR_VM_BIND_OP_MAP_NOEXEC) == DRM_PANTHOR_VM_BIND_OP_TYPE_MAP,
        spec_map_bind_flags(flags) == spec_map_bind_flags(flags ^ 1),
{
    let a: u32 = if flags & 4 == 0 { 0u32 | 2u32 } else { 0u32 };
    let r: u32 = if flags & 2 == 0 { a | 1u32 } else { a };
    let g = flags ^ 1;
    let a2: u32 = if g & 4 == 0 { 0u32 | 2u32 } else { 0u32 };
    let r2: u32 = if g & 2 == 0 { a2 | 1u32 } else { a2 };
    assert(spec_map_bind_flags(flags) == r);
    assert(spec_map_bind_flags(g) == r2);
    assert((r & 1u32 != 0) == (flags & 2 == 0) && (r & 2u32 != 0) == (flags & 4 == 0)
        && r & !(1u32 | 2u32) == 0u32 && r == r2) by (bit_vector)
        requires
            a == (if flags & 4 == 0 { 0u32 | 2u32 } else { 0u32 }),
            r == (if flags & 2 == 0 { a | 1u32 } else { a }),
            g == flags ^ 1,
            a2 == (if g & 4 == 0 { 0u32 | 2u32 } else { 0u32 }),
            r2 == (if g & 2 == 0 { a2 | 1u32 } else { a2 }),
    ;
}

/// The bind flags of a mapping with `flags`.
pub fn map_bind_flags(flags: MagmaGpuMapFlags) -> (r: u32)
    ensures
        r == spec_map_bind_flags(flags.spec_bits()),
{
    let mut bind_flags = DRM_PANTHOR_VM_BIND_OP_TYPE_MAP;
    if flags.bits() & 4 == 0 {
        bind_flags = bind_flags | DRM_PANTHOR_VM_BIND_OP_MAP_NOEXEC;
    }
    if flags.bits() & 2 == 0 {
        bind_flags = bind_flags | DRM_PANTHOR_VM_BIND_OP_MAP_READONLY;
    }
    bind_flags
}

/// Buffer creation flag: the CPU maps the buffer write-back.
pub const DRM_PANTHOR_BO_WB_MMAP: u32 = 0x2;

/// The creation flags of a buffer: write-back mapped when cached.
pub fn bo_create_flags(is_cached: bool) -> (r: u32)
    ensures
        is_cached ==> r == DRM_PANTHOR_BO_WB_MMAP,
        !is_cached ==> r == 0,
{
    if is_cached {
        DRM_PANTHOR_BO_WB_MMAP
    } else {
        0
    }
}

/// Cache operation: write the CPU caches back.
pub const DRM_PANTHOR_BO_SYNC_CPU_CACHE_FLUSH: u32 = 0;
/// Cache operation: write back and invalidate the CPU caches.
pub const DRM_PANTHOR_BO_SYNC_CPU_CACHE_FLUSH_AND_INVALIDATE: u32 = 1;

/// A cache operation on a range of a buffer.
#[derive(Debug, Clone, Copy, PartialEq, Eq, Structural)]
pub struct PanthorBoSyncOp {
    pub handle: u32,
    pub type_: u32,
    pub offset: u64,
    pub size: u64,
}

/// The cache operations of type `sync_type` on buffer `gem_handle` of
/// `total_size` bytes for `ranges`: one per range, or one over the whole
/// buffer when no range is given.
pub open spec fn spec_bo_sync_ops(gem_handle: u32, total_size: u64, sync_type: u32, ranges: Seq<MagmaMappedMemoryRange>) -> Seq<PanthorBoSyncOp> {
    if ranges.len() == 0 {
        seq![PanthorBoSyncOp { handle: gem_handle, type_: sync_type, offset: 0, size: total_size }]
    } else {
        ranges.map_values(
            |r: MagmaMappedMemoryRange| PanthorBoSyncOp { handle: gem_handle, type_: sync_type, offset: r.offset, size: r.size },
        )
    }
}

/// Each given range becomes one operation on the buffer over exactly that
/// range, in order; with no range, one operation covers the whole buffer.
pub proof fn lemma_bo_sync_ops_cover_ranges(gem_handle: u32, total_size: u64, sync_type: u32, ranges: Seq<MagmaMappedMemoryRange>)
    ensures
        ranges.len() == 0 ==> spec_bo_sync_ops(gem_handle, total_size, sync_type, ranges) == seq![
            PanthorBoSyncOp { handle: gem_handle, type_: sync_type, offset: 0, size: total_size },
        ],
        ranges.len() > 0 ==> spec_bo_sync_ops(gem_handle, total_size, sync_type, ranges).len() == ranges.len(),
        ranges.len() > 0 ==> forall|i: int| #![trigger ranges[i]]
            0 <= i < ranges.len() ==> {
                let op = spec_bo_sync_ops(gem_handle, total_size, sync_type, ranges)[i];
                &&& op.handle == gem_handle
                &&& op.type_ == sync_type
                &&& op.offset == ranges[i].offset
                &&& op.size == ranges[i].size
            },
{
}

/// The cache operations for `ranges` of buffer `gem_handle`.
pub fn bo_sync_ops(gem_handle: u32, total_size: u64, sync_type: u32, ranges: &[MagmaMappedMemoryRange]) -> (r: Vec<PanthorBoSyncOp>)
    ensures
        r@ == spec_bo_sync_ops(gem_handle, total_size, sync_type, ranges@),
{
    let mut ops: Vec<PanthorBoSyncOp> = Vec::new();
    if ranges.len() == 0 {
        ops.push(PanthorBoSyncOp { handle: gem_handle, type_: sync_type, offset: 0, size: total_size });
        assert(ops@ =~= spec_bo_sync_ops(gem_handle, total_size, sync_type, ranges@));
        return ops;
    }
    let mut i: usize = 0;
    while i < ranges.len()
        invariant
            i <= ranges@.len(),
            ops@ == ranges@.take(i as int).map_values(
                |r: MagmaMappedMemoryRange| PanthorBoSyncOp { handle: gem_handle, type_: sync_type, offset: r.offset, size: r.size },
            ),
        decreases ranges.len() - i,
    {
        let r = ranges[i];
        ops.push(PanthorBoSyncOp { handle: gem_handle, type_: sync_type, offset: r.offset, size: r.size });
        i = i + 1;
        assert(ops@ =~= ranges@.take(i as int).map_values(
            |r: MagmaMappedMemoryRange| PanthorBoSyncOp { handle: gem_handle, type_: sync_type, offset: r.offset, size: r.size },
        ));
    }
    assert(ranges@.take(i as int) =~= ranges@);
    ops
}

/// Sync operation: wait.
pub const DRM_PANTHOR_SYNC_OP_WAIT: u32 = 0;
/// Sync operation: signal.
pub const DRM_PANTHOR_SYNC_OP_SIGNAL: u32 = 0x8000_0000;
/// Sync handle type: a binary sync object.
pub const DRM_PANTHOR_SYNC_OP_HANDLE_TYPE_SYNCOBJ: u32 = 0;

/// A sync operation of a submission.
#[derive(Debug, Clone, Copy, PartialEq, Eq, Structural)]
pub struct PanthorSyncOp {
    pub flags: u32,
    pub handle: u32,
    pub timeline_value: u64,
}

/// The sync operations with `flags` for the objects with raw handles
/// `handles`: one per object with a handle, in order.
pub open spec fn sync_ops_for(handles: Seq<Option<u32>>, flags: u32) -> Seq<PanthorSyncOp>
    decreases handles.len(),
{
    if handles.len() == 0 {
        Seq::empty()
    } else {
        let prev = sync_ops_for(handles.drop_last(), flags);
        match handles.last() {
            Some(h) => prev.push(PanthorSyncOp { flags, handle: h, timeline_value: 0 }),
            None => prev,
        }
    }
}

/// One operation per handle that is there, in order, each with `flags` and
/// timeline value 0.
pub proof fn lemma_sync_ops_follow_handles(handles: Seq<Option<u32>>, flags: u32)
    ensures
        sync_ops_for(handles, flags).len() == present_handles(handles).len(),
        forall|i: int| #![trigger sync_ops_for(handles, flags)[i]]
            0 <= i < sync_ops_for(handles, flags).len() ==> present_handles(handles)[i] == Some(sync_ops_for(handles, flags)[i].handle)
                && sync_ops_for(handles, flags)[i].flags == flags && sync_ops_for(handles, flags)[i].timeline_value == 0,
    decreases handles.len(),
{
    if handles.len() > 0 {
        lemma_sync_ops_follow_handles(handles.drop_last(), flags);
        lemma_present_handles_step(handles);
    }
}

fn push_sync_ops(out: &mut Vec<PanthorSyncOp>, handles: &[Option<u32>], flags: u32)
    ensures
        final(out)@ == old(out)@ + sync_ops_for(handles@, flags),
{
    let ghost start = out@;
    let mut i: usize = 0;
    while i < handles.len()
        invariant
            i <= handles@.len(),
            out@ == start + sync_ops_for(handles@.take(i as int), flags),
        decreases handles.len() - i,
    {
        assert(handles@.take(i as int + 1).drop_last() =~= handles@.take(i as int));
        if let Some(h) = handles[i] {
            out.push(PanthorSyncOp { flags, handle: h, timeline_value: 0 });
        }
        proof {
            assert(out@ =~= start + sync_ops_for(handles@.take(i as int + 1), flags));
        }
        i = i + 1;
    }
    assert(handles@.take(i as int) =~= handles@);
}

/// What a submission hands to the kernel: for a binding queue, a sync-only
/// bind with the sync operations; for any other, the command stream and the
/// sync operations.
#[derive(Debug, Clone, PartialEq, Eq)]
pub struct PanthorSubmission {
    pub bind: bool,
    pub stream_addr: u64,
    pub stream_size: u32,
    pub sync_ops: Vec<PanthorSyncOp>,
}

/// The submission to a queue that binds memory when `is_bind_queue`, of
/// commands at `as_info` (a GPU address) or else in the command buffer of
/// `buf_info`, that waits on the objects with raw handles `wait_handles`
/// and signals those with `signal_handles`: the waits, then the signals; a
/// binding queue runs no stream; any other runs the stream at the commands
/// (its length cut to 32 bits), or an empty one when neither tells where
/// they are.
pub fn queue_submit(
    is_bind_queue: bool,
    as_info: Option<MagmaSubmitAddressSpaceInfo>,
    buf_info: Option<MagmaSubmitBufferInfo>,
    wait_handles: &[Option<u32>],
    signal_handles: &[Option<u32>],
) -> (r: PanthorSubmission)
    ensures
        r.sync_ops@ == sync_ops_for(wait_handles@, DRM_PANTHOR_SYNC_OP_HANDLE_TYPE_SYNCOBJ | DRM_PANTHOR_SYNC_OP_WAIT)
            + sync_ops_for(signal_handles@, DRM_PANTHOR_SYNC_OP_HANDLE_TYPE_SYNCOBJ | DRM_PANTHOR_SYNC_OP_SIGNAL),
        r.bind == is_bind_queue,
        is_bind_queue ==> r.stream_addr == 0 && r.stream_size == 0,
        !is_bind_queue ==> match as_info {
            Some(a) => r.stream_addr == a.command_va && r.stream_size == a.length as u32,
            None => match buf_info {
                Some(b) => r.stream_addr == b.start_offset && r.stream_size == b.length as u32,
                None => r.stream_addr == 0 && r.stream_size == 0,
            },
        },
{
    let mut sync_ops: Vec<PanthorSyncOp> = Vec::new();
    push_sync_ops(&mut sync_ops, wait_handles, DRM_PANTHOR_SYNC_OP_HANDLE_TYPE_SYNCOBJ | DRM_PANTHOR_SYNC_OP_WAIT);
    push_sync_ops(&mut sync_ops, signal_handles, DRM_PANTHOR_SYNC_OP_HANDLE_TYPE_SYNCOBJ | DRM_PANTHOR_SYNC_OP_SIGNAL);
    if is_bind_queue {
        return PanthorSubmission { bind: true, stream_addr: 0, stream_size: 0, sync_ops };
    }
    let (stream_addr, stream_size) = if let Some(a) = as_info {
        (a.command_va, #[verifier::truncate] (a.length as u32))
    } else if let Some(b) = buf_info {
        (b.start_offset, #[verifier::truncate] (b.length as u32))
    } else {
        (0u64, 0u32)
    };
    PanthorSubmission { bind: false, stream_addr, stream_size, sync_ops }
}

/// VM state: the VM can no longer be used.
pub const DRM_PANTHOR_VM_STATE_UNUSABLE: u32 = 1;
/// Group state bit: a job timed out.
pub const DRM_PANTHOR_GROUP_STATE_TIMEDOUT: u32 = 0x1;
/// Group state bit: a fatal fault happened.
pub const DRM_PANTHOR_GROUP_STATE_FATAL_FAULT: u32 = 0x2;

/// The status of a binding queue from the state of its VM:
/// `InternalError` when the state could not be read, `ContextKilled` when
/// the VM is unusable.
pub fn vm_status(state: Result<u32, Error>) -> (r: Result<(), Error>)
    ensures
        state is Err ==> r == Err::<(), Error>(Error::InternalError),
        state is Ok && state->Ok_0 == DRM_PANTHOR_VM_STATE_UNUSABLE ==> r == Err::<(), Error>(Error::ContextKilled),
        state is Ok && state->Ok_0 != DRM_PANTHOR_VM_STATE_UNUSABLE ==> r == Ok::<(), Error>(()),
{
    match state {
        Err(_) => Err(Error::InternalError),
        Ok(s) => if s == DRM_PANTHOR_VM_STATE_UNUSABLE {
            Err(Error::ContextKilled)
        } else {
            Ok(())
        },
    }
}

/// The status of a queue from the state of its group: `InternalError` when
/// the state could not be read, `TimedOut` when a job timed out,
/// `ContextKilled` after a fatal fault.
pub fn group_status(state: Result<u32, Error>) -> (r: Result<(), Error>)
    ensures
        state is Err ==> r == Err::<(), Error>(Error::InternalError),
        state is Ok && state->Ok_0 & DRM_PANTHOR_GROUP_STATE_TIMEDOUT != 0 ==> r == Err::<(), Error>(Error::TimedOut),
        state is Ok && state->Ok_0 & DRM_PANTHOR_GROUP_STATE_TIMEDOUT == 0 && state->Ok_0
            & DRM_PANTHOR_GROUP_STATE_FATAL_FAULT != 0 ==> r == Err::<(), Error>(Error::ContextKilled),
        state is Ok && state->Ok_0 & DRM_PANTHOR_GROUP_STATE_TIMEDOUT == 0 && state->Ok_0
            & DRM_PANTHOR_GROUP_STATE_FATAL_FAULT == 0 ==> r == Ok::<(), Error>(()),
{
    match state {
        Err(_) => Err(Error::InternalError),
        Ok(s) => if s & DRM_PANTHOR_GROUP_STATE_TIMEDOUT != 0 {
            Err(Error::TimedOut)
        } else if s & DRM_PANTHOR_GROUP_STATE_FATAL_FAULT != 0 {
            Err(Error::ContextKilled)
        } else {
            Ok(())
        },
    }
}

} // verus!
