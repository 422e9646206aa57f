//! Qualcomm devices under the kgsl driver: the virtual buffer object that
//! stands for an address space, the fixed memory layout, buffers, sync
//! objects and command submissions.
use std::sync::Arc;

use vstd::prelude::*;

use crate::defines::MAGMA_HEAP_CPU_VISIBLE_BIT;
use crate::defines::MAGMA_HEAP_DEVICE_LOCAL_BIT;
use crate::defines::lemma_present_handles_step;
use crate::defines::present_handles;
use crate::defines::MAGMA_MEMORY_PROPERTY_DEVICE_LOCAL_BIT;
use crate::defines::MAGMA_MEMORY_PROPERTY_HOST_CACHED_BIT;
use crate::defines::MAGMA_MEMORY_PROPERTY_HOST_COHERENT_BIT;
use crate::defines::MAGMA_MEMORY_PROPERTY_HOST_VISIBLE_BIT;
use crate::defines::spec_map_info;
use crate::error::Error;
use crate::error::PlatformError;
use crate::protocol::MagmaCreateBufferInfo;
use crate::traits::BackendBuffer;
use crate::traits::BackendPhysicalDevice;
use crate::traits::GenericBuffer;
use crate::traits::GenericPhysicalDevice;
use crate::wire::usize_from_u64;
use crate::protocol::MagmaHeap;
use crate::protocol::MagmaHeapBudget;
use crate::protocol::MagmaMemoryType;
use crate::protocol::MagmaQueueFamilyProperties;
use crate::protocol::MagmaQueueFlags;
use crate::protocol::MagmaSubmitAddressSpaceInfo;
use crate::submit::MagmaSubmitBufferInfo;

verus! {

/// Size of the single unified memory heap.
pub const KGSL_HEAP_SIZE: u64 = 0x1_0000_0000;

/// An address space, backed by a virtual buffer object of the kernel
/// (id 0 when none could be allocated) that covers GPU addresses from
/// `vbo_base` on.
#[derive(Debug, Clone, Copy, PartialEq, Eq, Structural)]
pub struct KgslAddressSpace {
    pub vbo_id: u32,
    pub vbo_base: u64,
    pub vbo_size: u64,
}

impl KgslAddressSpace {
    /// The address space of the virtual buffer object that the kernel
    /// allocated.
    pub fn new(vbo_id: u32, vbo_base: u64, vbo_size: u64) -> (r: KgslAddressSpace)
        ensures
            r == (KgslAddressSpace { vbo_id, vbo_base, vbo_size }),
    {
        KgslAddressSpace { vbo_id, vbo_base, vbo_size }
    }

    /// The offset inside the virtual buffer object of GPU address
    /// `gpu_va`: relative to its base from the base on, the address itself
    /// below it.
    pub fn compute_target_offset(&self, gpu_va: u64) -> (r: u64)
        ensures
            gpu_va >= self.vbo_base ==> r == gpu_va - self.vbo_base,
            gpu_va < self.vbo_base ==> r == gpu_va,
    {
        if gpu_va >= self.vbo_base {
            gpu_va - self.vbo_base
        } else {
            gpu_va
        }
    }

    /// The kernel id of the address space, when there is one.
    pub fn as_vm_id(&self) -> (r: Option<u32>)
        ensures
            self.vbo_id != 0 ==> r == Some(self.vbo_id),
            self.vbo_id == 0 ==> r is None,
    {
        if self.vbo_id != 0 {
            Some(self.vbo_id)
        } else {
            None
        }
    }
}

/// The two memory types, coherent and coherent-cached, both device local
/// and host visible on heap 0.
pub fn get_memory_types() -> (r: Vec<MagmaMemoryType>)
    ensures
        r@ == seq![
            MagmaMemoryType {
                property_flags: MAGMA_MEMORY_PROPERTY_DEVICE_LOCAL_BIT | MAGMA_MEMORY_PROPERTY_HOST_VISIBLE_BIT
                    | MAGMA_MEMORY_PROPERTY_HOST_COHERENT_BIT,
                heap_idx: 0,
            },
            MagmaMemoryType {
                property_flags: MAGMA_MEMORY_PROPERTY_DEVICE_LOCAL_BIT | MAGMA_MEMORY_PROPERTY_HOST_VISIBLE_BIT
                    | MAGMA_MEMORY_PROPERTY_HOST_COHERENT_BIT | MAGMA_MEMORY_PROPERTY_HOST_CACHED_BIT,
                heap_idx: 0,
            },
        ],
{
    let mut v: Vec<MagmaMemoryType> = Vec::new();
    v.push(
        MagmaMemoryType {
            property_flags: MAGMA_MEMORY_PROPERTY_DEVICE_LOCAL_BIT | MAGMA_MEMORY_PROPERTY_HOST_VISIBLE_BIT
                | MAGMA_MEMORY_PROPERTY_HOST_COHERENT_BIT,
            heap_idx: 0,
        },
    );
    v.push(
        MagmaMemoryType {
            property_flags: MAGMA_MEMORY_PROPERTY_DEVICE_LOCAL_BIT | MAGMA_MEMORY_PROPERTY_HOST_VISIBLE_BIT
                | MAGMA_MEMORY_PROPERTY_HOST_COHERENT_BIT | MAGMA_MEMORY_PROPERTY_HOST_CACHED_BIT,
            heap_idx: 0,
        },
    );
    assert(v@ =~= seq![
        MagmaMemoryType {
            property_flags: MAGMA_MEMORY_PROPERTY_DEVICE_LOCAL_BIT | MAGMA_MEMORY_PROPERTY_HOST_VISIBLE_BIT
                | MAGMA_MEMORY_PROPERTY_HOST_COHERENT_BIT,
            heap_idx: 0,
        },
        MagmaMemoryType {
            property_flags: MAGMA_MEMORY_PROPERTY_DEVICE_LOCAL_BIT | MAGMA_MEMORY_PROPERTY_HOST_VISIBLE_BIT
                | MAGMA_MEMORY_PROPERTY_HOST_COHERENT_BIT | MAGMA_MEMORY_PROPERTY_HOST_CACHED_BIT,
            heap_idx: 0,
        },
    ]);
    v
}

/// The single unified heap of 4 GiB, device local and CPU visible.
pub fn get_memory_heaps() -> (r: Vec<MagmaHeap>)
    ensures
        r@ == seq![
            MagmaHeap {
                heap_size: KGSL_HEAP_SIZE,
                heap_flags: MAGMA_HEAP_DEVICE_LOCAL_BIT | MAGMA_HEAP_CPU_VISIBLE_BIT,
            },
        ],
{
    let mut v: Vec<MagmaHeap> = Vec::new();
    v.push(MagmaHeap { heap_size: KGSL_HEAP_SIZE, heap_flags: MAGMA_HEAP_DEVICE_LOCAL_BIT | MAGMA_HEAP_CPU_VISIBLE_BIT });
    assert(v@ =~= seq![
        MagmaHeap {
            heap_size: KGSL_HEAP_SIZE,
            heap_flags: MAGMA_HEAP_DEVICE_LOCAL_BIT | MAGMA_HEAP_CPU_VISIBLE_BIT,
        },
    ]);
    v
}

/// The GPU id of a device: the one the kernel reports, or, when it reports
/// 0, the decimal reading of the core, major and minor bytes of the chip id
/// (core times 100 plus major times 10 plus minor).
pub open spec fn spec_gpu_id(chip_id: u32, gpu_id: u32) -> u32 {
    if gpu_id != 0 {
        gpu_id
    } else {
        let core = (chip_id as u64 >> 24u64) & 0xffu64;
        let major = (chip_id as u64 >> 16u64) & 0xffu64;
        let minor = (chip_id as u64 >> 8u64) & 0xffu64;
        (core * 100 + major * 10 + minor) as u32
    }
}

/// The kernel's GPU id wins when it is not 0; otherwise the id reads the
/// top three bytes of the chip id as decimal digits: the top byte counts
/// hundreds, the next tens and the third units.
pub proof fn lemma_gpu_id_digits(chip_id: u32, gpu_id: u32)
    ensures
        gpu_id != 0 ==> spec_gpu_id(chip_id, gpu_id) == gpu_id,
        spec_gpu_id(chip_id, 0) == 100 * (chip_id / 0x100_0000) + 10 * ((chip_id / 0x1_0000) % 0x100)
            + (chip_id / 0x100) % 0x100,
{
    let c = chip_id as u64;
    assert((c >> 24u64) & 0xffu64 == c / 0x100_0000 && (c >> 16u64) & 0xffu64 == (c / 0x1_0000) % 0x100
        && (c >> 8u64) & 0xffu64 == (c / 0x100) % 0x100) by (bit_vector)
        requires
            c <= 0xffff_ffffu64,
    ;
    assert(c / 0x100_0000 == chip_id / 0x100_0000);
    assert((c / 0x1_0000) % 0x100 == (chip_id / 0x1_0000) % 0x100);
    assert((c / 0x100) % 0x100 == (chip_id / 0x100) % 0x100);
}

/// The GPU id of a device whose kernel reports `chip_id` and `gpu_id`.
pub fn derive_gpu_id(chip_id: u32, gpu_id: u32) -> (r: u32)
    ensures
        r == spec_gpu_id(chip_id, gpu_id),
{
    if gpu_id != 0 {
        return gpu_id;
    }
    let cid = chip_id as u64;
    let core = (cid >> 24) & 0xff;
    let major = (cid >> 16) & 0xff;
    let minor = (cid >> 8) & 0xff;
    assert(core <= 0xff && major <= 0xff && minor <= 0xff) by (bit_vector)
        requires
            core == (cid >> 24u64) & 0xffu64,
            major == (cid >> 16u64) & 0xffu64,
            minor == (cid >> 8u64) & 0xffu64,
    ;
    (core * 100 + major * 10 + minor) as u32
}

impl KgslAddressSpace {
    /// Where a buffer with kernel id `child_id` goes when mapped at
    /// `gpu_va` for `size` bytes: `Unimplemented` for a buffer without a
    /// kernel id; nothing to do without a virtual buffer object; the buffer
    /// id and the offset in the object when the range fits in it, else
    /// `Unimplemented`.
    pub fn map_target(&self, child_id: Option<u32>, gpu_va: u64, size: u64) -> (r: Result<Option<(u32, u64)>, Error>)
        ensures
            child_id is None ==> r == Err::<Option<(u32, u64)>, Error>(Error::Unimplemented),
            child_id is Some && self.vbo_id == 0 ==> r == Ok::<Option<(u32, u64)>, Error>(None),
            child_id is Some && self.vbo_id != 0 ==> ({
                let off: u64 = if gpu_va >= self.vbo_base {
                    (gpu_va - self.vbo_base) as u64
                } else {
                    gpu_va
                };
                &&& off + size <= self.vbo_size ==> r == Ok::<Option<(u32, u64)>, Error>(Some((child_id->0, off)))
                &&& off + size > self.vbo_size ==> r == Err::<Option<(u32, u64)>, Error>(Error::Unimplemented)
            }),
    {
        let child = match child_id {
            Some(c) => c,
            None => {
                return Err(Error::Unimplemented);
            },
        };
        if self.vbo_id == 0 {
            return Ok(None);
        }
        let target_offset = self.compute_target_offset(gpu_va);
        match target_offset.checked_add(size) {
            None => Err(Error::Unimplemented),
            Some(end) => if end > self.vbo_size {
                Err(Error::Unimplemented)
            } else {
                Ok(Some((child, target_offset)))
            },
        }
    }

    /// The offset in the virtual buffer object to unbind for GPU address
    /// `gpu_va`; nothing to do without an object.
    pub fn unmap_target(&self, gpu_va: u64) -> (r: Option<u64>)
        ensures
            self.vbo_id == 0 ==> r is None,
            self.vbo_id != 0 && gpu_va >= self.vbo_base ==> r == Some((gpu_va - self.vbo_base) as u64),
            self.vbo_id != 0 && gpu_va < self.vbo_base ==> r == Some(gpu_va),
    {
        if self.vbo_id == 0 {
            None
        } else {
            Some(self.compute_target_offset(gpu_va))
        }
    }
}

/// The single queue family: graphics and compute, one queue.
pub fn get_queue_family_properties() -> (r: Result<Vec<MagmaQueueFamilyProperties>, Error>)
    ensures
        r is Ok,
        r->Ok_0@.len() == 1,
        r->Ok_0@[0].queue_flags.spec_bits() == 3,
        r->Ok_0@[0].queue_count == 1,
{
    let mut v: Vec<MagmaQueueFamilyProperties> = Vec::new();
    // Graphics and compute.
    v.push(MagmaQueueFamilyProperties::new(MagmaQueueFlags::from_bits_retain(3), 1));
    Ok(v)
}

/// Budget of heap `heap_idx` among `mem_heaps`: its whole size, with no
/// usage counted; `InvalidArgs` for an index past the heaps.
pub fn get_memory_budget(mem_heaps: &[MagmaHeap], heap_idx: u32) -> (r: Result<MagmaHeapBudget, Error>)
    ensures
        heap_idx >= mem_heaps@.len() ==> r == Err::<MagmaHeapBudget, Error>(Error::InvalidArgs),
        heap_idx < mem_heaps@.len() ==> r == Ok::<MagmaHeapBudget, Error>(
            MagmaHeapBudget { budget: mem_heaps@[heap_idx as int].heap_size, usage: 0 },
        ),
{
    if (heap_idx as usize) < mem_heaps.len() {
        Ok(MagmaHeapBudget { budget: mem_heaps[heap_idx as usize].heap_size, usage: 0 })
    } else {
        Err(Error::InvalidArgs)
    }
}

/// The raw handle of a sync object backed by fence descriptor `fence_fd`:
/// the descriptor when it is valid (not negative).
pub fn fence_handle(fence_fd: i32) -> (r: Option<u32>)
    ensures
        fence_fd >= 0 ==> r == Some(fence_fd as u32),
        fence_fd < 0 ==> r is None,
{
    if fence_fd >= 0 {
        Some(fence_fd as u32)
    } else {
        None
    }
}

/// Cache mode field of the allocation flags.
pub const KGSL_CACHEMODE_SHIFT: u64 = 26;
/// Cache mode write-combined.
pub const KGSL_CACHEMODE_WRITECOMBINE: u64 = 0;
/// Cache mode write-back.
pub const KGSL_CACHEMODE_WRITEBACK: u64 = 3;
/// Allocation flag: the memory is coherent with the CPU caches.
pub const KGSL_MEMFLAGS_IOCOHERENT: u64 = 0x8000_0000;

/// The allocation flags of a buffer: write-back and I/O coherent when
/// cached, write-combined else.
pub fn gpumem_alloc_flags(is_cached: bool) -> (r: u64)
    ensures
        is_cached ==> r == (KGSL_CACHEMODE_WRITEBACK << KGSL_CACHEMODE_SHIFT) | KGSL_MEMFLAGS_IOCOHERENT,
        !is_cached ==> r == KGSL_CACHEMODE_WRITECOMBINE << KGSL_CACHEMODE_SHIFT,
{
    if is_cached {
        (KGSL_CACHEMODE_WRITEBACK << KGSL_CACHEMODE_SHIFT) | KGSL_MEMFLAGS_IOCOHERENT
    } else {
        KGSL_CACHEMODE_WRITECOMBINE << KGSL_CACHEMODE_SHIFT
    }
}

/// How a buffer of memory type `memory_type_idx` among `mem_types` is
/// allocated and mapped: whether it is cached and its CPU mapping mode;
/// `InvalidArgs` for an index past the types.
pub fn buffer_memory(mem_types: &[MagmaMemoryType], memory_type_idx: u32) -> (r: Result<(bool, Option<u32>), Error>)
    ensures
        memory_type_idx >= mem_types@.len() ==> r == Err::<(bool, Option<u32>), Error>(Error::InvalidArgs),
        memory_type_idx < mem_types@.len() ==> ({
            let f = mem_types@[memory_type_idx as int].property_flags;
            r == Ok::<(bool, Option<u32>), Error>((f & MAGMA_MEMORY_PROPERTY_HOST_CACHED_BIT != 0, spec_map_info(f)))
        }),
{
    if memory_type_idx as usize >= mem_types.len() {
        return Err(Error::InvalidArgs);
    }
    let memory_type = &mem_types[memory_type_idx as usize];
    Ok((memory_type.is_cached(), memory_type.get_map_info()))
}

/// The command list entry is an indirect buffer.
pub const KGSL_CMDLIST_IB: u32 = 0x1;
/// The command batch is a list of indirect buffers.
pub const KGSL_CMDBATCH_SUBMIT_IB_LIST: u32 = 0x4;
/// A sync point that waits on a fence.
pub const KGSL_CMD_SYNCPOINT_TYPE_FENCE: u32 = 1;

/// The command object of a submission.
#[derive(Debug, Clone, Copy, PartialEq, Eq)]
pub struct KgslCommandObject {
    pub offset: u64,
    pub gpuaddr: u64,
    pub size: u64,
    pub flags: u32,
    pub id: u32,
}

/// What a command submission hands to the kernel: one command object and
/// the fences it waits on.
#[derive(Debug, Clone, PartialEq, Eq)]
pub struct KgslGpuCommand {
    pub cmd: KgslCommandObject,
    pub fences: Vec<i32>,
}

/// The fences for the raw handles `handles` of the waited sync objects:
/// one per object with a handle, in order.
pub open spec fn wait_fences(handles: Seq<Option<u32>>) -> Seq<i32>
    decreases handles.len(),
{
    if handles.len() == 0 {
        Seq::empty()
    } else {
        let prev = wait_fences(handles.drop_last());
        match handles.last() {
            Some(h) => prev.push(h as i32),
            None => prev,
        }
    }
}

/// One fence per handle that is there, in order: the handle itself.
pub proof fn lemma_wait_fences_follow_handles(handles: Seq<Option<u32>>)
    ensures
        wait_fences(handles).len() == present_handles(handles).len(),
        forall|i: int| #![trigger wait_fences(handles)[i]]
            0 <= i < wait_fences(handles).len() ==> wait_fences(handles)[i] == present_handles(handles)[i]->0 as i32,
    decreases handles.len(),
{
    if handles.len() > 0 {
        lemma_wait_fences_follow_handles(handles.drop_last());
        lemma_present_handles_step(handles);
    }
}

/// The command submission for commands at `as_info` (a GPU address), or
/// else in the command buffer of `buf_info`, waiting on the sync objects
/// with raw handles `wait_handles`; `Unimplemented` when neither tells
/// where the commands are.
pub fn gpu_command(
    as_info: Option<MagmaSubmitAddressSpaceInfo>,
    buf_info: Option<MagmaSubmitBufferInfo>,
    wait_handles: &[Option<u32>],
) -> (r: Result<KgslGpuCommand, Error>)
    ensures
        as_info is None && buf_info is None ==> r == Err::<KgslGpuCommand, Error>(Error::Unimplemented),
        as_info is Some || buf_info is Some ==> r is Ok && r->Ok_0.fences@ == wait_fences(wait_handles@),
        as_info is Some ==> r is Ok && r->Ok_0.cmd == (KgslCommandObject {
            offset: 0,
            gpuaddr: as_info->0.command_va,
            size: as_info->0.length,
            flags: KGSL_CMDLIST_IB,
            id: 0,
        }),
        as_info is None && buf_info is Some ==> r is Ok && r->Ok_0.cmd == (KgslCommandObject {
            offset: buf_info->0.start_offset,
            gpuaddr: 0,
            size: buf_info->0.length,
            flags: KGSL_CMDLIST_IB,
            id: buf_info->0.command_buffer,
        }),
{
    let (cmd_id, cmd_gpuaddr, cmd_offset, cmd_size) = if let Some(a) = as_info {
        (0u32, a.command_va, 0u64, a.length)
    } else if let Some(b) = buf_info {
        (b.command_buffer, 0u64, b.start_offset, b.length)
    } else {
        return Err(Error::Unimplemented);
    };
    let cmd = KgslCommandObject { offset: cmd_offset, gpuaddr: cmd_gpuaddr, size: cmd_size, flags: KGSL_CMDLIST_IB, id: cmd_id };
    let mut fences: Vec<i32> = Vec::new();
    let mut i: usize = 0;
    while i < wait_handles.len()
        invariant
            i <= wait_handles@.len(),
            fences@ == wait_fences(wait_handles@.take(i as int)),
        decreases wait_handles.len() - i,
    {
        assert(wait_handles@.take(i as int + 1).drop_last() =~= wait_handles@.take(i as int));
        if let Some(h) = wait_handles[i] {
            fences.push(h as i32);
        }
        i = i + 1;
    }
    assert(wait_handles@.take(i as int) =~= wait_handles@);
    Ok(KgslGpuCommand { cmd, fences })
}

/// What a buffer of the kgsl driver holds, as the contracts see it.
#[derive(Debug, Clone, Copy, PartialEq, Eq, Structural)]
pub struct KgslBufferView {
    pub id: u32,
    pub gpuaddr: u64,
    pub size: usize,
    pub map_info: Option<u32>,
}

/// A buffer of the kgsl driver: its kernel id, GPU address, size and CPU
/// mapping mode.
pub struct KgslBuffer<P: BackendPhysicalDevice> {
    physical_device: Arc<P>,
    id: u32,
    gpuaddr: u64,
    size: usize,
    map_info: Option<u32>,
}

impl<P: BackendPhysicalDevice> View for KgslBuffer<P> {
    type V = KgslBufferView;

    closed spec fn view(&self) -> KgslBufferView {
        KgslBufferView { id: self.id, gpuaddr: self.gpuaddr, size: self.size, map_info: self.map_info }
    }
}

impl<P: BackendPhysicalDevice> KgslBuffer<P> {
    /// The physical device the buffer lives on.
    pub closed spec fn spec_physical_device(&self) -> Arc<P> {
        self.physical_device
    }

    /// The buffer that the kernel allocated with id `id` at `gpuaddr` for a
    /// request of `size` bytes, mapped with `map_info`; `TryFromIntError`
    /// when the size does not fit a `usize`.
    pub fn new(physical_device: Arc<P>, id: u32, gpuaddr: u64, size: u64, map_info: Option<u32>) -> (r: Result<Self, Error>)
        ensures
            size <= usize::MAX ==> r is Ok && r->Ok_0@ == (KgslBufferView { id, gpuaddr, size: size as usize, map_info })
                && r->Ok_0.spec_physical_device() == physical_device,
            size > usize::MAX ==> r is Err && r->Err_0 == Error::PlatformError(PlatformError::TryFromIntError),
    {
        let size = match usize_from_u64(size) {
            Some(s) => s,
            None => {
                return Err(Error::PlatformError(PlatformError::TryFromIntError));
            },
        };
        Ok(KgslBuffer { physical_device, id, gpuaddr, size, map_info })
    }

    /// The buffer that id `id` already names, at `gpuaddr` (0 when the
    /// kernel could not tell), of `size` bytes, mapped with `map_info`.
    pub fn from_existing(physical_device: Arc<P>, id: u32, gpuaddr: u64, size: usize, map_info: Option<u32>) -> (r: Result<Self, Error>)
        ensures
            r is Ok,
            r->Ok_0@ == (KgslBufferView { id, gpuaddr, size, map_info }),
            r->Ok_0.spec_physical_device() == physical_device,
    {
        Ok(KgslBuffer { physical_device, id, gpuaddr, size, map_info })
    }

    /// The buffer that the kernel allocated with id `id` at `gpuaddr` for a
    /// request as `create_info` asks, on a device with memory types
    /// `mem_types`: `InvalidArgs` for a memory type index past the types;
    /// else the requested size, mapped as its memory type maps, and
    /// `TryFromIntError` when the size does not fit a `usize`. The kernel is
    /// asked for the memory with the caching that `buffer_memory` gives.
    pub fn buffer_from_created(
        mem_types: &[MagmaMemoryType],
        create_info: &MagmaCreateBufferInfo,
        physical_device: Arc<P>,
        id: u32,
        gpuaddr: u64,
    ) -> (r: Result<Self, Error>)
        ensures
            create_info.memory_type_idx >= mem_types@.len() ==> r == Err::<Self, Error>(Error::InvalidArgs),
            create_info.memory_type_idx < mem_types@.len() && create_info.size <= usize::MAX ==> r is Ok && r->Ok_0@ == (KgslBufferView {
                id,
                gpuaddr,
                size: create_info.size as usize,
                map_info: spec_map_info(mem_types@[create_info.memory_type_idx as int].property_flags),
            }) && r->Ok_0.spec_physical_device() == physical_device,
            create_info.memory_type_idx < mem_types@.len() && create_info.size > usize::MAX ==> r is Err && r->Err_0
                == Error::PlatformError(PlatformError::TryFromIntError),
    {
        let memory = buffer_memory(mem_types, create_info.memory_type_idx);
        let map_info = match memory {
            Ok((_, m)) => m,
            Err(e) => {
                return Err(e);
            },
        };
        KgslBuffer::new(physical_device, id, gpuaddr, create_info.size, map_info)
    }

    /// Where the CPU maps the buffer in the device file: page `id`.
    pub fn mmap_offset(&self) -> (r: u64)
        ensures
            r == self@.id as u64 * 4096,
    {
        let id = self.id as u64;
        assert(id << 12u64 == id * 4096) by (bit_vector)
            requires
                id < 0x1_0000_0000u64,
        ;
        id << 12
    }

    /// The GPU address of the buffer.
    pub fn gpuaddr(&self) -> (r: u64)
        ensures
            r == self@.gpuaddr,
    {
        self.gpuaddr
    }
}

impl<P: BackendPhysicalDevice> GenericBuffer for KgslBuffer<P> {
    fn get_map_info(&self) -> (r: Option<u32>)
        ensures
            r == self@.map_info,
    {
        self.map_info
    }

    fn as_gem_handle(&self) -> (r: Option<u32>)
        ensures
            r == Some(self@.id),
    {
        Some(self.id)
    }
}

impl<P: BackendPhysicalDevice> BackendBuffer for KgslBuffer<P> {}

/// A command queue of the kgsl driver: its kernel draw context.
pub struct KgslQueue<P: BackendPhysicalDevice> {
    physical_device: Arc<P>,
    context_id: u32,
}

impl<P: BackendPhysicalDevice> KgslQueue<P> {
    /// The kernel draw context id.
    pub closed spec fn spec_context_id(&self) -> u32 {
        self.context_id
    }

    /// The queue of the draw context that the kernel created with id
    /// `context_id`.
    pub fn new(physical_device: Arc<P>, context_id: u32) -> (r: Result<Self, Error>)
        ensures
            r is Ok,
            r->Ok_0.spec_context_id() == context_id,
    {
        Ok(KgslQueue { physical_device, context_id })
    }

    /// The kernel draw context id.
    pub fn context_id(&self) -> (r: u32)
        ensures
            r == self.spec_context_id(),
    {
        self.context_id
    }
}

/// A sync object of the kgsl driver: a fence descriptor, and the sync
/// source that signals it when the guest created it (0 for an imported
/// fence).
pub struct KgslSyncObject<P: BackendPhysicalDevice> {
    physical_device: Arc<P>,
    syncsource_id: u32,
    fence_fd: i32,
}

impl<P: BackendPhysicalDevice> KgslSyncObject<P> {
    /// The sync source id.
    pub closed spec fn spec_syncsource_id(&self) -> u32 {
        self.syncsource_id
    }

    /// The fence descriptor.
    pub closed spec fn spec_fence_fd(&self) -> i32 {
        self.fence_fd
    }

    /// The object of the sync source `syncsource_id` and its fence
    /// `fence_fd`, that the kernel created.
    pub fn new(physical_device: Arc<P>, syncsource_id: u32, fence_fd: i32) -> (r: Result<Self, Error>)
        ensures
            r is Ok,
            r->Ok_0.spec_syncsource_id() == syncsource_id,
            r->Ok_0.spec_fence_fd() == fence_fd,
    {
        Ok(KgslSyncObject { physical_device, syncsource_id, fence_fd })
    }

    /// The object of the imported fence `fence_fd`, without a sync source.
    pub fn from_import(physical_device: Arc<P>, fence_fd: i32) -> (r: Result<Self, Error>)
        ensures
            r is Ok,
            r->Ok_0.spec_syncsource_id() == 0,
            r->Ok_0.spec_fence_fd() == fence_fd,
    {
        Ok(KgslSyncObject { physical_device, syncsource_id: 0, fence_fd })
    }

    /// The raw handle of the object: its fence descriptor, when valid.
    pub fn as_raw_handle(&self) -> (r: Option<u32>)
        ensures
            self.spec_fence_fd() >= 0 ==> r == Some(self.spec_fence_fd() as u32),
            self.spec_fence_fd() < 0 ==> r is None,
    {
        fence_handle(self.fence_fd)
    }

    /// Whether dropping the object also destroys a sync source.
    pub fn owns_syncsource(&self) -> (r: bool)
        ensures
            r == (self.spec_syncsource_id() != 0),
    {
        self.syncsource_id != 0
    }
}

/// What a kgsl device holds, as the contracts see it.
pub struct KgslView {
    pub mem_types: Seq<MagmaMemoryType>,
    pub mem_heaps: Seq<MagmaHeap>,
}

/// A logical device of the kgsl driver, with its memory types and heaps.
pub struct Kgsl<P: BackendPhysicalDevice> {
    physical_device: Arc<P>,
    mem_types: Vec<MagmaMemoryType>,
    mem_heaps: Vec<MagmaHeap>,
}

impl<P: BackendPhysicalDevice> View for Kgsl<P> {
    type V = KgslView;

    closed spec fn view(&self) -> KgslView {
        KgslView { mem_types: self.mem_types@, mem_heaps: self.mem_heaps@ }
    }
}

impl<P: BackendPhysicalDevice> Kgsl<P> {
    /// The physical device of the device.
    pub closed spec fn spec_physical_device(&self) -> Arc<P> {
        self.physical_device
    }

    /// The device with the memory types and heaps of its physical device;
    /// the first failure of the two queries is returned.
    pub fn new(physical_device: Arc<P>) -> (r: Result<Self, Error>)
        ensures
            r is Ok ==> {
                &&& r->Ok_0.spec_physical_device() == physical_device
                &&& physical_device.reports_memory_types(Ok(r->Ok_0@.mem_types))
                &&& physical_device.reports_memory_heaps(Ok(r->Ok_0@.mem_heaps))
            },
            r is Err ==> physical_device.reports_memory_types(Err(r->Err_0)) || {
                &&& exists|t: Seq<MagmaMemoryType>| #[trigger] physical_device.reports_memory_types(Ok(t))
                &&& physical_device.reports_memory_heaps(Err(r->Err_0))
            },
    {
        let mem_types = physical_device.get_memory_types()?;
        let mem_heaps = physical_device.get_memory_heaps()?;
        Ok(Kgsl { physical_device, mem_types, mem_heaps })
    }

    /// Budget of heap `heap_idx`: its whole size, with no usage counted.
    pub fn get_memory_budget(&self, heap_idx: u32) -> (r: Result<MagmaHeapBudget, Error>)
        ensures
            heap_idx >= self@.mem_heaps.len() ==> r == Err::<MagmaHeapBudget, Error>(Error::InvalidArgs),
            heap_idx < self@.mem_heaps.len() ==> r == Ok::<MagmaHeapBudget, Error>(
                MagmaHeapBudget { budget: self@.mem_heaps[heap_idx as int].heap_size, usage: 0 },
            ),
    {
        get_memory_budget(self.mem_heaps.as_slice(), heap_idx)
    }

    /// How a new buffer as `create_info` asks is allocated and mapped.
    pub fn buffer_memory(&self, create_info: &MagmaCreateBufferInfo) -> (r: Result<(bool, Option<u32>), Error>)
        ensures
            create_info.memory_type_idx >= self@.mem_types.len() ==> r == Err::<(bool, Option<u32>), Error>(
                Error::InvalidArgs,
            ),
            create_info.memory_type_idx < self@.mem_types.len() ==> ({
                let f = self@.mem_types[create_info.memory_type_idx as int].property_flags;
                r == Ok::<(bool, Option<u32>), Error>((f & MAGMA_MEMORY_PROPERTY_HOST_CACHED_BIT != 0, spec_map_info(f)))
            }),
    {
        buffer_memory(self.mem_types.as_slice(), create_info.memory_type_idx)
    }
}

/// Memory flag: the object is a virtual buffer object, into which other
/// objects are bound.
pub const KGSL_MEMFLAGS_VBO: u64 = 0x4_0000_0000;
/// Memory flag: ranges of a virtual buffer object that nothing is bound to
/// are not backed by a zero page.
pub const KGSL_MEMFLAGS_VBO_NO_MAP_ZERO: u64 = 0x8_0000_0000;
/// Number of sizes that the search for a virtual buffer object tries.
pub const VBO_LADDER_LEN: usize = 6;

/// The size tried at rung `rung` of the search, from 1 TiB down to 4 GiB.
pub open spec fn vbo_rung_size(rung: int) -> u64 {
    if rung == 0 {
        0x100_0000_0000
    } else if rung == 1 {
        0x40_0000_0000
    } else if rung == 2 {
        0x20_0000_0000
    } else if rung == 3 {
        0x10_0000_0000
    } else if rung == 4 {
        0x4_0000_0000
    } else {
        0x1_0000_0000
    }
}

/// The size tried at rung `rung` of the search.
pub fn vbo_ladder_size(rung: usize) -> (r: u64)
    requires
        rung < VBO_LADDER_LEN,
    ensures
        r == vbo_rung_size(rung as int),
{
    if rung == 0 {
        0x100_0000_0000
    } else if rung == 1 {
        0x40_0000_0000
    } else if rung == 2 {
        0x20_0000_0000
    } else if rung == 3 {
        0x10_0000_0000
    } else if rung == 4 {
        0x4_0000_0000
    } else {
        0x1_0000_0000
    }
}

/// Where the search for a virtual buffer object stands.
#[derive(Debug, Clone, Copy, PartialEq, Eq, Structural)]
pub enum VboSearch {
    /// The object of rung `0` is being allocated.
    Allocating(usize),
    /// The object `1`, allocated at rung `0`, is being located.
    Locating(usize, u32),
    /// The object of rung `0` could not be located and is being freed.
    Freeing(usize),
    /// The search is over.
    Finished,
}

/// What the kernel is asked next.
#[derive(Debug, Clone, Copy, PartialEq, Eq, Structural)]
pub enum VboAction {
    /// Allocate an object of `size` bytes with memory flags `flags`.
    Alloc { size: u64, flags: u64 },
    /// Report the GPU address of object `id`.
    Info { id: u32 },
    /// Free object `id`; its result does not matter.
    Free { id: u32 },
    /// Nothing more: the address space found (all zero when no size fit).
    Done(KgslAddressSpace),
}

/// What the kernel answered.
#[derive(Debug, Clone, Copy, PartialEq, Eq, Structural)]
pub enum VboEvent {
    /// The allocation gave this object, or failed.
    Allocated(Option<u32>),
    /// The object lies at this GPU address, or the query failed.
    Located(Option<u64>),
    /// The object was freed, or not.
    Freed,
}

/// The address space of no virtual buffer object.
pub open spec fn no_vbo() -> KgslAddressSpace {
    KgslAddressSpace { vbo_id: 0, vbo_base: 0, vbo_size: 0 }
}

/// Whether `s` names a rung of the search.
pub open spec fn vbo_state_valid(s: VboSearch) -> bool {
    match s {
        VboSearch::Allocating(i) => i < VBO_LADDER_LEN,
        VboSearch::Locating(i, _) => i < VBO_LADDER_LEN,
        VboSearch::Freeing(i) => i < VBO_LADDER_LEN,
        VboSearch::Finished => true,
    }
}

/// Whether `e` answers what the search asked in state `s`.
pub open spec fn vbo_accepts(s: VboSearch, e: VboEvent) -> bool {
    match s {
        VboSearch::Allocating(_) => e is Allocated,
        VboSearch::Locating(_, _) => e is Located,
        VboSearch::Freeing(_) => e is Freed,
        VboSearch::Finished => false,
    }
}

/// The search moved on to rung `j`: its allocation when there is such a
/// rung, else the end without an object.
pub open spec fn vbo_rung(j: int) -> (VboSearch, VboAction) {
    if j < VBO_LADDER_LEN {
        (
            VboSearch::Allocating(j as usize),
            VboAction::Alloc { size: vbo_rung_size(j), flags: KGSL_MEMFLAGS_VBO | KGSL_MEMFLAGS_VBO_NO_MAP_ZERO },
        )
    } else {
        (VboSearch::Finished, VboAction::Done(no_vbo()))
    }
}

/// One step of the search: an allocation that fails moves on to the next
/// rung; one that succeeds is located; a located object ends the search
/// with its address and the rung's size; one that cannot be located is
/// freed, and the search moves on.
pub open spec fn vbo_transition(s: VboSearch, e: VboEvent) -> (VboSearch, VboAction) {
    match (s, e) {
        (VboSearch::Allocating(i), VboEvent::Allocated(None)) => vbo_rung(i + 1),
        (VboSearch::Allocating(i), VboEvent::Allocated(Some(id))) => (VboSearch::Locating(i, id), VboAction::Info { id }),
        (VboSearch::Locating(i, id), VboEvent::Located(Some(base))) => (
            VboSearch::Finished,
            VboAction::Done(KgslAddressSpace { vbo_id: id, vbo_base: base, vbo_size: vbo_rung_size(i as int) }),
        ),
        (VboSearch::Locating(i, id), VboEvent::Located(None)) => (VboSearch::Freeing(i), VboAction::Free { id }),
        (VboSearch::Freeing(i), VboEvent::Freed) => vbo_rung(i + 1),
        _ => (s, VboAction::Done(no_vbo())),
    }
}

fn vbo_next_rung(j: usize) -> (r: (VboSearch, VboAction))
    requires
        j <= VBO_LADDER_LEN,
    ensures
        r == vbo_rung(j as int),
        vbo_state_valid(r.0),
{
    if j < VBO_LADDER_LEN {
        (
            VboSearch::Allocating(j),
            VboAction::Alloc { size: vbo_ladder_size(j), flags: KGSL_MEMFLAGS_VBO | KGSL_MEMFLAGS_VBO_NO_MAP_ZERO },
        )
    } else {
        (VboSearch::Finished, VboAction::Done(KgslAddressSpace { vbo_id: 0, vbo_base: 0, vbo_size: 0 }))
    }
}

/// The first step of the search: allocate at the largest size.
pub fn vbo_search_start() -> (r: (VboSearch, VboAction))
    ensures
        r == vbo_rung(0),
        vbo_state_valid(r.0),
{
    vbo_next_rung(0)
}

/// The step of the search from state `state` on the kernel's answer
/// `event`.
pub fn vbo_search_step(state: VboSearch, event: VboEvent) -> (r: (VboSearch, VboAction))
    requires
        vbo_state_valid(state),
        vbo_accepts(state, event),
    ensures
        r == vbo_transition(state, event),
        vbo_state_valid(r.0),
{
    match (state, event) {
        (VboSearch::Allocating(i), VboEvent::Allocated(None)) => vbo_next_rung(i + 1),
        (VboSearch::Allocating(i), VboEvent::Allocated(Some(id))) => (VboSearch::Locating(i, id), VboAction::Info { id }),
        (VboSearch::Locating(i, id), VboEvent::Located(Some(base))) => (
            VboSearch::Finished,
            VboAction::Done(KgslAddressSpace { vbo_id: id, vbo_base: base, vbo_size: vbo_ladder_size(i) }),
        ),
        (VboSearch::Locating(i, id), VboEvent::Located(None)) => (VboSearch::Freeing(i), VboAction::Free { id }),
        (VboSearch::Freeing(i), VboEvent::Freed) => vbo_next_rung(i + 1),
        _ => (state, VboAction::Done(KgslAddressSpace { vbo_id: 0, vbo_base: 0, vbo_size: 0 })),
    }
}

/// The address space that the search settles on when the kernel answers
/// the allocation at rung `j` with `alloc[j]` and the query of that object
/// with `info[j]`: the first rung from `i` on where both succeed.
pub open spec fn vbo_outcome(i: nat, alloc: Seq<Option<u32>>, info: Seq<Option<u64>>) -> KgslAddressSpace
    decreases VBO_LADDER_LEN - i,
{
    if i >= VBO_LADDER_LEN {
        no_vbo()
    } else {
        match (alloc[i as int], info[i as int]) {
            (Some(id), Some(base)) => KgslAddressSpace { vbo_id: id, vbo_base: base, vbo_size: vbo_rung_size(i as int) },
            _ => vbo_outcome(i + 1, alloc, info),
        }
    }
}

/// The kernel's answer, in state `s`, when it answers the allocation at
/// rung `j` with `alloc[j]` and the query with `info[j]`.
pub open spec fn vbo_answer(s: VboSearch, alloc: Seq<Option<u32>>, info: Seq<Option<u64>>) -> VboEvent {
    match s {
        VboSearch::Allocating(i) => VboEvent::Allocated(alloc[i as int]),
        VboSearch::Locating(i, _) => VboEvent::Located(info[i as int]),
        _ => VboEvent::Freed,
    }
}

/// How many steps are left at most from state `s`.
pub open spec fn vbo_steps_left(s: VboSearch) -> nat {
    match s {
        VboSearch::Allocating(i) => if i < VBO_LADDER_LEN { ((VBO_LADDER_LEN - i) * 3) as nat } else { 0 },
        VboSearch::Locating(i, _) => if i < VBO_LADDER_LEN { ((VBO_LADDER_LEN - i) * 3 - 1) as nat } else { 0 },
        VboSearch::Freeing(i) => if i < VBO_LADDER_LEN { ((VBO_LADDER_LEN - i) * 3 - 2) as nat } else { 0 },
        VboSearch::Finished => 0,
    }
}

/// The address space that the search reaches from state `s` when the kernel
/// answers as `alloc` and `info` say.
pub open spec fn vbo_run(s: VboSearch, alloc: Seq<Option<u32>>, info: Seq<Option<u64>>) -> KgslAddressSpace
    decreases vbo_steps_left(s),
{
    if !vbo_state_valid(s) || s is Finished {
        no_vbo()
    } else {
        let (s2, a) = vbo_transition(s, vbo_answer(s, alloc, info));
        match a {
            VboAction::Done(r) => r,
            _ => if vbo_steps_left(s2) < vbo_steps_left(s) {
                vbo_run(s2, alloc, info)
            } else {
                no_vbo()
            },
        }
    }
}

proof fn lemma_vbo_run_from(i: nat, alloc: Seq<Option<u32>>, info: Seq<Option<u64>>)
    requires
        i <= VBO_LADDER_LEN,
    ensures
        vbo_run(vbo_rung(i as int).0, alloc, info) == vbo_outcome(i, alloc, info),
    decreases VBO_LADDER_LEN - i,
{
    if i < VBO_LADDER_LEN {
        lemma_vbo_run_from(i + 1, alloc, info);
        let s = VboSearch::Allocating(i as usize);
        assert(vbo_rung(i as int).0 == s);
        match alloc[i as int] {
            None => {
                assert(vbo_run(s, alloc, info) == vbo_run(vbo_rung(i + 1int).0, alloc, info));
            },
            Some(id) => {
                let l = VboSearch::Locating(i as usize, id);
                match info[i as int] {
                    Some(base) => {
                        assert(vbo_run(l, alloc, info) == vbo_outcome(i, alloc, info));
                    },
                    None => {
                        let f = VboSearch::Freeing(i as usize);
                        assert(vbo_run(f, alloc, info) == vbo_run(vbo_rung(i + 1int).0, alloc, info));
                        assert(vbo_run(l, alloc, info) == vbo_run(f, alloc, info));
                    },
                }
                assert(vbo_run(s, alloc, info) == vbo_run(l, alloc, info));
            },
        }
    } else {
        assert(vbo_rung(i as int).0 == VboSearch::Finished);
    }
}

/// The search tries the sizes from the largest down and settles on the
/// first one whose object the kernel both allocates and locates, with that
/// object, its address and the size; when none does, it ends with no
/// object.
pub proof fn lemma_vbo_search_finds_first_fit(alloc: Seq<Option<u32>>, info: Seq<Option<u64>>)
    ensures
        vbo_run(vbo_rung(0).0, alloc, info) == vbo_outcome(0, alloc, info),
{
    lemma_vbo_run_from(0, alloc, info);
}

/// The timeout that a poll for `timeout_ns` nanoseconds is given, in
/// milliseconds: -1 (forever) for the largest value, else the whole
/// milliseconds, capped at `i32::MAX`.
pub fn poll_timeout_ms(timeout_ns: u64) -> (r: i32)
    ensures
        timeout_ns == u64::MAX ==> r == -1,
        timeout_ns != u64::MAX && timeout_ns / 1_000_000 <= i32::MAX ==> r == timeout_ns / 1_000_000,
        timeout_ns != u64::MAX && timeout_ns / 1_000_000 > i32::MAX ==> r == i32::MAX,
{
    if timeout_ns == u64::MAX {
        -1
    } else {
        let ms = timeout_ns / 1_000_000;
        if ms <= 0x7fff_ffff {
            ms as i32
        } else {
            i32::MAX
        }
    }
}

/// What a poll that returned `ret` means for the wait on a fence: a failure
/// is an internal error, no ready descriptor a timeout.
pub fn poll_result(ret: i32) -> (r: Result<(), Error>)
    ensures
        ret < 0 ==> r == Err::<(), Error>(Error::InternalError),
        ret == 0 ==> r == Err::<(), Error>(Error::TimedOut),
        ret > 0 ==> r == Ok::<(), Error>(()),
{
    if ret < 0 {
        Err(Error::InternalError)
    } else if ret == 0 {
        Err(Error::TimedOut)
    } else {
        Ok(())
    }
}


} // verus!
