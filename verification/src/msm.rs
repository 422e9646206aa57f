//! Qualcomm devices under the msm driver: the fixed queue family and the
//! command submissions.
use std::sync::Arc;

use vstd::prelude::*;
use crate::defines::lemma_present_handles_step;
use crate::defines::present_handles;

use crate::error::Error;
use crate::error::PlatformError;
use crate::protocol::MagmaHeap;
use crate::protocol::MagmaHeapBudget;
use crate::protocol::MagmaCreateBufferInfo;
use crate::protocol::MagmaMemoryType;
use crate::protocol::MagmaQueueFamilyProperties;
use crate::protocol::MagmaQueueFlags;
use crate::submit::MagmaSubmitBufferInfo;
use crate::traits::BackendAddressSpace;
use crate::traits::BackendBuffer;
use crate::traits::BackendPhysicalDevice;
use crate::traits::GemBufferView;
use crate::traits::GenericAddressSpace;
use crate::traits::GenericBuffer;
use crate::wire::usize_from_u64;

verus! {

/// The single queue family: graphics and compute, one queue.
pub fn get_queue_family_properties() -> (r: Result<Vec<MagmaQueueFamilyProperties>, Error>)
    ensures
        r is Ok,
        r->Ok_0@.len() == 1,
        r->Ok_0@[0].queue_flags.spec_bits() == 3,
        r->Ok_0@[0].queue_count == 1,
{
    let mut v: Vec<MagmaQueueFamilyProperties> = Vec::new();
    // Graphics and compute.
    v.push(MagmaQueueFamilyProperties::new(MagmaQueueFlags::from_bits_retain(3), 1));
    Ok(v)
}

/// The memory types that the driver reports: none.
pub fn get_memory_types() -> (r: Result<Vec<MagmaMemoryType>, Error>)
    ensures
        r is Ok,
        r->Ok_0@.len() == 0,
{
    Ok(Vec::new())
}

/// The memory heaps that the driver reports: none.
pub fn get_memory_heaps() -> (r: Result<Vec<MagmaHeap>, Error>)
    ensures
        r is Ok,
        r->Ok_0@.len() == 0,
{
    Ok(Vec::new())
}

/// Submission buffer flag: the GPU reads the buffer.
pub const MSM_SUBMIT_BO_READ: u32 = 0x0001;
/// Command type: a command buffer.
pub const MSM_SUBMIT_CMD_BUF: u32 = 0x0001;
/// Submission flag: the submission waits on sync objects.
pub const MSM_SUBMIT_SYNCOBJ_IN: u32 = 0x0800_0000;
/// Submission flag: the submission signals sync objects.
pub const MSM_SUBMIT_SYNCOBJ_OUT: u32 = 0x1000_0000;

/// A sync object entry of a submission.
#[derive(Debug, Clone, Copy, PartialEq, Eq, Structural)]
pub struct MsmSyncobj {
    pub handle: u32,
    pub flags: u32,
    pub point: u64,
}

/// What a command submission hands to the kernel: the command buffer, the
/// part of it to run, the submission flags and the sync objects.
#[derive(Debug, Clone, PartialEq, Eq)]
pub struct MsmGemSubmit {
    pub bo_handle: u32,
    pub bo_flags: u32,
    pub cmd_type: u32,
    pub submit_offset: u32,
    pub size: u32,
    pub flags: u32,
    pub queueid: u32,
    pub in_syncs: Vec<MsmSyncobj>,
    pub out_syncs: Vec<MsmSyncobj>,
}

/// The entries for the objects with raw handles `handles`: one per object
/// with a handle, in order, at point 0.
pub open spec fn syncobj_entries(handles: Seq<Option<u32>>) -> Seq<MsmSyncobj>
    decreases handles.len(),
{
    if handles.len() == 0 {
        Seq::empty()
    } else {
        let prev = syncobj_entries(handles.drop_last());
        match handles.last() {
            Some(h) => prev.push(MsmSyncobj { handle: h, flags: 0, point: 0 }),
            None => prev,
        }
    }
}

/// One entry per handle that is there, in order, each at point 0 with no
/// flag.
pub proof fn lemma_syncobj_entries_follow_handles(handles: Seq<Option<u32>>)
    ensures
        syncobj_entries(handles).len() == present_handles(handles).len(),
        forall|i: int| #![trigger syncobj_entries(handles)[i]]
            0 <= i < syncobj_entries(handles).len() ==> present_handles(handles)[i] == Some(syncobj_entries(handles)[i].handle)
                && syncobj_entries(handles)[i].flags == 0 && syncobj_entries(handles)[i].point == 0,
    decreases handles.len(),
{
    if handles.len() > 0 {
        lemma_syncobj_entries_follow_handles(handles.drop_last());
        lemma_present_handles_step(handles);
    }
}

fn build_syncobj_entries(handles: &[Option<u32>]) -> (r: Vec<MsmSyncobj>)
    ensures
        r@ == syncobj_entries(handles@),
{
    let mut out: Vec<MsmSyncobj> = Vec::new();
    let mut i: usize = 0;
    while i < handles.len()
        invariant
            i <= handles@.len(),
            out@ == syncobj_entries(handles@.take(i as int)),
        decreases handles.len() - i,
    {
        assert(handles@.take(i as int + 1).drop_last() =~= handles@.take(i as int));
        if let Some(h) = handles[i] {
            out.push(MsmSyncobj { handle: h, flags: 0, point: 0 });
        }
        i = i + 1;
    }
    assert(handles@.take(i as int) =~= handles@);
    out
}

/// The submission to queue `submit_queue_id` of the commands in the command
/// buffer of `buf_info` (offset and length cut to 32 bits), waiting on the
/// objects with raw handles `wait_handles` and signaling those with
/// `signal_handles`, with the wait and signal flags set when there are such
/// entries; `Unimplemented` without a command-buffer extension.
pub fn gem_submit(submit_queue_id: u32, buf_info: Option<MagmaSubmitBufferInfo>, wait_handles: &[Option<u32>], signal_handles: &[Option<u32>]) -> (r: Result<MsmGemSubmit, Error>)
    ensures
        buf_info is None ==> r == Err::<MsmGemSubmit, Error>(Error::Unimplemented),
        buf_info is Some ==> r is Ok && ({
            let s = r->Ok_0;
            let b = buf_info->0;
            let ins = syncobj_entries(wait_handles@);
            let outs = syncobj_entries(signal_handles@);
            let f = if ins.len() > 0 {
                MSM_SUBMIT_SYNCOBJ_IN
            } else {
                0
            };
            &&& s.bo_handle == b.command_buffer
            &&& s.bo_flags == MSM_SUBMIT_BO_READ
            &&& s.cmd_type == MSM_SUBMIT_CMD_BUF
            &&& s.submit_offset == b.start_offset as u32
            &&& s.size == b.length as u32
            &&& s.queueid == submit_queue_id
            &&& s.in_syncs@ == ins
            &&& s.out_syncs@ == outs
            &&& s.flags == (if outs.len() > 0 {
                f | MSM_SUBMIT_SYNCOBJ_OUT
            } else {
                f
            })
        }),
{
    let b = match buf_info {
        Some(b) => b,
        None => {
            return Err(Error::Unimplemented);
        },
    };
    let in_syncs = build_syncobj_entries(wait_handles);
    let out_syncs = build_syncobj_entries(signal_handles);
    let mut submit_flags: u32 = if in_syncs.len() > 0 {
        MSM_SUBMIT_SYNCOBJ_IN
    } else {
        0
    };
    if out_syncs.len() > 0 {
        submit_flags = submit_flags | MSM_SUBMIT_SYNCOBJ_OUT;
    }
    Ok(MsmGemSubmit {
        bo_handle: b.command_buffer,
        bo_flags: MSM_SUBMIT_BO_READ,
        cmd_type: MSM_SUBMIT_CMD_BUF,
        submit_offset: #[verifier::truncate] (b.start_offset as u32),
        size: #[verifier::truncate] (b.length as u32),
        flags: submit_flags,
        queueid: submit_queue_id,
        in_syncs,
        out_syncs,
    })
}

/// An address space of the msm driver; it holds nothing but its device.
pub struct MsmAddressSpace<P: BackendPhysicalDevice> {
    physical_device: Arc<P>,
}

impl<P: BackendPhysicalDevice> MsmAddressSpace<P> {
    /// The physical device of the address space.
    pub closed spec fn spec_physical_device(&self) -> Arc<P> {
        self.physical_device
    }

    /// The address space on `physical_device`.
    pub fn new(physical_device: Arc<P>) -> (r: MsmAddressSpace<P>)
        ensures
            r.spec_physical_device() == physical_device,
    {
        MsmAddressSpace { physical_device }
    }
}

impl<P: BackendPhysicalDevice> GenericAddressSpace for MsmAddressSpace<P> {
    /// This driver offers no unmapping: the answer is always
    /// `Unimplemented`.
    open spec fn unmaps(&self, gpu_va: u64, size: u64, r: Result<(), Error>) -> bool {
        r == Err::<(), Error>(Error::Unimplemented)
    }

    fn unmap_buffer_gpu(&self, gpu_va: u64, size: u64) -> (r: Result<(), Error>) {
        Err(Error::Unimplemented)
    }
}

impl<P: BackendPhysicalDevice> BackendAddressSpace for MsmAddressSpace<P> {}

/// A command queue of the msm driver: its kernel submit queue.
pub struct MsmQueue<P: BackendPhysicalDevice> {
    physical_device: Arc<P>,
    submit_queue_id: u32,
}

impl<P: BackendPhysicalDevice> MsmQueue<P> {
    /// The kernel submit queue id.
    pub closed spec fn spec_submit_queue_id(&self) -> u32 {
        self.submit_queue_id
    }

    /// The queue that the kernel created with id `submit_queue_id`.
    pub fn new(physical_device: Arc<P>, submit_queue_id: u32) -> (r: Result<Self, Error>)
        ensures
            r is Ok,
            r->Ok_0.spec_submit_queue_id() == submit_queue_id,
    {
        Ok(MsmQueue { physical_device, submit_queue_id })
    }

    /// The submission of the commands in `buf_info` to this queue.
    pub fn submit_command(&self, buf_info: Option<MagmaSubmitBufferInfo>, wait_handles: &[Option<u32>], signal_handles: &[Option<u32>]) -> (r: Result<MsmGemSubmit, Error>)
        ensures
            buf_info is None ==> r == Err::<MsmGemSubmit, Error>(Error::Unimplemented),
            buf_info is Some ==> r is Ok && r->Ok_0.queueid == self.spec_submit_queue_id()
                && r->Ok_0.in_syncs@ == syncobj_entries(wait_handles@)
                && r->Ok_0.out_syncs@ == syncobj_entries(signal_handles@),
    {
        gem_submit(self.submit_queue_id, buf_info, wait_handles, signal_handles)
    }
}

/// A logical device of the msm driver, with the memory types it knows.
pub struct Msm<P: BackendPhysicalDevice> {
    physical_device: Arc<P>,
    mem_types: Vec<MagmaMemoryType>,
}

impl<P: BackendPhysicalDevice> Msm<P> {
    /// The memory types of the device.
    pub closed spec fn spec_mem_types(&self) -> Seq<MagmaMemoryType> {
        self.mem_types@
    }

    /// The device on `physical_device`; it knows no memory type.
    pub fn new(physical_device: Arc<P>) -> (r: Msm<P>)
        ensures
            r.spec_mem_types().len() == 0,
    {
        Msm { physical_device, mem_types: Vec::new() }
    }

    /// Memory budgets are not reported: always `Unimplemented`.
    pub fn get_memory_budget(&self, heap_idx: u32) -> (r: Result<MagmaHeapBudget, Error>)
        ensures
            r == Err::<MagmaHeapBudget, Error>(Error::Unimplemented),
    {
        Err(Error::Unimplemented)
    }

    /// The mapping mode of a buffer of memory type `memory_type_idx`: none
    /// for an index past the types.
    pub fn buffer_map_info(&self, memory_type_idx: u32) -> (r: Option<u32>)
        ensures
            memory_type_idx >= self.spec_mem_types().len() ==> r is None,
            memory_type_idx < self.spec_mem_types().len() ==> r == crate::defines::spec_map_info(
                self.spec_mem_types()[memory_type_idx as int].property_flags,
            ),
    {
        if (memory_type_idx as usize) < self.mem_types.len() {
            self.mem_types[memory_type_idx as usize].get_map_info()
        } else {
            None
        }
    }
}

/// A buffer object of the msm kernel driver on a physical device:
/// its handle, size and CPU mapping mode.
pub struct MsmBuffer<P: BackendPhysicalDevice> {
    physical_device: Arc<P>,
    gem_handle: u32,
    size: usize,
    map_info: Option<u32>,
}

impl<P: BackendPhysicalDevice> View for MsmBuffer<P> {
    type V = GemBufferView;

    closed spec fn view(&self) -> GemBufferView {
        GemBufferView { gem_handle: self.gem_handle, size: self.size, map_info: self.map_info }
    }
}

impl<P: BackendPhysicalDevice> MsmBuffer<P> {
    /// The physical device the buffer lives on.
    pub closed spec fn spec_physical_device(&self) -> Arc<P> {
        self.physical_device
    }

    /// The buffer that the kernel created with handle `gem_handle` for a
    /// request of `size` bytes, mapped with `map_info`; `TryFromIntError`
    /// when the size does not fit a `usize`.
    pub fn new(physical_device: Arc<P>, gem_handle: u32, size: u64, map_info: Option<u32>) -> (r: Result<Self, Error>)
        ensures
            size <= usize::MAX ==> r is Ok && r->Ok_0@ == (GemBufferView { gem_handle, size: size as usize, map_info })
                && r->Ok_0.spec_physical_device() == physical_device,
            size > usize::MAX ==> r is Err && r->Err_0 == Error::PlatformError(PlatformError::TryFromIntError),
    {
        let size = match usize_from_u64(size) {
            Some(s) => s,
            None => {
                return Err(Error::PlatformError(PlatformError::TryFromIntError));
            },
        };
        Ok(MsmBuffer { physical_device, gem_handle, size, map_info })
    }

    /// The buffer that the kernel created with handle `gem_handle` for a
    /// request as `create_info` asks, on a device with memory types
    /// `mem_types`: the requested size, mapped as its memory type maps (not
    /// at all for an index past the types), and `TryFromIntError` when the
    /// size does not fit a `usize`.
    pub fn buffer_from_created(
        mem_types: &[MagmaMemoryType],
        create_info: &MagmaCreateBufferInfo,
        physical_device: Arc<P>,
        gem_handle: u32,
    ) -> (r: Result<Self, Error>)
        ensures
            create_info.size <= usize::MAX ==> r is Ok && r->Ok_0@ == (GemBufferView {
                gem_handle,
                size: create_info.size as usize,
                map_info: if create_info.memory_type_idx < mem_types@.len() {
                    crate::defines::spec_map_info(mem_types@[create_info.memory_type_idx as int].property_flags)
                } else {
                    None
                },
            }) && r->Ok_0.spec_physical_device() == physical_device,
            create_info.size > usize::MAX ==> r is Err && r->Err_0 == Error::PlatformError(PlatformError::TryFromIntError),
    {
        let map_info = if (create_info.memory_type_idx as usize) < mem_types.len() {
            mem_types[create_info.memory_type_idx as usize].get_map_info()
        } else {
            None
        };
        MsmBuffer::new(physical_device, gem_handle, create_info.size, map_info)
    }

    /// The buffer that handle `gem_handle` already names, of `size` bytes,
    /// mapped with `map_info`.
    pub fn from_existing(physical_device: Arc<P>, gem_handle: u32, size: usize, map_info: Option<u32>) -> (r: Result<Self, Error>)
        ensures
            r is Ok,
            r->Ok_0@ == (GemBufferView { gem_handle, size, map_info }),
            r->Ok_0.spec_physical_device() == physical_device,
    {
        Ok(MsmBuffer { physical_device, gem_handle, size, map_info })
    }

    /// The physical device the buffer lives on.
    pub fn physical_device(&self) -> (r: &Arc<P>)
        ensures
            *r == self.spec_physical_device(),
    {
        &self.physical_device
    }

    /// Size of the buffer in bytes.
    pub fn size(&self) -> (r: usize)
        ensures
            r == self@.size,
    {
        self.size
    }
}

impl<P: BackendPhysicalDevice> GenericBuffer for MsmBuffer<P> {
    fn get_map_info(&self) -> (r: Option<u32>)
        ensures
            r == self@.map_info,
    {
        self.map_info
    }

    fn as_gem_handle(&self) -> (r: Option<u32>)
        ensures
            r == Some(self@.gem_handle),
    {
        Some(self.gem_handle)
    }
}

impl<P: BackendPhysicalDevice> BackendBuffer for MsmBuffer<P> {}


} // verus!
