//! The interfaces that every GPU backend implements, and the sync object
//! interface of the virtio transport.
use std::sync::Arc;

use vstd::prelude::*;

use crate::defines::MagmaSyncType;
use crate::error::Error;
use crate::protocol::MagmaCreateQueueInfo;
use crate::protocol::MagmaCreateSyncObjInfo;
use crate::protocol::MagmaHeap;
use crate::protocol::MagmaHeapBudget;
use crate::protocol::MagmaMemoryType;
use crate::protocol::MagmaPhysicalDeviceInfo;
use crate::protocol::MagmaQueueFamilyProperties;
use crate::protocol::MagmaSyncObjUseFlags;
use crate::submit::MagmaSubmitInfo;
use crate::tracker::VirtioSyncOp;

verus! {

/// Another handle to what `a` points to.
#[verifier::external_body]
pub(crate) fn clone_arc<T>(a: &Arc<T>) -> (r: Arc<T>)
    ensures
        r == *a,
{
    a.clone()
}

/// What a backend answered, with the vector given by its contents.
pub open spec fn answer_seq<T>(r: Result<Vec<T>, Error>) -> Result<Seq<T>, Error> {
    match r {
        Ok(v) => Ok(v@),
        Err(e) => Err(e),
    }
}

/// A physical GPU that a backend drives.
///
/// The driver decides what each method returns; each backend says, through
/// the relations below, which answers it may give for which requests. A
/// backend that keeps a relation's default promises nothing: every answer
/// is allowed.
pub trait GenericPhysicalDevice: Sized {
    /// The logical device that this backend opens.
    type Device: BackendDevice;

    /// Whether `r` is an answer this backend may give when asked to open a
    /// logical device on `physical_device`, described by `info`.
    open spec fn opens_device(physical_device: Arc<Self>, info: MagmaPhysicalDeviceInfo, r: Result<Arc<Self::Device>, Error>) -> bool {
        true
    }

    /// Whether `r` is an answer this backend may give for the memory types
    /// of the device.
    open spec fn reports_memory_types(&self, r: Result<Seq<MagmaMemoryType>, Error>) -> bool {
        true
    }

    /// Whether `r` is an answer this backend may give for the memory heaps
    /// of the device.
    open spec fn reports_memory_heaps(&self, r: Result<Seq<MagmaHeap>, Error>) -> bool {
        true
    }

    /// Whether `r` is an answer this backend may give for the queue
    /// families of the device.
    open spec fn reports_queue_families(&self, r: Result<Seq<MagmaQueueFamilyProperties>, Error>) -> bool {
        true
    }

    /// Opens a logical device on `physical_device`.
    fn create_device(physical_device: Arc<Self>, device_info: &MagmaPhysicalDeviceInfo) -> (r: Result<Arc<Self::Device>, Error>)
        ensures
            Self::opens_device(physical_device, *device_info, r);

    /// The memory types of the device.
    fn get_memory_types(&self) -> (r: Result<Vec<MagmaMemoryType>, Error>)
        ensures
            self.reports_memory_types(answer_seq(r));

    /// The memory heaps of the device.
    fn get_memory_heaps(&self) -> (r: Result<Vec<MagmaHeap>, Error>)
        ensures
            self.reports_memory_heaps(answer_seq(r));

    /// The queue families of the device.
    fn get_queue_family_properties(&self) -> (r: Result<Vec<MagmaQueueFamilyProperties>, Error>)
        ensures
            self.reports_queue_families(answer_seq(r));
}

/// A logical GPU device that a backend drives.
///
/// As for physical devices, each backend says through the relations below
/// which answers it may give; by default every answer is allowed.
pub trait GenericDevice: Sized {
    /// The GPU address spaces of this backend.
    type AddressSpace: BackendAddressSpace;
    /// The command queues of this backend.
    type Queue: BackendQueue;
    /// The sync objects of this backend.
    type SyncObject: BackendSyncObject;

    /// Whether `r` is an answer this backend may give for the budget of
    /// heap `heap_idx`.
    open spec fn reports_budget(&self, heap_idx: u32, r: Result<MagmaHeapBudget, Error>) -> bool {
        true
    }

    /// Whether `r` is an answer this backend may give when asked for an
    /// address space on `device`.
    open spec fn creates_address_space(device: Arc<Self>, r: Result<Arc<Self::AddressSpace>, Error>) -> bool {
        true
    }

    /// Whether `r` is an answer this backend may give when asked for a
    /// queue on `device` that runs in `address_space` as `info` asks.
    open spec fn creates_queue(
        device: Arc<Self>,
        address_space: Arc<Self::AddressSpace>,
        info: MagmaCreateQueueInfo,
        r: Result<Arc<Self::Queue>, Error>,
    ) -> bool {
        true
    }

    /// Whether `r` is an answer this backend may give when asked for a sync
    /// object on `device` as `info` asks.
    open spec fn creates_sync_obj(device: Arc<Self>, info: MagmaCreateSyncObjInfo, r: Result<Arc<Self::SyncObject>, Error>) -> bool {
        true
    }

    /// Budget and usage of heap `heap_idx`.
    fn get_memory_budget(&self, heap_idx: u32) -> (r: Result<MagmaHeapBudget, Error>)
        ensures
            self.reports_budget(heap_idx, r);

    /// Creates a GPU address space on `device`.
    fn create_address_space(device: Arc<Self>) -> (r: Result<Arc<Self::AddressSpace>, Error>)
        ensures
            Self::creates_address_space(device, r);

    /// Creates a command queue on `device` that runs in `address_space`.
    fn create_queue(device: Arc<Self>, address_space: &Arc<Self::AddressSpace>, info: &MagmaCreateQueueInfo) -> (r: Result<Arc<Self::Queue>, Error>)
        ensures
            Self::creates_queue(device, *address_space, *info, r);

    /// Creates a sync object on `device`; a backend without sync objects
    /// answers `Unimplemented`.
    fn create_sync_obj(device: Arc<Self>, info: &MagmaCreateSyncObjInfo) -> (r: Result<Arc<Self::SyncObject>, Error>)
        ensures
            Self::creates_sync_obj(device, *info, r);
}

/// A GPU address space of a backend.
///
/// The relations below say which answers the backend may give; by
/// default every answer is allowed.
pub trait GenericAddressSpace {
    /// Whether `r` is an answer this backend may give when asked to unmap
    /// `size` bytes at `gpu_va`.
    open spec fn unmaps(&self, gpu_va: u64, size: u64, r: Result<(), Error>) -> bool {
        true
    }

    /// The id of the address space in the kernel, if it has one.
    fn as_vm_id(&self) -> (r: Option<u32>)
        default_ensures
            r is None,
    {
        None
    }

    /// Unmaps `size` bytes at `gpu_va`; a backend that cannot unmap
    /// answers `Unimplemented`.
    fn unmap_buffer_gpu(&self, gpu_va: u64, size: u64) -> (r: Result<(), Error>)
        ensures
            self.unmaps(gpu_va, size, r);
}

/// A command queue of a backend.
///
/// The relations below say which answers the backend may give; by
/// default every answer is allowed.
pub trait GenericQueue {
    /// The sync objects that submissions to this queue wait on and signal.
    type SyncObject: BackendSyncObject;

    /// Whether `r` is an answer this backend may give to the submission
    /// `submit_info`.
    open spec fn submits(&self, submit_info: MagmaSubmitInfo<Self::SyncObject>, r: Result<(), Error>) -> bool {
        true
    }

    /// Whether `r` is an answer this backend may give when asked whether
    /// the queue is still usable.
    open spec fn reports_status(&self, r: Result<(), Error>) -> bool {
        true
    }

    /// Submits a command; a backend that cannot submit answers
    /// `Unimplemented`.
    fn submit_command(&self, submit_info: &MagmaSubmitInfo<Self::SyncObject>) -> (r: Result<(), Error>)
        ensures
            self.submits(*submit_info, r);

    /// Reports whether the queue is still usable.
    fn check_status(&self) -> (r: Result<(), Error>)
        ensures
            self.reports_status(r);
}

/// A sync object of a backend.
///
/// The relations below say which answers the backend may give; by
/// default every answer is allowed.
pub trait GenericSyncObject {
    /// Whether `t` is a kind this backend may report for the object.
    open spec fn reports_type(&self, t: MagmaSyncType) -> bool {
        true
    }

    /// Whether `b` is an answer this backend may give when asked whether
    /// the object is a timeline.
    open spec fn reports_timeline(&self, b: bool) -> bool {
        true
    }

    /// Whether `r` is an answer this backend may give to a wait of
    /// `timeout_ns` nanoseconds.
    open spec fn waits(&self, timeout_ns: u64, r: Result<(), Error>) -> bool {
        true
    }

    /// Whether `r` is an answer this backend may give to a signal.
    open spec fn signals(&self, r: Result<(), Error>) -> bool {
        true
    }

    /// Whether `r` is an answer this backend may give to a wait for
    /// timeline `point`.
    open spec fn timeline_waits(&self, point: u64, timeout_ns: u64, flags: u32, r: Result<(), Error>) -> bool {
        true
    }

    /// Whether `r` is an answer this backend may give to a signal of
    /// timeline `point`.
    open spec fn timeline_signals(&self, point: u64, r: Result<(), Error>) -> bool {
        true
    }

    /// Whether `r` is an answer this backend may give for the timeline
    /// point.
    open spec fn reports_point(&self, r: Result<u64, Error>) -> bool {
        true
    }

    /// Whether `h` is a kernel handle this backend may report.
    open spec fn reports_handle(&self, h: Option<u32>) -> bool {
        true
    }

    /// Whether `f` are use flags this backend may report.
    open spec fn reports_use_flags(&self, f: MagmaSyncObjUseFlags) -> bool {
        true
    }

    /// The kind of the object.
    fn get_type(&self) -> (r: MagmaSyncType)
        ensures
            self.reports_type(r);

    /// Whether the object is a timeline.
    fn is_timeline(&self) -> (r: bool)
        ensures
            self.reports_timeline(r);

    /// Waits for the object.
    fn wait(&self, timeout_ns: u64) -> (r: Result<(), Error>)
        ensures
            self.waits(timeout_ns, r);

    /// Signals the object.
    fn signal(&self) -> (r: Result<(), Error>)
        ensures
            self.signals(r);

    /// Waits for timeline `point`.
    fn timeline_wait(&self, point: u64, timeout_ns: u64, flags: u32) -> (r: Result<(), Error>)
        ensures
            self.timeline_waits(point, timeout_ns, flags, r);

    /// Signals timeline `point`.
    fn timeline_signal(&self, point: u64) -> (r: Result<(), Error>)
        ensures
            self.timeline_signals(point, r);

    /// The current timeline point.
    fn timeline_query(&self) -> (r: Result<u64, Error>)
        ensures
            self.reports_point(r);

    /// The kernel handle of the object, if it has one.
    fn as_raw_handle(&self) -> (r: Option<u32>)
        ensures
            self.reports_handle(r);

    /// How the object may be used.
    fn use_flags(&self) -> (r: MagmaSyncObjUseFlags)
        ensures
            self.reports_use_flags(r);
}

/// A sync object whose signals travel through the virtio command rings.
pub trait VirtioSyncObject {
    /// The id of the object on the host.
    fn host_object_id(&self) -> u32;

    /// The guest kernel sync object backing it, 0 when there is none.
    fn guest_syncobj_handle(&self) -> u32;

    /// Whether the object holds an imported fence.
    fn has_imported_fence(&self) -> bool;

    /// Ring of the submitted signal; 0 by default.
    fn last_ring_idx(&self) -> (r: u32)
        default_ensures
            r == 0,
    {
        0
    }

    /// Records that a submission used the object; ignored by default.
    fn record_submission(&self, op: VirtioSyncOp) {
    }
}

/// The virtio view of a sync object that does not travel through the
/// virtio rings: its invariant cannot hold, so no value of it exists and
/// nothing ever calls its methods.
pub struct NoVirtioView {
    never: (),
}

impl NoVirtioView {
    #[verifier::type_invariant]
    spec fn never_exists(self) -> bool {
        false
    }
}

impl VirtioSyncObject for NoVirtioView {
    fn host_object_id(&self) -> (r: u32) {
        proof {
            use_type_invariant(self);
        }
        0
    }

    fn guest_syncobj_handle(&self) -> (r: u32) {
        proof {
            use_type_invariant(self);
        }
        0
    }

    fn has_imported_fence(&self) -> (r: bool) {
        proof {
            use_type_invariant(self);
        }
        false
    }
}

/// Access to the virtio view of a sync object.
pub trait AsVirtioSyncObject {
    /// The virtio view type.
    type Virtio: VirtioSyncObject;

    /// The virtio view of the object, if it travels through virtio.
    fn as_virtio_syncobj(&self) -> Option<&Self::Virtio>;
}

/// A buffer of a backend.
pub trait GenericBuffer {
    /// The CPU mapping mode of the buffer, if the CPU may map it.
    fn get_map_info(&self) -> Option<u32>;

    /// The kernel handle of the buffer, if it has one; none by default.
    fn as_gem_handle(&self) -> (r: Option<u32>)
        default_ensures
            r is None,
    {
        None
    }
}

/// What a buffer of a kernel driver holds: its kernel handle, its size and
/// the CPU mapping mode it is mapped with.
#[derive(Debug, Clone, Copy, PartialEq, Eq, Structural)]
pub struct GemBufferView {
    pub gem_handle: u32,
    pub size: usize,
    pub map_info: Option<u32>,
}

/// A buffer of any backend.
pub trait BackendBuffer: GenericBuffer {}

/// A physical device of any backend.
pub trait BackendPhysicalDevice: GenericPhysicalDevice {}

/// A logical device of any backend.
pub trait BackendDevice: GenericDevice {}

/// An address space of any backend.
pub trait BackendAddressSpace: GenericAddressSpace {}

/// A command queue of any backend.
pub trait BackendQueue: GenericQueue {}

/// A sync object of any backend.
pub trait BackendSyncObject: GenericSyncObject + AsVirtioSyncObject {}

} // verus!
