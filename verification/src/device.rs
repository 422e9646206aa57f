//! Client handles of physical and logical devices.
use std::sync::Arc;

use vstd::prelude::*;

use crate::error::Error;
use crate::memory::AddressSpace;
use crate::protocol::MagmaCreateQueueInfo;
use crate::protocol::MagmaCreateSyncObjInfo;
use crate::protocol::MagmaHeap;
use crate::protocol::MagmaHeapBudget;
use crate::protocol::MagmaMemoryType;
use crate::protocol::MagmaPhysicalDeviceInfo;
use crate::protocol::MagmaQueueFamilyProperties;
use crate::queue::Queue;
use crate::sync::SyncObj;
use crate::traits::answer_seq;
use crate::traits::clone_arc;
use crate::traits::BackendDevice;
use crate::traits::BackendPhysicalDevice;
use crate::traits::GenericDevice;
use crate::traits::GenericPhysicalDevice;

verus! {

/// A physical GPU of some backend, with its description.
pub struct PhysicalDevice<P: BackendPhysicalDevice> {
    physical_device: Arc<P>,
    info: MagmaPhysicalDeviceInfo,
}

/// A logical device of some backend.
pub struct Device<D: BackendDevice> {
    device: Arc<D>,
}

impl<P: BackendPhysicalDevice> Clone for PhysicalDevice<P> {
    fn clone(&self) -> (r: Self)
        ensures
            r.backend() == self.backend(),
            r.spec_info() == self.spec_info(),
    {
        PhysicalDevice { physical_device: clone_arc(&self.physical_device), info: self.info }
    }
}

impl<D: BackendDevice> Clone for Device<D> {
    fn clone(&self) -> (r: Self)
        ensures
            r.backend() == self.backend(),
    {
        Device { device: clone_arc(&self.device) }
    }
}

impl<P: BackendPhysicalDevice> PhysicalDevice<P> {
    /// The backend physical device.
    pub closed spec fn backend(&self) -> Arc<P> {
        self.physical_device
    }

    /// The description of the device.
    pub closed spec fn spec_info(&self) -> MagmaPhysicalDeviceInfo {
        self.info
    }

    /// A handle of `physical_device`, described by `info`.
    pub fn new(physical_device: Arc<P>, info: MagmaPhysicalDeviceInfo) -> (r: PhysicalDevice<P>)
        ensures
            r.backend() == physical_device,
            r.spec_info() == info,
    {
        PhysicalDevice { physical_device, info }
    }

    /// The description of the device.
    pub fn info(&self) -> (r: &MagmaPhysicalDeviceInfo)
        ensures
            *r == self.spec_info(),
    {
        &self.info
    }

    /// The memory types, as the backend reports them.
    pub fn get_memory_types(&self) -> (r: Result<Vec<MagmaMemoryType>, Error>)
        ensures
            self.backend().reports_memory_types(answer_seq(r)),
    {
        self.physical_device.get_memory_types()
    }

    /// The memory heaps, as the backend reports them.
    pub fn get_memory_heaps(&self) -> (r: Result<Vec<MagmaHeap>, Error>)
        ensures
            self.backend().reports_memory_heaps(answer_seq(r)),
    {
        self.physical_device.get_memory_heaps()
    }

    /// The queue families, as the backend reports them.
    pub fn get_queue_family_properties(&self) -> (r: Result<Vec<MagmaQueueFamilyProperties>, Error>)
        ensures
            self.backend().reports_queue_families(answer_seq(r)),
    {
        self.physical_device.get_queue_family_properties()
    }

    /// Opens a logical device with the description of this one; the backend
    /// decides whether it opens.
    pub fn create_device(&self) -> (r: Result<Device<P::Device>, Error>)
        ensures
            P::opens_device(self.backend(), self.spec_info(), match r {
                Ok(d) => Ok(d.backend()),
                Err(e) => Err(e),
            }),
    {
        let device = P::create_device(clone_arc(&self.physical_device), &self.info)?;
        Ok(Device { device })
    }
}

impl<D: BackendDevice> Device<D> {
    /// The backend device.
    pub closed spec fn backend(&self) -> Arc<D> {
        self.device
    }

    /// Budget and usage of heap `heap_idx`, as the backend reports them.
    pub fn get_memory_budget(&self, heap_idx: u32) -> (r: Result<MagmaHeapBudget, Error>)
        ensures
            self.backend().reports_budget(heap_idx, r),
    {
        self.device.get_memory_budget(heap_idx)
    }

    /// Creates an address space; the backend decides whether it can.
    pub fn create_address_space(&self) -> (r: Result<AddressSpace<D::AddressSpace>, Error>)
        ensures
            D::creates_address_space(self.backend(), match r {
                Ok(a) => Ok(a.backend()),
                Err(e) => Err(e),
            }),
    {
        let address_space = D::create_address_space(clone_arc(&self.device))?;
        Ok(AddressSpace::new(address_space))
    }

    /// Creates a queue that runs in `address_space`; the backend decides
    /// whether it can.
    pub fn create_queue(&self, address_space: &AddressSpace<D::AddressSpace>, info: &MagmaCreateQueueInfo) -> (r: Result<Queue<D::Queue>, Error>)
        ensures
            D::creates_queue(self.backend(), address_space.backend(), *info, match r {
                Ok(q) => Ok(q.backend()),
                Err(e) => Err(e),
            }),
    {
        let queue = D::create_queue(clone_arc(&self.device), address_space.inner(), info)?;
        Ok(Queue::new(queue))
    }

    /// Creates a sync object; the backend decides whether it can.
    pub fn create_sync_obj(&self, info: &MagmaCreateSyncObjInfo) -> (r: Result<SyncObj<D::SyncObject>, Error>)
        ensures
            ({
                let answer = match r {
                    Ok(s) => Ok(s.sync_obj),
                    Err(e) => Err(e),
                };
                D::creates_sync_obj(self.backend(), *info, answer)
            }),
    {
        let sync_obj = D::create_sync_obj(clone_arc(&self.device), info)?;
        Ok(SyncObj::new(sync_obj))
    }
}

} // verus!
