use std::sync::Arc;

use magma::amdgpu::submission_sync_entries;
use magma::amdgpu::AmdGpu;
use magma::amdgpu::AmdGpuBuffer;
use magma::amdgpu::CsChunkSyncobj;
use magma::amdgpu::DRM_SYNCOBJ_WAIT_FLAGS_WAIT_FOR_SUBMIT;
use magma::defines::MagmaSyncType;
use magma::defines::MAGMA_MEMORY_PROPERTY_HOST_CACHED_BIT;
use magma::defines::MAGMA_MEMORY_PROPERTY_HOST_VISIBLE_BIT;
use magma::device::PhysicalDevice;
use magma::error::Error;
use magma::kgsl::Kgsl;
use magma::kgsl::KgslBuffer;
use magma::msm::MsmBuffer;
use magma::protocol::MagmaCreateBufferInfo;
use magma::protocol::MagmaCreateQueueInfo;
use magma::protocol::MagmaCreateSyncObjInfo;
use magma::protocol::MagmaHeap;
use magma::protocol::MagmaHeapBudget;
use magma::protocol::MagmaMemoryType;
use magma::protocol::MagmaPhysicalDeviceInfo;
use magma::protocol::MagmaQueueFamilyProperties;
use magma::protocol::MagmaSyncObjType;
use magma::protocol::MagmaSyncObjUseFlags;
use magma::submit::MagmaSubmitInfo;
use magma::submit::MagmaSubmitSyncInfo;
use magma::sync::SyncObj;
use magma::traits::AsVirtioSyncObject;
use magma::traits::BackendAddressSpace;
use magma::traits::BackendDevice;
use magma::traits::BackendPhysicalDevice;
use magma::traits::BackendQueue;
use magma::traits::BackendSyncObject;
use magma::traits::GenericAddressSpace;
use magma::traits::GenericBuffer;
use magma::traits::GenericDevice;
use magma::traits::GenericPhysicalDevice;
use magma::traits::GenericQueue;
use magma::traits::GenericSyncObject;
use magma::traits::VirtioSyncObject;
use magma::wddm::WddmSyncObject;

struct FakeSync {
    handle: Option<u32>,
    timeline: bool,
}

impl GenericSyncObject for FakeSync {
    fn get_type(&self) -> MagmaSyncType {
        if self.timeline {
            MagmaSyncObjType::Timeline
        } else {
            MagmaSyncObjType::Binary
        }
    }

    fn is_timeline(&self) -> bool {
        self.timeline
    }

    fn wait(&self, _timeout_ns: u64) -> Result<(), Error> {
        Err(Error::Unimplemented)
    }

    fn signal(&self) -> Result<(), Error> {
        Err(Error::Unimplemented)
    }

    fn timeline_wait(&self, _point: u64, _timeout_ns: u64, _flags: u32) -> Result<(), Error> {
        Err(Error::Unimplemented)
    }

    fn timeline_signal(&self, _point: u64) -> Result<(), Error> {
        Err(Error::Unimplemented)
    }

    fn timeline_query(&self) -> Result<u64, Error> {
        Ok(5)
    }

    fn as_raw_handle(&self) -> Option<u32> {
        self.handle
    }

    fn use_flags(&self) -> MagmaSyncObjUseFlags {
        MagmaSyncObjUseFlags::empty()
    }
}

impl VirtioSyncObject for FakeSync {
    fn host_object_id(&self) -> u32 {
        0
    }

    fn guest_syncobj_handle(&self) -> u32 {
        0
    }

    fn has_imported_fence(&self) -> bool {
        false
    }
}

impl AsVirtioSyncObject for FakeSync {
    type Virtio = FakeSync;

    fn as_virtio_syncobj(&self) -> Option<&FakeSync> {
        None
    }
}

impl BackendSyncObject for FakeSync {}

struct FakeAddressSpace;

impl GenericAddressSpace for FakeAddressSpace {
    fn unmap_buffer_gpu(&self, _gpu_va: u64, _size: u64) -> Result<(), Error> {
        Err(Error::Unimplemented)
    }
}

impl BackendAddressSpace for FakeAddressSpace {}

struct FakeQueue;

impl GenericQueue for FakeQueue {
    type SyncObject = FakeSync;

    fn submit_command(&self, _submit_info: &MagmaSubmitInfo<FakeSync>) -> Result<(), Error> {
        Err(Error::Unimplemented)
    }

    fn check_status(&self) -> Result<(), Error> {
        Ok(())
    }
}

impl BackendQueue for FakeQueue {}

struct FakeDevice;

impl GenericDevice for FakeDevice {
    type AddressSpace = FakeAddressSpace;
    type Queue = FakeQueue;
    type SyncObject = FakeSync;

    fn get_memory_budget(&self, heap_idx: u32) -> Result<MagmaHeapBudget, Error> {
        if heap_idx == 0 {
            Ok(MagmaHeapBudget::new(100, 7))
        } else {
            Err(Error::InvalidArgs)
        }
    }

    fn create_address_space(_device: Arc<Self>) -> Result<Arc<FakeAddressSpace>, Error> {
        Ok(Arc::new(FakeAddressSpace))
    }

    fn create_queue(_device: Arc<Self>, _address_space: &Arc<FakeAddressSpace>, info: &MagmaCreateQueueInfo) -> Result<Arc<FakeQueue>, Error> {
        if info.priority > 10 {
            Err(Error::InvalidArgs)
        } else {
            Ok(Arc::new(FakeQueue))
        }
    }

    fn create_sync_obj(_device: Arc<Self>, _info: &MagmaCreateSyncObjInfo) -> Result<Arc<FakeSync>, Error> {
        Err(Error::Unimplemented)
    }
}

impl BackendDevice for FakeDevice {}

struct FakePhysicalDevice {
    fail_heaps: bool,
}

impl GenericPhysicalDevice for FakePhysicalDevice {
    type Device = FakeDevice;

    fn create_device(_physical_device: Arc<Self>, _device_info: &MagmaPhysicalDeviceInfo) -> Result<Arc<FakeDevice>, Error> {
        Ok(Arc::new(FakeDevice))
    }

    fn get_memory_types(&self) -> Result<Vec<MagmaMemoryType>, Error> {
        Ok(vec![MagmaMemoryType::new(MAGMA_MEMORY_PROPERTY_HOST_VISIBLE_BIT | MAGMA_MEMORY_PROPERTY_HOST_CACHED_BIT, 0)])
    }

    fn get_memory_heaps(&self) -> Result<Vec<MagmaHeap>, Error> {
        if self.fail_heaps {
            Err(Error::MemoryError)
        } else {
            Ok(vec![MagmaHeap::new(1 << 20, 0)])
        }
    }

    fn get_queue_family_properties(&self) -> Result<Vec<MagmaQueueFamilyProperties>, Error> {
        Ok(Vec::new())
    }
}

impl BackendPhysicalDevice for FakePhysicalDevice {}

fn pdev() -> Arc<FakePhysicalDevice> {
    Arc::new(FakePhysicalDevice { fail_heaps: false })
}

fn cached_types() -> Vec<MagmaMemoryType> {
    vec![MagmaMemoryType::new(MAGMA_MEMORY_PROPERTY_HOST_VISIBLE_BIT | MAGMA_MEMORY_PROPERTY_HOST_CACHED_BIT, 0)]
}

#[test]
fn amdgpu_buffer_takes_its_memory_types_mapping() {
    let types = cached_types();
    let info = MagmaCreateBufferInfo::new(0, 4096, 0, 0, 8192);
    let b = AmdGpuBuffer::buffer_from_created(&types, &info, pdev(), 42).ok().unwrap();
    // Cached, read-write mapping of the memory type.
    assert_eq!(b.get_map_info(), Some(0x31));
    assert_eq!(b.as_gem_handle(), Some(42));
    assert_eq!(b.size(), 8192);
    let bad = MagmaCreateBufferInfo::new(1, 4096, 0, 0, 8192);
    assert_eq!(AmdGpuBuffer::buffer_from_created(&types, &bad, pdev(), 42).err(), Some(Error::InvalidArgs));
}

#[test]
fn kgsl_buffer_takes_its_memory_types_mapping() {
    let types = cached_types();
    let info = MagmaCreateBufferInfo::new(0, 4096, 0, 0, 4096);
    let b = KgslBuffer::buffer_from_created(&types, &info, pdev(), 9, 0x1000).ok().unwrap();
    assert_eq!(b.get_map_info(), Some(0x31));
    assert_eq!(b.gpuaddr(), 0x1000);
    let bad = MagmaCreateBufferInfo::new(3, 4096, 0, 0, 4096);
    assert_eq!(KgslBuffer::buffer_from_created(&types, &bad, pdev(), 9, 0x1000).err(), Some(Error::InvalidArgs));
}

#[test]
fn msm_buffer_past_the_types_is_unmapped() {
    let types = cached_types();
    let info = MagmaCreateBufferInfo::new(0, 4096, 0, 0, 4096);
    let b = MsmBuffer::buffer_from_created(&types, &info, pdev(), 3).ok().unwrap();
    assert_eq!(b.get_map_info(), Some(0x31));
    let past = MagmaCreateBufferInfo::new(5, 4096, 0, 0, 4096);
    let b = MsmBuffer::buffer_from_created(&types, &past, pdev(), 3).ok().unwrap();
    assert_eq!(b.get_map_info(), None);
    assert_eq!(b.as_gem_handle(), Some(3));
}

#[test]
fn devices_take_the_physical_devices_memory() {
    let d = AmdGpu::new(pdev()).ok().unwrap();
    assert_eq!(d.mem_types().len(), 1);
    assert_eq!(d.mem_heaps().len(), 1);
    assert_eq!(Kgsl::new(Arc::new(FakePhysicalDevice { fail_heaps: true })).err(), Some(Error::MemoryError));
}

#[test]
fn generic_device_forwards_to_the_backend() {
    let p = PhysicalDevice::new(pdev(), MagmaPhysicalDeviceInfo::default());
    assert_eq!(p.get_memory_types().unwrap().len(), 1);
    let d = p.create_device().ok().unwrap();
    let budget = d.get_memory_budget(0).unwrap();
    assert_eq!((budget.budget, budget.usage), (100, 7));
    assert_eq!(d.get_memory_budget(1).err(), Some(Error::InvalidArgs));
    let a = d.create_address_space().ok().unwrap();
    assert!(d.create_queue(&a, &MagmaCreateQueueInfo::new(0, 1, 0)).is_ok());
    assert_eq!(d.create_queue(&a, &MagmaCreateQueueInfo::new(0, 11, 0)).err(), Some(Error::InvalidArgs));
    // The backend keeps the default: no sync objects.
    assert_eq!(d.create_sync_obj(&MagmaCreateSyncObjInfo::default()).err(), Some(Error::Unimplemented));
}

#[test]
fn sync_obj_forwards_to_the_backend() {
    let s = SyncObj::new(Arc::new(FakeSync { handle: Some(4), timeline: true }));
    assert_eq!(s.timeline_query(), Ok(5));
    assert_eq!(s.as_raw_handle(), Some(4));
    assert!(s.is_timeline());
    assert_eq!(s.wait(0), Err(Error::Unimplemented));
}

#[test]
fn amdgpu_submission_sync_entries() {
    let timeline = SyncObj::new(Arc::new(FakeSync { handle: Some(7), timeline: true }));
    let binary = SyncObj::new(Arc::new(FakeSync { handle: Some(8), timeline: false }));
    let none = SyncObj::new(Arc::new(FakeSync { handle: None, timeline: false }));
    let mut info = MagmaSubmitSyncInfo::from_sync_objs(&[timeline.clone(), none.clone()], &[binary.clone()]);
    info.wait_points[0] = 3;
    info.signal_points[0] = 9;
    let (waits, signals) = submission_sync_entries(&info);
    assert_eq!(waits, vec![CsChunkSyncobj { handle: 7, flags: DRM_SYNCOBJ_WAIT_FLAGS_WAIT_FOR_SUBMIT, point: 3 }]);
    // A binary object signals at point 0.
    assert_eq!(signals, vec![CsChunkSyncobj { handle: 8, flags: 0, point: 0 }]);
}

#[test]
fn wddm_sync_object_answers_only_its_handle() {
    let s = SyncObj::new(Arc::new(WddmSyncObject::new(77, Arc::new(FakeDevice))));
    assert_eq!(s.as_raw_handle(), Some(77));
    assert!(!s.is_timeline());
    assert_eq!(s.get_type(), MagmaSyncObjType::Binary);
    assert_eq!(s.wait(10), Err(Error::Unimplemented));
    assert_eq!(s.timeline_query(), Err(Error::Unimplemented));
    assert!(s.sync_obj().as_virtio_syncobj().is_none());
}
