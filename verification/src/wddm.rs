//! Devices under the Windows display driver model: the address space and
//! the vendor data that buffer allocations carry.
use std::sync::Arc;

use vstd::prelude::*;

use crate::error::Error;

use crate::defines::MagmaSyncType;
use crate::protocol::MagmaCreateBufferInfo;
use crate::protocol::MagmaMemoryType;
use crate::protocol::MagmaSyncObjType;
use crate::protocol::MagmaSyncObjUseFlags;
use crate::traits::AsVirtioSyncObject;
use crate::traits::BackendAddressSpace;
use crate::traits::BackendDevice;
use crate::traits::BackendSyncObject;
use crate::traits::GenericAddressSpace;
use crate::traits::GenericSyncObject;
use crate::traits::NoVirtioView;

verus! {

/// Vendor data that a driver attaches to allocations; none by default.
pub trait VendorPrivateData {
    /// Private data of an allocation creation; empty by default.
    fn createallocation_pdata(&self) -> (r: Vec<u32>)
        default_ensures
            r@.len() == 0,
    {
        Vec::new()
    }

    /// Private data of the allocation for a buffer as `create_info` asks,
    /// on memory types `mem_types`; empty by default.
    fn allocationinfo2_pdata(&self, create_info: &MagmaCreateBufferInfo, mem_types: &[MagmaMemoryType]) -> (r: Vec<u32>)
        default_ensures
            r@.len() == 0,
    {
        Vec::new()
    }
}

/// An address space of a display-driver device; it holds nothing but its
/// device.
pub struct WddmAddressSpace<D: BackendDevice> {
    device: Arc<D>,
}

impl<D: BackendDevice> WddmAddressSpace<D> {
    /// The address space on `device`.
    pub fn new(device: Arc<D>) -> (r: WddmAddressSpace<D>)
        ensures
            r.spec_device() == device,
    {
        WddmAddressSpace { device }
    }

    /// The device of the address space.
    pub closed spec fn spec_device(&self) -> Arc<D> {
        self.device
    }
}

impl<D: BackendDevice> GenericAddressSpace for WddmAddressSpace<D> {
    /// This driver offers no unmapping: the answer is always
    /// `Unimplemented`.
    open spec fn unmaps(&self, gpu_va: u64, size: u64, r: Result<(), Error>) -> bool {
        r == Err::<(), Error>(Error::Unimplemented)
    }

    fn unmap_buffer_gpu(&self, gpu_va: u64, size: u64) -> (r: Result<(), Error>) {
        Err(Error::Unimplemented)
    }
}

impl<D: BackendDevice> BackendAddressSpace for WddmAddressSpace<D> {}

/// A sync object of a display-driver device: its kernel handle. Waits and
/// signals go through the device's own paths, so the object itself answers
/// only its handle.
pub struct WddmSyncObject<D: BackendDevice> {
    handle: u32,
    device: Arc<D>,
}

impl<D: BackendDevice> WddmSyncObject<D> {
    /// The kernel handle of the object.
    pub closed spec fn spec_handle(&self) -> u32 {
        self.handle
    }

    /// The device of the object.
    pub closed spec fn spec_device(&self) -> Arc<D> {
        self.device
    }

    /// The object with kernel handle `handle` on `device`.
    pub fn new(handle: u32, device: Arc<D>) -> (r: WddmSyncObject<D>)
        ensures
            r.spec_handle() == handle,
            r.spec_device() == device,
    {
        WddmSyncObject { handle, device }
    }
}

impl<D: BackendDevice> GenericSyncObject for WddmSyncObject<D> {
    /// Always binary.
    open spec fn reports_type(&self, t: MagmaSyncType) -> bool {
        t == MagmaSyncObjType::Binary
    }

    /// Never a timeline.
    open spec fn reports_timeline(&self, b: bool) -> bool {
        !b
    }

    /// Waiting on the object itself is not offered.
    open spec fn waits(&self, timeout_ns: u64, r: Result<(), Error>) -> bool {
        r == Err::<(), Error>(Error::Unimplemented)
    }

    /// Signaling the object itself is not offered.
    open spec fn signals(&self, r: Result<(), Error>) -> bool {
        r == Err::<(), Error>(Error::Unimplemented)
    }

    /// Timelines are not offered.
    open spec fn timeline_waits(&self, point: u64, timeout_ns: u64, flags: u32, r: Result<(), Error>) -> bool {
        r == Err::<(), Error>(Error::Unimplemented)
    }

    /// Timelines are not offered.
    open spec fn timeline_signals(&self, point: u64, r: Result<(), Error>) -> bool {
        r == Err::<(), Error>(Error::Unimplemented)
    }

    /// Timelines are not offered.
    open spec fn reports_point(&self, r: Result<u64, Error>) -> bool {
        r == Err::<u64, Error>(Error::Unimplemented)
    }

    /// The kernel handle.
    open spec fn reports_handle(&self, h: Option<u32>) -> bool {
        h == Some(self.spec_handle())
    }

    /// No use flags.
    open spec fn reports_use_flags(&self, f: MagmaSyncObjUseFlags) -> bool {
        f.spec_bits() == 0
    }

    fn get_type(&self) -> (r: MagmaSyncType) {
        MagmaSyncObjType::Binary
    }

    fn is_timeline(&self) -> (r: bool) {
        false
    }

    fn wait(&self, timeout_ns: u64) -> (r: Result<(), Error>) {
        Err(Error::Unimplemented)
    }

    fn signal(&self) -> (r: Result<(), Error>) {
        Err(Error::Unimplemented)
    }

    fn timeline_wait(&self, point: u64, timeout_ns: u64, flags: u32) -> (r: Result<(), Error>) {
        Err(Error::Unimplemented)
    }

    fn timeline_signal(&self, point: u64) -> (r: Result<(), Error>) {
        Err(Error::Unimplemented)
    }

    fn timeline_query(&self) -> (r: Result<u64, Error>) {
        Err(Error::Unimplemented)
    }

    fn as_raw_handle(&self) -> (r: Option<u32>) {
        Some(self.handle)
    }

    fn use_flags(&self) -> (r: MagmaSyncObjUseFlags) {
        MagmaSyncObjUseFlags::empty()
    }
}

impl<D: BackendDevice> AsVirtioSyncObject for WddmSyncObject<D> {
    type Virtio = NoVirtioView;

    fn as_virtio_syncobj(&self) -> (r: Option<&NoVirtioView>)
        ensures
            r is None,
    {
        None
    }
}

impl<D: BackendDevice> BackendSyncObject for WddmSyncObject<D> {}

} // verus!
