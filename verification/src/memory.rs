//! Client handle of a GPU address space.
use std::sync::Arc;

use vstd::prelude::*;

use crate::error::Error;
use crate::traits::clone_arc;
use crate::traits::BackendAddressSpace;

verus! {

/// A GPU address space of some backend, shared between its holders.
pub struct AddressSpace<A: BackendAddressSpace> {
    address_space: Arc<A>,
}

impl<A: BackendAddressSpace> Clone for AddressSpace<A> {
    fn clone(&self) -> (r: Self)
        ensures
            r.backend() == self.backend(),
    {
        AddressSpace { address_space: clone_arc(&self.address_space) }
    }
}

impl<A: BackendAddressSpace> AddressSpace<A> {
    /// The backend address space.
    pub closed spec fn backend(&self) -> Arc<A> {
        self.address_space
    }

    /// A handle of `address_space`.
    pub fn new(address_space: Arc<A>) -> (r: AddressSpace<A>)
        ensures
            r.backend() == address_space,
    {
        AddressSpace { address_space }
    }

    /// The backend address space.
    pub fn inner(&self) -> (r: &Arc<A>)
        ensures
            *r == self.backend(),
    {
        &self.address_space
    }

    /// Unmaps `size` bytes at `gpu_va`; the backend decides the result.
    pub fn unmap_buffer_gpu(&self, gpu_va: u64, size: u64) -> (r: Result<(), Error>)
        ensures
            self.backend().unmaps(gpu_va, size, r),
    {
        self.address_space.unmap_buffer_gpu(gpu_va, size)
    }
}

} // verus!
