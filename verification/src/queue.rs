//! Client handle of a command queue.
use std::sync::Arc;

use vstd::prelude::*;

use crate::error::Error;
use crate::submit::MagmaSubmitInfo;
use crate::traits::clone_arc;
use crate::traits::BackendQueue;

verus! {

/// A command queue of some backend, shared between its holders.
pub struct Queue<Q: BackendQueue> {
    queue: Arc<Q>,
}

impl<Q: BackendQueue> Clone for Queue<Q> {
    fn clone(&self) -> (r: Self)
        ensures
            r.backend() == self.backend(),
    {
        Queue { queue: clone_arc(&self.queue) }
    }
}

impl<Q: BackendQueue> Queue<Q> {
    /// The backend queue.
    pub closed spec fn backend(&self) -> Arc<Q> {
        self.queue
    }

    /// A handle of `queue`.
    pub fn new(queue: Arc<Q>) -> (r: Queue<Q>)
        ensures
            r.backend() == queue,
    {
        Queue { queue }
    }

    /// Submits a command; the backend decides the result.
    pub fn submit_command(&self, submit_info: &MagmaSubmitInfo<Q::SyncObject>) -> (r: Result<(), Error>)
        ensures
            self.backend().submits(*submit_info, r),
    {
        self.queue.submit_command(submit_info)
    }

    /// Whether the queue is still usable, as the backend reports it.
    pub fn check_status(&self) -> (r: Result<(), Error>)
        ensures
            self.backend().reports_status(r),
    {
        self.queue.check_status()
    }
}

} // verus!
