//! Client handle of a sync object.
use std::sync::Arc;

use vstd::prelude::*;

use crate::defines::MagmaSyncType;
use crate::error::Error;
use crate::protocol::MagmaSyncObjUseFlags;
use crate::traits::clone_arc;
use crate::traits::BackendSyncObject;

verus! {

/// A sync object of some backend, shared between its holders.
pub struct SyncObj<S: BackendSyncObject> {
    pub sync_obj: Arc<S>,
}

impl<S: BackendSyncObject> Clone for SyncObj<S> {
    fn clone(&self) -> (r: Self)
        ensures
            r.sync_obj == self.sync_obj,
    {
        SyncObj { sync_obj: clone_arc(&self.sync_obj) }
    }
}

impl<S: BackendSyncObject> SyncObj<S> {
    /// A handle of `sync_obj`.
    pub fn new(sync_obj: Arc<S>) -> (r: SyncObj<S>)
        ensures
            r.sync_obj == sync_obj,
    {
        SyncObj { sync_obj }
    }

    /// Waits for the object; the backend decides the result.
    pub fn wait(&self, timeout_ns: u64) -> (r: Result<(), Error>)
        ensures
            self.sync_obj.waits(timeout_ns, r),
    {
        self.sync_obj.wait(timeout_ns)
    }

    /// Signals the object; the backend decides the result.
    pub fn signal(&self) -> (r: Result<(), Error>)
        ensures
            self.sync_obj.signals(r),
    {
        self.sync_obj.signal()
    }

    /// Waits for timeline `point`; the backend decides the result.
    pub fn timeline_wait(&self, point: u64, timeout_ns: u64, flags: u32) -> (r: Result<(), Error>)
        ensures
            self.sync_obj.timeline_waits(point, timeout_ns, flags, r),
    {
        self.sync_obj.timeline_wait(point, timeout_ns, flags)
    }

    /// Signals timeline `point`; the backend decides the result.
    pub fn timeline_signal(&self, point: u64) -> (r: Result<(), Error>)
        ensures
            self.sync_obj.timeline_signals(point, r),
    {
        self.sync_obj.timeline_signal(point)
    }

    /// The current timeline point, as the backend reports it.
    pub fn timeline_query(&self) -> (r: Result<u64, Error>)
        ensures
            self.sync_obj.reports_point(r),
    {
        self.sync_obj.timeline_query()
    }

    /// The kernel handle of the object, as the backend reports it.
    pub fn as_raw_handle(&self) -> (r: Option<u32>)
        ensures
            self.sync_obj.reports_handle(r),
    {
        self.sync_obj.as_raw_handle()
    }

    /// How the object may be used, as the backend reports it.
    pub fn use_flags(&self) -> (r: MagmaSyncObjUseFlags)
        ensures
            self.sync_obj.reports_use_flags(r),
    {
        self.sync_obj.use_flags()
    }

    /// The kind of the object, as the backend reports it.
    pub fn get_type(&self) -> (r: MagmaSyncType)
        ensures
            self.sync_obj.reports_type(r),
    {
        self.sync_obj.get_type()
    }

    /// The backend object.
    pub fn sync_obj(&self) -> (r: &Arc<S>)
        ensures
            *r == self.sync_obj,
    {
        &self.sync_obj
    }

    /// Whether the object is a timeline, as the backend reports it.
    pub fn is_timeline(&self) -> (r: bool)
        ensures
            self.sync_obj.reports_timeline(r),
    {
        self.sync_obj.is_timeline()
    }
}

} // verus!
