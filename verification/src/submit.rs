//! What a client hands to a queue with a submission: the sync objects to
//! wait on and to signal, and where the commands are.
use std::sync::Arc;

use vstd::prelude::*;

use crate::protocol::MagmaStructureTypeHeader;
use crate::protocol::MagmaSubmitAddressSpaceInfo;
use crate::protocol::MAGMA_MAX_SYNCOBJS;
use crate::protocol::MAGMA_STRUCTURE_TYPE_SUBMIT_ADDRESS_SPACE_INFO;
use crate::protocol::MAGMA_STRUCTURE_TYPE_SUBMIT_BUFFER_INFO;
use crate::protocol::MAGMA_STRUCTURE_TYPE_SUBMIT_INFO;
use crate::protocol::MAGMA_STRUCTURE_TYPE_SUBMIT_SYNC_INFO;
use crate::sync::SyncObj;
use crate::traits::clone_arc;
use crate::traits::BackendSyncObject;

verus! {

/// Where a submission's commands are, in a command buffer.
#[derive(Debug, Clone, Copy, Default)]
pub struct MagmaSubmitBufferInfo {
    pub header: MagmaStructureTypeHeader,
    pub command_buffer: u32,
    pub start_offset: u64,
    pub length: u64,
}

/// The extension that a submission links to.
#[derive(Debug, Clone, Copy)]
pub enum MagmaSubmitExtension {
    AddressSpace(MagmaSubmitAddressSpaceInfo),
    Buffer(MagmaSubmitBufferInfo),
}

impl MagmaSubmitExtension {
    /// The header of the extension.
    pub open spec fn spec_header(self) -> MagmaStructureTypeHeader {
        match self {
            MagmaSubmitExtension::AddressSpace(x) => x.header,
            MagmaSubmitExtension::Buffer(x) => x.header,
        }
    }
}

/// The sync objects of a submission: the first `num_wait_sync_objs` slots
/// of `wait_sync_objs` are waited on, at the matching `wait_points`; the
/// first `num_signal_sync_objs` slots of `signal_sync_objs` are signaled, at
/// the matching `signal_points`. Empty slots are skipped.
pub struct MagmaSubmitSyncInfo<S: BackendSyncObject> {
    pub header: MagmaStructureTypeHeader,
    pub num_wait_sync_objs: u32,
    pub num_signal_sync_objs: u32,
    pub wait_sync_objs: [Option<SyncObj<S>>; MAGMA_MAX_SYNCOBJS],
    pub signal_sync_objs: [Option<SyncObj<S>>; MAGMA_MAX_SYNCOBJS],
    pub wait_points: [u64; MAGMA_MAX_SYNCOBJS],
    pub signal_points: [u64; MAGMA_MAX_SYNCOBJS],
}

/// The objects held in the first `n` slots, with the point of each slot,
/// skipping empty slots.
pub open spec fn present_with_points<S: BackendSyncObject>(slots: Seq<Option<SyncObj<S>>>, points: Seq<u64>, n: int) -> Seq<(Arc<S>, u64)>
    decreases n,
{
    if n <= 0 {
        Seq::empty()
    } else {
        let prev = present_with_points(slots, points, n - 1);
        match slots[n - 1] {
            Some(o) => prev.push((o.sync_obj, points[n - 1])),
            None => prev,
        }
    }
}

/// The objects held in the first `n` slots, skipping empty slots.
pub open spec fn present_objs<S: BackendSyncObject>(slots: Seq<Option<SyncObj<S>>>, n: int) -> Seq<Arc<S>>
    decreases n,
{
    if n <= 0 {
        Seq::empty()
    } else {
        let prev = present_objs(slots, n - 1);
        match slots[n - 1] {
            Some(o) => prev.push(o.sync_obj),
            None => prev,
        }
    }
}

/// How many slots a count selects: the count, capped at the slot number.
pub open spec fn slot_count(num: u32) -> int {
    if num < MAGMA_MAX_SYNCOBJS {
        num as int
    } else {
        MAGMA_MAX_SYNCOBJS as int
    }
}

/// The slots filled with handles of the first `n` objects of `objs`, the
/// rest empty.
pub open spec fn filled_slots<S: BackendSyncObject>(objs: Seq<SyncObj<S>>, n: int) -> Seq<Option<SyncObj<S>>> {
    Seq::new(
        MAGMA_MAX_SYNCOBJS as nat,
        |i: int|
            if i < n {
                Some(SyncObj { sync_obj: objs[i].sync_obj })
            } else {
                None
            },
    )
}

proof fn lemma_filled_prefix<S: BackendSyncObject>(objs: Seq<SyncObj<S>>, n: int, points: Seq<u64>, k: int)
    requires
        0 <= k <= n,
        n <= objs.len(),
        n <= MAGMA_MAX_SYNCOBJS,
    ensures
        present_objs(filled_slots(objs, n), k) == Seq::new(k as nat, |i: int| objs[i].sync_obj),
        present_with_points(filled_slots(objs, n), points, k) == Seq::new(k as nat, |i: int| (objs[i].sync_obj, points[i])),
    decreases k,
{
    if k > 0 {
        lemma_filled_prefix(objs, n, points, k - 1);
        assert(present_objs(filled_slots(objs, n), k) =~= Seq::new(k as nat, |i: int| objs[i].sync_obj));
        assert(present_with_points(filled_slots(objs, n), points, k)
            =~= Seq::new(k as nat, |i: int| (objs[i].sync_obj, points[i])));
    } else {
        assert(present_objs(filled_slots(objs, n), k) =~= Seq::new(k as nat, |i: int| objs[i].sync_obj));
        assert(present_with_points(filled_slots(objs, n), points, k)
            =~= Seq::new(k as nat, |i: int| (objs[i].sync_obj, points[i])));
    }
}

/// Slots filled with the first `n` objects give those objects back, in
/// order, each with the point of its slot: what a submission is built to wait
/// on or signal is what it reports.
pub proof fn lemma_filled_slots_give_objects_back<S: BackendSyncObject>(objs: Seq<SyncObj<S>>, n: int, points: Seq<u64>)
    requires
        0 <= n <= objs.len(),
        n <= MAGMA_MAX_SYNCOBJS,
    ensures
        slot_count(n as u32) == n,
        present_objs(filled_slots(objs, n), slot_count(n as u32)) == Seq::new(n as nat, |i: int| objs[i].sync_obj),
        present_with_points(filled_slots(objs, n), points, slot_count(n as u32))
            == Seq::new(n as nat, |i: int| (objs[i].sync_obj, points[i])),
{
    lemma_filled_prefix(objs, n, points, n);
}

fn empty_slots<S: BackendSyncObject>() -> (r: [Option<SyncObj<S>>; MAGMA_MAX_SYNCOBJS])
    ensures
        forall|i: int| 0 <= i < MAGMA_MAX_SYNCOBJS ==> r@[i] is None,
{
    [None, None, None, None, None, None, None, None, None, None, None, None, None, None, None, None]
}

fn fill_slots<S: BackendSyncObject>(objs: &[SyncObj<S>]) -> (r: ([Option<SyncObj<S>>; MAGMA_MAX_SYNCOBJS], usize))
    ensures
        r.1 == (if objs@.len() < MAGMA_MAX_SYNCOBJS {
            objs@.len()
        } else {
            MAGMA_MAX_SYNCOBJS as nat
        }),
        r.0@ == filled_slots(objs@, r.1 as int),
{
    let mut slots = empty_slots();
    let n = if objs.len() < MAGMA_MAX_SYNCOBJS {
        objs.len()
    } else {
        MAGMA_MAX_SYNCOBJS
    };
    let mut i: usize = 0;
    while i < n
        invariant
            n <= objs@.len(),
            n <= MAGMA_MAX_SYNCOBJS,
            i <= n,
            forall|j: int|
                0 <= j < MAGMA_MAX_SYNCOBJS ==> slots@[j] == (if j < i {
                    Some(SyncObj { sync_obj: objs@[j].sync_obj })
                } else {
                    None::<SyncObj<S>>
                }),
        decreases n - i,
    {
        let o = objs[i].clone();
        slots[i] = Some(o);
        i = i + 1;
    }
    assert(slots@ =~= filled_slots(objs@, n as int));
    (slots, n)
}

impl<S: BackendSyncObject> MagmaSubmitSyncInfo<S> {
    /// Sync information that waits on the first 16 objects of
    /// `wait_sync_objs` and signals the first 16 of `signal_sync_objs`, all
    /// at point 0.
    pub fn from_sync_objs(wait_sync_objs: &[SyncObj<S>], signal_sync_objs: &[SyncObj<S>]) -> (r: MagmaSubmitSyncInfo<S>)
        ensures
            r.header.stype == MAGMA_STRUCTURE_TYPE_SUBMIT_SYNC_INFO,
            r.header.size == (vstd::layout::size_of::<MagmaSubmitSyncInfo<S>>() as u32),
            r.header.p_next == 0,
            r.num_wait_sync_objs as int == (if wait_sync_objs@.len() < MAGMA_MAX_SYNCOBJS {
                wait_sync_objs@.len() as int
            } else {
                MAGMA_MAX_SYNCOBJS as int
            }),
            r.num_signal_sync_objs as int == (if signal_sync_objs@.len() < MAGMA_MAX_SYNCOBJS {
                signal_sync_objs@.len() as int
            } else {
                MAGMA_MAX_SYNCOBJS as int
            }),
            r.wait_sync_objs@ == filled_slots(wait_sync_objs@, r.num_wait_sync_objs as int),
            r.signal_sync_objs@ == filled_slots(signal_sync_objs@, r.num_signal_sync_objs as int),
            forall|i: int| 0 <= i < MAGMA_MAX_SYNCOBJS ==> r.wait_points@[i] == 0 && r.signal_points@[i] == 0,
    {
        let (wait, num_wait) = fill_slots(wait_sync_objs);
        let (signal, num_signal) = fill_slots(signal_sync_objs);
        let size = core::mem::size_of::<MagmaSubmitSyncInfo<S>>() as u32;
        MagmaSubmitSyncInfo {
            header: MagmaStructureTypeHeader {
                stype: MAGMA_STRUCTURE_TYPE_SUBMIT_SYNC_INFO,
                size,
                p_next: 0,
            },
            num_wait_sync_objs: num_wait as u32,
            num_signal_sync_objs: num_signal as u32,
            wait_sync_objs: wait,
            signal_sync_objs: signal,
            wait_points: [0; MAGMA_MAX_SYNCOBJS],
            signal_points: [0; MAGMA_MAX_SYNCOBJS],
        }
    }

    /// The objects waited on, in slot order.
    pub fn wait_sync_objs(&self) -> (r: Vec<Arc<S>>)
        ensures
            r@ == present_objs(self.wait_sync_objs@, slot_count(self.num_wait_sync_objs)),
    {
        collect_objs(&self.wait_sync_objs, self.num_wait_sync_objs)
    }

    /// The objects waited on, each with its wait point, in slot order.
    pub fn wait_sync_objs_with_points(&self) -> (r: Vec<(Arc<S>, u64)>)
        ensures
            r@ == present_with_points(self.wait_sync_objs@, self.wait_points@, slot_count(self.num_wait_sync_objs)),
    {
        collect_with_points(&self.wait_sync_objs, &self.wait_points, self.num_wait_sync_objs)
    }

    /// The objects signaled, in slot order.
    pub fn signal_sync_objs(&self) -> (r: Vec<Arc<S>>)
        ensures
            r@ == present_objs(self.signal_sync_objs@, slot_count(self.num_signal_sync_objs)),
    {
        collect_objs(&self.signal_sync_objs, self.num_signal_sync_objs)
    }

    /// The objects signaled, each with its signal point, in slot order.
    pub fn signal_sync_objs_with_points(&self) -> (r: Vec<(Arc<S>, u64)>)
        ensures
            r@ == present_with_points(self.signal_sync_objs@, self.signal_points@, slot_count(self.num_signal_sync_objs)),
    {
        collect_with_points(&self.signal_sync_objs, &self.signal_points, self.num_signal_sync_objs)
    }
}

fn collect_objs<S: BackendSyncObject>(slots: &[Option<SyncObj<S>>; MAGMA_MAX_SYNCOBJS], num: u32) -> (r: Vec<Arc<S>>)
    ensures
        r@ == present_objs(slots@, slot_count(num)),
{
    let n: usize = if (num as usize) < MAGMA_MAX_SYNCOBJS {
        num as usize
    } else {
        MAGMA_MAX_SYNCOBJS
    };
    let mut out: Vec<Arc<S>> = Vec::new();
    let mut i: usize = 0;
    while i < n
        invariant
            n <= MAGMA_MAX_SYNCOBJS,
            n == slot_count(num),
            i <= n,
            out@ == present_objs(slots@, i as int),
        decreases n - i,
    {
        match &slots[i] {
            Some(o) => {
                out.push(clone_arc(&o.sync_obj));
            },
            None => {},
        }
        i = i + 1;
    }
    out
}

fn collect_with_points<S: BackendSyncObject>(slots: &[Option<SyncObj<S>>; MAGMA_MAX_SYNCOBJS], points: &[u64; MAGMA_MAX_SYNCOBJS], num: u32) -> (r: Vec<(Arc<S>, u64)>)
    ensures
        r@ == present_with_points(slots@, points@, slot_count(num)),
{
    let n: usize = if (num as usize) < MAGMA_MAX_SYNCOBJS {
        num as usize
    } else {
        MAGMA_MAX_SYNCOBJS
    };
    let mut out: Vec<(Arc<S>, u64)> = Vec::new();
    let mut i: usize = 0;
    while i < n
        invariant
            n <= MAGMA_MAX_SYNCOBJS,
            n == slot_count(num),
            i <= n,
            out@ == present_with_points(slots@, points@, i as int),
        decreases n - i,
    {
        match &slots[i] {
            Some(o) => {
                out.push((clone_arc(&o.sync_obj), points[i]));
            },
            None => {},
        }
        i = i + 1;
    }
    out
}

/// A submission: flags, sync objects, and the extension it links to, which
/// tells where the commands are. A set link (`header.p_next != 0`) stands
/// for the held extension.
pub struct MagmaSubmitInfo<S: BackendSyncObject> {
    pub header: MagmaStructureTypeHeader,
    pub flags: u32,
    pub sync_info: MagmaSubmitSyncInfo<S>,
    pub next: Option<MagmaSubmitExtension>,
}

impl<S: BackendSyncObject> MagmaSubmitInfo<S> {
    /// A submission whose commands are at a GPU address, as `as_info` tells.
    pub fn new_with_address_space(flags: u32, sync_info: MagmaSubmitSyncInfo<S>, as_info: &MagmaSubmitAddressSpaceInfo) -> (r: MagmaSubmitInfo<S>)
        ensures
            r.header.stype == MAGMA_STRUCTURE_TYPE_SUBMIT_INFO,
            r.header.size == (vstd::layout::size_of::<MagmaSubmitInfo<S>>() as u32),
            r.header.p_next != 0,
            r.flags == flags,
            r.sync_info == sync_info,
            r.next == Some(MagmaSubmitExtension::AddressSpace(*as_info)),
    {
        let size = core::mem::size_of::<MagmaSubmitInfo<S>>() as u32;
        MagmaSubmitInfo {
            header: MagmaStructureTypeHeader { stype: MAGMA_STRUCTURE_TYPE_SUBMIT_INFO, size, p_next: 1 },
            flags,
            sync_info,
            next: Some(MagmaSubmitExtension::AddressSpace(*as_info)),
        }
    }

    /// A submission whose commands are in a command buffer, as `buf_info`
    /// tells.
    pub fn new_with_buffer(flags: u32, sync_info: MagmaSubmitSyncInfo<S>, buf_info: &MagmaSubmitBufferInfo) -> (r: MagmaSubmitInfo<S>)
        ensures
            r.header.stype == MAGMA_STRUCTURE_TYPE_SUBMIT_INFO,
            r.header.size == (vstd::layout::size_of::<MagmaSubmitInfo<S>>() as u32),
            r.header.p_next != 0,
            r.flags == flags,
            r.sync_info == sync_info,
            r.next == Some(MagmaSubmitExtension::Buffer(*buf_info)),
    {
        let size = core::mem::size_of::<MagmaSubmitInfo<S>>() as u32;
        MagmaSubmitInfo {
            header: MagmaStructureTypeHeader { stype: MAGMA_STRUCTURE_TYPE_SUBMIT_INFO, size, p_next: 1 },
            flags,
            sync_info,
            next: Some(MagmaSubmitExtension::Buffer(*buf_info)),
        }
    }

    /// The sync information, when its header tags it as such.
    pub fn sync_info(&self) -> (r: Option<&MagmaSubmitSyncInfo<S>>)
        ensures
            self.sync_info.header.stype == MAGMA_STRUCTURE_TYPE_SUBMIT_SYNC_INFO ==> r == Some(&self.sync_info),
            self.sync_info.header.stype != MAGMA_STRUCTURE_TYPE_SUBMIT_SYNC_INFO ==> r is None,
    {
        if self.sync_info.header.stype == MAGMA_STRUCTURE_TYPE_SUBMIT_SYNC_INFO {
            Some(&self.sync_info)
        } else {
            None
        }
    }

    /// Replaces the sync information.
    pub fn set_sync_info(&mut self, sync_info: MagmaSubmitSyncInfo<S>)
        ensures
            final(self).sync_info == sync_info,
            final(self).header == old(self).header,
            final(self).flags == old(self).flags,
            final(self).next == old(self).next,
    {
        self.sync_info = sync_info;
    }

    /// The address-space extension that the submission links to: present
    /// when the link is set and the linked extension is one, tagged as such.
    pub fn address_space_info(&self) -> (r: Option<MagmaSubmitAddressSpaceInfo>)
        ensures
            r == (if self.header.p_next != 0 {
                match self.next {
                    Some(MagmaSubmitExtension::AddressSpace(x)) => if x.header.stype
                        == MAGMA_STRUCTURE_TYPE_SUBMIT_ADDRESS_SPACE_INFO {
                        Some(x)
                    } else {
                        None
                    },
                    _ => None,
                }
            } else {
                None
            }),
    {
        if self.header.p_next == 0 {
            return None;
        }
        match self.next {
            Some(MagmaSubmitExtension::AddressSpace(x)) => {
                if x.header.stype == MAGMA_STRUCTURE_TYPE_SUBMIT_ADDRESS_SPACE_INFO {
                    Some(x)
                } else {
                    None
                }
            },
            _ => None,
        }
    }

    /// The command-buffer extension that the submission links to: present
    /// when the link is set and the linked extension is one, tagged as such.
    pub fn buffer_info(&self) -> (r: Option<MagmaSubmitBufferInfo>)
        ensures
            r == (if self.header.p_next != 0 {
                match self.next {
                    Some(MagmaSubmitExtension::Buffer(x)) => if x.header.stype
                        == MAGMA_STRUCTURE_TYPE_SUBMIT_BUFFER_INFO {
                        Some(x)
                    } else {
                        None
                    },
                    _ => None,
                }
            } else {
                None
            }),
    {
        if self.header.p_next == 0 {
            return None;
        }
        match self.next {
            Some(MagmaSubmitExtension::Buffer(x)) => {
                if x.header.stype == MAGMA_STRUCTURE_TYPE_SUBMIT_BUFFER_INFO {
                    Some(x)
                } else {
                    None
                }
            },
            _ => None,
        }
    }
}

} // verus!
