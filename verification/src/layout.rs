//! Byte layout of the wire structures: every structure is laid out field
//! after field, integers little-endian, with no padding between fields.
use vstd::prelude::*;
use crate::wire::from_le16;
use crate::wire::from_le32;
use crate::wire::from_le64;
use crate::wire::lemma_le16_roundtrip;
use crate::wire::lemma_le32_roundtrip;
use crate::wire::lemma_le64_roundtrip;

use crate::protocol::MagmaHeap;
use crate::protocol::MagmaHeapBudget;
use crate::protocol::MagmaMemoryType;
use crate::protocol::MagmaPciBusInfo;
use crate::protocol::MagmaCreateQueueInfo;
use crate::protocol::MagmaQueueFamilyProperties;
use crate::protocol::MagmaStructureTypeHeader;
use crate::protocol::MagmaCreateBufferInfo;
use crate::protocol::MagmaDeviceCreateInfo;
use crate::protocol::MagmaWireSubmitSyncInfo;
use crate::protocol::MagmaWireSubmitInfo;
use crate::protocol::MagmaSubmitAddressSpaceInfo;
use crate::protocol::MagmaWireSubmitBufferInfo;
use crate::protocol::MagmaCreateSyncObjInfo;
use crate::protocol::MagmaSyncProperties;
use crate::protocol::MagmaVirtCapabilities;
use crate::protocol::MagmaPhysicalDeviceInfo;
use crate::protocol::MagmaPhysicalDeviceMemoryType;
use crate::protocol::MagmaPhysicalDeviceMemoryHeap;
use crate::protocol::MagmaCommandHeader;
use crate::protocol::CreateDevice;
use crate::protocol::CreateDeviceResp;
use crate::protocol::GetMemoryBudget;
use crate::protocol::GetMemoryBudgetResp;
use crate::protocol::CreateBuffer;
use crate::protocol::CreateBufferResp;
use crate::protocol::CreateAddressSpace;
use crate::protocol::CreateAddressSpaceResp;
use crate::protocol::CreateQueue;
use crate::protocol::CreateQueueResp;
use crate::protocol::DeviceClose;
use crate::protocol::PhysicalDeviceClose;
use crate::protocol::BufferClose;
use crate::protocol::QueueClose;
use crate::protocol::AddressSpaceClose;
use crate::protocol::VirtioCreateRing;
use crate::protocol::MapBufferGpu;
use crate::protocol::MapBufferGpuResp;
use crate::protocol::UnmapBufferGpu;
use crate::protocol::UnmapBufferGpuResp;
use crate::protocol::SubmitCommand;
use crate::protocol::SubmitCommandResp;
use crate::protocol::CreateSyncObj;
use crate::protocol::CreateSyncObjResp;
use crate::protocol::SyncObjClose;
use crate::protocol::SyncObjSignal;
use crate::protocol::SyncObjSignalResp;
use crate::protocol::SyncObjTimelineWait;
use crate::protocol::SyncObjTimelineWaitResp;
use crate::protocol::SyncObjTimelineSignal;
use crate::protocol::SyncObjTimelineSignalResp;
use crate::protocol::SyncObjTimelineQuery;
use crate::protocol::SyncObjTimelineQueryResp;
use crate::protocol::QueueCheckStatus;
use crate::protocol::QueueCheckStatusResp;
use crate::protocol::VirtioPing;
use crate::protocol::VirtioCreateFence;
use crate::protocol::VirtioSyncObjClose;
use crate::wire::le16;
use crate::wire::le32;
use crate::wire::le64;
use crate::wire::le32_seq;
use crate::wire::le64_seq;
use crate::wire::lemma_le32_seq_len;
use crate::wire::lemma_le64_seq_len;
use crate::wire::put_u8;
use crate::wire::put_u16;
use crate::wire::put_u32;
use crate::wire::put_u64;
use crate::wire::put_bytes;
use crate::wire::put_u32_array;
use crate::wire::put_u64_array;

verus! {

/// Bytes of a run of queue family records, in order.
pub open spec fn queue_family_seq_bytes(s: Seq<MagmaQueueFamilyProperties>) -> Seq<u8>
    decreases s.len(),
{
    if s.len() == 0 {
        Seq::empty()
    } else {
        queue_family_seq_bytes(s.drop_last()) + s.last().spec_bytes()
    }
}

pub proof fn lemma_queue_family_seq_len(s: Seq<MagmaQueueFamilyProperties>)
    ensures
        queue_family_seq_bytes(s).len() == 8 * s.len(),
    decreases s.len(),
{
    if s.len() > 0 {
        lemma_queue_family_seq_len(s.drop_last());
        s.last().lemma_bytes_len();
    }
}

/// Appends the bytes of every queue family record of `a`, in order.
pub fn put_queue_families(v: &mut Vec<u8>, a: &[MagmaQueueFamilyProperties])
    ensures
        final(v)@ == old(v)@ + queue_family_seq_bytes(a@),
{
    let mut i: usize = 0;
    while i < a.len()
        invariant
            i <= a.len(),
            v@ == old(v)@ + queue_family_seq_bytes(a@.take(i as int)),
        decreases a.len() - i,
    {
        a[i].write_to(v);
        assert(a@.take(i as int + 1).drop_last() =~= a@.take(i as int));
        i = i + 1;
        assert(v@ =~= old(v)@ + queue_family_seq_bytes(a@.take(i as int)));
    }
    assert(a@.take(i as int) =~= a@);
}

impl MagmaHeap {
    /// Number of bytes this structure occupies on the wire.
    pub open spec fn wire_size() -> nat {
        16
    }

    /// The bytes of this structure on the wire.
    pub open spec fn spec_bytes(&self) -> Seq<u8> {
        le64(self.heap_size) + le64(self.heap_flags)
    }

    pub proof fn lemma_bytes_len(&self)
        ensures
            self.spec_bytes().len() == Self::wire_size(),
    {
    }

    /// The fixed-size fields sit at their offsets, little-endian: reading
    /// the bytes back at those offsets gives the fields.
    pub proof fn lemma_field_offsets(&self)
        ensures
            from_le64(self.spec_bytes().subrange(0, 8)) == self.heap_size,
            from_le64(self.spec_bytes().subrange(8, 16)) == self.heap_flags,
    {
        let b = self.spec_bytes();
        assert(b.subrange(0, 8) =~= le64(self.heap_size));
        lemma_le64_roundtrip(self.heap_size);
        assert(b.subrange(8, 16) =~= le64(self.heap_flags));
        lemma_le64_roundtrip(self.heap_flags);
    }

    /// Appends the wire bytes of this structure to `v`.
    pub fn write_to(&self, v: &mut Vec<u8>)
        ensures
            final(v)@ == old(v)@ + self.spec_bytes(),
    {
        let ghost start = v@;
        put_u64(v, self.heap_size);
        put_u64(v, self.heap_flags);
        assert(v@ =~= start + self.spec_bytes());
    }

    /// The wire bytes of this structure.
    pub fn to_bytes(&self) -> (b: Vec<u8>)
        ensures
            b@ == self.spec_bytes(),
            b@.len() == Self::wire_size(),
    {
        let mut v: Vec<u8> = Vec::new();
        self.write_to(&mut v);
        proof {
            assert(v@ =~= self.spec_bytes());
            self.lemma_bytes_len();
        }
        v
    }
}

impl MagmaHeapBudget {
    /// Number of bytes this structure occupies on the wire.
    pub open spec fn wire_size() -> nat {
        16
    }

    /// The bytes of this structure on the wire.
    pub open spec fn spec_bytes(&self) -> Seq<u8> {
        le64(self.budget) + le64(self.usage)
    }

    pub proof fn lemma_bytes_len(&self)
        ensures
            self.spec_bytes().len() == Self::wire_size(),
    {
    }

    /// The fixed-size fields sit at their offsets, little-endian: reading
    /// the bytes back at those offsets gives the fields.
    pub proof fn lemma_field_offsets(&self)
        ensures
            from_le64(self.spec_bytes().subrange(0, 8)) == self.budget,
            from_le64(self.spec_bytes().subrange(8, 16)) == self.usage,
    {
        let b = self.spec_bytes();
        assert(b.subrange(0, 8) =~= le64(self.budget));
        lemma_le64_roundtrip(self.budget);
        assert(b.subrange(8, 16) =~= le64(self.usage));
        lemma_le64_roundtrip(self.usage);
    }

    /// Appends the wire bytes of this structure to `v`.
    pub fn write_to(&self, v: &mut Vec<u8>)
        ensures
            final(v)@ == old(v)@ + self.spec_bytes(),
    {
        let ghost start = v@;
        put_u64(v, self.budget);
        put_u64(v, self.usage);
        assert(v@ =~= start + self.spec_bytes());
    }

    /// The wire bytes of this structure.
    pub fn to_bytes(&self) -> (b: Vec<u8>)
        ensures
            b@ == self.spec_bytes(),
            b@.len() == Self::wire_size(),
    {
        let mut v: Vec<u8> = Vec::new();
        self.write_to(&mut v);
        proof {
            assert(v@ =~= self.spec_bytes());
            self.lemma_bytes_len();
        }
        v
    }
}

impl MagmaMemoryType {
    /// Number of bytes this structure occupies on the wire.
    pub open spec fn wire_size() -> nat {
        8
    }

    /// The bytes of this structure on the wire.
    pub open spec fn spec_bytes(&self) -> Seq<u8> {
        le32(self.property_flags) + le32(self.heap_idx)
    }

    pub proof fn lemma_bytes_len(&self)
        ensures
            self.spec_bytes().len() == Self::wire_size(),
    {
    }

    /// The fixed-size fields sit at their offsets, little-endian: reading
    /// the bytes back at those offsets gives the fields.
    pub proof fn lemma_field_offsets(&self)
        ensures
            from_le32(self.spec_bytes().subrange(0, 4)) == self.property_flags,
            from_le32(self.spec_bytes().subrange(4, 8)) == self.heap_idx,
    {
        let b = self.spec_bytes();
        assert(b.subrange(0, 4) =~= le32(self.property_flags));
        lemma_le32_roundtrip(self.property_flags);
        assert(b.subrange(4, 8) =~= le32(self.heap_idx));
        lemma_le32_roundtrip(self.heap_idx);
    }

    /// Appends the wire bytes of this structure to `v`.
    pub fn write_to(&self, v: &mut Vec<u8>)
        ensures
            final(v)@ == old(v)@ + self.spec_bytes(),
    {
        let ghost start = v@;
        put_u32(v, self.property_flags);
        put_u32(v, self.heap_idx);
        assert(v@ =~= start + self.spec_bytes());
    }

    /// The wire bytes of this structure.
    pub fn to_bytes(&self) -> (b: Vec<u8>)
        ensures
            b@ == self.spec_bytes(),
            b@.len() == Self::wire_size(),
    {
        let mut v: Vec<u8> = Vec::new();
        self.write_to(&mut v);
        proof {
            assert(v@ =~= self.spec_bytes());
            self.lemma_bytes_len();
        }
        v
    }
}

impl MagmaPciBusInfo {
    /// Number of bytes this structure occupies on the wire.
    pub open spec fn wire_size() -> nat {
        16
    }

    /// The bytes of this structure on the wire.
    pub open spec fn spec_bytes(&self) -> Seq<u8> {
        le16(self.domain) + le16(self.subvendor_id) + le16(self.subdevice_id) + seq![self.revision_id] + seq![self.bus] + seq![self.device] + seq![self.function] + self._padding@
    }

    pub proof fn lemma_bytes_len(&self)
        ensures
            self.spec_bytes().len() == Self::wire_size(),
    {
    }

    /// The fixed-size fields sit at their offsets, little-endian: reading
    /// the bytes back at those offsets gives the fields.
    pub proof fn lemma_field_offsets(&self)
        ensures
            from_le16(self.spec_bytes().subrange(0, 2)) == self.domain,
            from_le16(self.spec_bytes().subrange(2, 4)) == self.subvendor_id,
            from_le16(self.spec_bytes().subrange(4, 6)) == self.subdevice_id,
            self.spec_bytes()[6] == self.revision_id,
            self.spec_bytes()[7] == self.bus,
            self.spec_bytes()[8] == self.device,
            self.spec_bytes()[9] == self.function,
    {
        let b = self.spec_bytes();
        assert(b.subrange(0, 2) =~= le16(self.domain));
        lemma_le16_roundtrip(self.domain);
        assert(b.subrange(2, 4) =~= le16(self.subvendor_id));
        lemma_le16_roundtrip(self.subvendor_id);
        assert(b.subrange(4, 6) =~= le16(self.subdevice_id));
        lemma_le16_roundtrip(self.subdevice_id);
    }

    /// Appends the wire bytes of this structure to `v`.
    pub fn write_to(&self, v: &mut Vec<u8>)
        ensures
            final(v)@ == old(v)@ + self.spec_bytes(),
    {
        let ghost start = v@;
        put_u16(v, self.domain);
        put_u16(v, self.subvendor_id);
        put_u16(v, self.subdevice_id);
        put_u8(v, self.revision_id);
        put_u8(v, self.bus);
        put_u8(v, self.device);
        put_u8(v, self.function);
        put_bytes(v, &self._padding);
        assert(v@ =~= start + self.spec_bytes());
    }

    /// The wire bytes of this structure.
    pub fn to_bytes(&self) -> (b: Vec<u8>)
        ensures
            b@ == self.spec_bytes(),
            b@.len() == Self::wire_size(),
    {
        let mut v: Vec<u8> = Vec::new();
        self.write_to(&mut v);
        proof {
            assert(v@ =~= self.spec_bytes());
            self.lemma_bytes_len();
        }
        v
    }
}

impl MagmaCreateQueueInfo {
    /// Number of bytes this structure occupies on the wire.
    pub open spec fn wire_size() -> nat {
        16
    }

    /// The bytes of this structure on the wire.
    pub open spec fn spec_bytes(&self) -> Seq<u8> {
        le32(self.queue_family_idx) + le32(self.priority) + le32(self.flags) + le32(self._padding)
    }

    pub proof fn lemma_bytes_len(&self)
        ensures
            self.spec_bytes().len() == Self::wire_size(),
    {
    }

    /// The fixed-size fields sit at their offsets, little-endian: reading
    /// the bytes back at those offsets gives the fields.
    pub proof fn lemma_field_offsets(&self)
        ensures
            from_le32(self.spec_bytes().subrange(0, 4)) == self.queue_family_idx,
            from_le32(self.spec_bytes().subrange(4, 8)) == self.priority,
            from_le32(self.spec_bytes().subrange(8, 12)) == self.flags,
            from_le32(self.spec_bytes().subrange(12, 16)) == self._padding,
    {
        let b = self.spec_bytes();
        assert(b.subrange(0, 4) =~= le32(self.queue_family_idx));
        lemma_le32_roundtrip(self.queue_family_idx);
        assert(b.subrange(4, 8) =~= le32(self.priority));
        lemma_le32_roundtrip(self.priority);
        assert(b.subrange(8, 12) =~= le32(self.flags));
        lemma_le32_roundtrip(self.flags);
        assert(b.subrange(12, 16) =~= le32(self._padding));
        lemma_le32_roundtrip(self._padding);
    }

    /// Appends the wire bytes of this structure to `v`.
    pub fn write_to(&self, v: &mut Vec<u8>)
        ensures
            final(v)@ == old(v)@ + self.spec_bytes(),
    {
        let ghost start = v@;
        put_u32(v, self.queue_family_idx);
        put_u32(v, self.priority);
        put_u32(v, self.flags);
        put_u32(v, self._padding);
        assert(v@ =~= start + self.spec_bytes());
    }

    /// The wire bytes of this structure.
    pub fn to_bytes(&self) -> (b: Vec<u8>)
        ensures
            b@ == self.spec_bytes(),
            b@.len() == Self::wire_size(),
    {
        let mut v: Vec<u8> = Vec::new();
        self.write_to(&mut v);
        proof {
            assert(v@ =~= self.spec_bytes());
            self.lemma_bytes_len();
        }
        v
    }
}

impl MagmaQueueFamilyProperties {
    /// Number of bytes this structure occupies on the wire.
    pub open spec fn wire_size() -> nat {
        8
    }

    /// The bytes of this structure on the wire.
    pub open spec fn spec_bytes(&self) -> Seq<u8> {
        le32(self.queue_flags.spec_bits()) + le32(self.queue_count)
    }

    pub proof fn lemma_bytes_len(&self)
        ensures
            self.spec_bytes().len() == Self::wire_size(),
    {
    }

    /// The fixed-size fields sit at their offsets, little-endian: reading
    /// the bytes back at those offsets gives the fields.
    pub proof fn lemma_field_offsets(&self)
        ensures
            from_le32(self.spec_bytes().subrange(0, 4)) == self.queue_flags.spec_bits(),
            from_le32(self.spec_bytes().subrange(4, 8)) == self.queue_count,
    {
        let b = self.spec_bytes();
        assert(b.subrange(0, 4) =~= le32(self.queue_flags.spec_bits()));
        lemma_le32_roundtrip(self.queue_flags.spec_bits());
        assert(b.subrange(4, 8) =~= le32(self.queue_count));
        lemma_le32_roundtrip(self.queue_count);
    }

    /// Appends the wire bytes of this structure to `v`.
    pub fn write_to(&self, v: &mut Vec<u8>)
        ensures
            final(v)@ == old(v)@ + self.spec_bytes(),
    {
        let ghost start = v@;
        put_u32(v, self.queue_flags.bits());
        put_u32(v, self.queue_count);
        assert(v@ =~= start + self.spec_bytes());
    }

    /// The wire bytes of this structure.
    pub fn to_bytes(&self) -> (b: Vec<u8>)
        ensures
            b@ == self.spec_bytes(),
            b@.len() == Self::wire_size(),
    {
        let mut v: Vec<u8> = Vec::new();
        self.write_to(&mut v);
        proof {
            assert(v@ =~= self.spec_bytes());
            self.lemma_bytes_len();
        }
        v
    }
}

impl MagmaStructureTypeHeader {
    /// Number of bytes this structure occupies on the wire.
    pub open spec fn wire_size() -> nat {
        16
    }

    /// The bytes of this structure on the wire.
    pub open spec fn spec_bytes(&self) -> Seq<u8> {
        le32(self.stype) + le32(self.size) + le64(self.p_next)
    }

    pub proof fn lemma_bytes_len(&self)
        ensures
            self.spec_bytes().len() == Self::wire_size(),
    {
    }

    /// The fixed-size fields sit at their offsets, little-endian: reading
    /// the bytes back at those offsets gives the fields.
    pub proof fn lemma_field_offsets(&self)
        ensures
            from_le32(self.spec_bytes().subrange(0, 4)) == self.stype,
            from_le32(self.spec_bytes().subrange(4, 8)) == self.size,
            from_le64(self.spec_bytes().subrange(8, 16)) == self.p_next,
    {
        let b = self.spec_bytes();
        assert(b.subrange(0, 4) =~= le32(self.stype));
        lemma_le32_roundtrip(self.stype);
        assert(b.subrange(4, 8) =~= le32(self.size));
        lemma_le32_roundtrip(self.size);
        assert(b.subrange(8, 16) =~= le64(self.p_next));
        lemma_le64_roundtrip(self.p_next);
    }

    /// Appends the wire bytes of this structure to `v`.
    pub fn write_to(&self, v: &mut Vec<u8>)
        ensures
            final(v)@ == old(v)@ + self.spec_bytes(),
    {
        let ghost start = v@;
        put_u32(v, self.stype);
        put_u32(v, self.size);
        put_u64(v, self.p_next);
        assert(v@ =~= start + self.spec_bytes());
    }

    /// The wire bytes of this structure.
    pub fn to_bytes(&self) -> (b: Vec<u8>)
        ensures
            b@ == self.spec_bytes(),
            b@.len() == Self::wire_size(),
    {
        let mut v: Vec<u8> = Vec::new();
        self.write_to(&mut v);
        proof {
            assert(v@ =~= self.spec_bytes());
            self.lemma_bytes_len();
        }
        v
    }
}

impl MagmaCreateBufferInfo {
    /// Number of bytes this structure occupies on the wire.
    pub open spec fn wire_size() -> nat {
        40
    }

    /// The bytes of this structure on the wire.
    pub open spec fn spec_bytes(&self) -> Seq<u8> {
        self.header.spec_bytes() + le32(self.memory_type_idx) + le32(self.alignment) + le32(self.common_flags) + le32(self.vendor_flags) + le64(self.size)
    }

    pub proof fn lemma_bytes_len(&self)
        ensures
            self.spec_bytes().len() == Self::wire_size(),
    {
        self.header.lemma_bytes_len();
    }

    /// The fixed-size fields sit at their offsets, little-endian: reading
    /// the bytes back at those offsets gives the fields.
    pub proof fn lemma_field_offsets(&self)
        ensures
            self.spec_bytes().subrange(0, 16) == self.header.spec_bytes(),
            from_le32(self.spec_bytes().subrange(16, 20)) == self.memory_type_idx,
            from_le32(self.spec_bytes().subrange(20, 24)) == self.alignment,
            from_le32(self.spec_bytes().subrange(24, 28)) == self.common_flags,
            from_le32(self.spec_bytes().subrange(28, 32)) == self.vendor_flags,
            from_le64(self.spec_bytes().subrange(32, 40)) == self.size,
    {
        let b = self.spec_bytes();
        self.header.lemma_bytes_len();
        assert(b.subrange(0, 16) =~= self.header.spec_bytes());
        assert(b.subrange(16, 20) =~= le32(self.memory_type_idx));
        lemma_le32_roundtrip(self.memory_type_idx);
        assert(b.subrange(20, 24) =~= le32(self.alignment));
        lemma_le32_roundtrip(self.alignment);
        assert(b.subrange(24, 28) =~= le32(self.common_flags));
        lemma_le32_roundtrip(self.common_flags);
        assert(b.subrange(28, 32) =~= le32(self.vendor_flags));
        lemma_le32_roundtrip(self.vendor_flags);
        assert(b.subrange(32, 40) =~= le64(self.size));
        lemma_le64_roundtrip(self.size);
    }

    /// Appends the wire bytes of this structure to `v`.
    pub fn write_to(&self, v: &mut Vec<u8>)
        ensures
            final(v)@ == old(v)@ + self.spec_bytes(),
    {
        let ghost start = v@;
        self.header.write_to(v);
        put_u32(v, self.memory_type_idx);
        put_u32(v, self.alignment);
        put_u32(v, self.common_flags);
        put_u32(v, self.vendor_flags);
        put_u64(v, self.size);
        assert(v@ =~= start + self.spec_bytes());
    }

    /// The wire bytes of this structure.
    pub fn to_bytes(&self) -> (b: Vec<u8>)
        ensures
            b@ == self.spec_bytes(),
            b@.len() == Self::wire_size(),
    {
        let mut v: Vec<u8> = Vec::new();
        self.write_to(&mut v);
        proof {
            assert(v@ =~= self.spec_bytes());
            self.lemma_bytes_len();
        }
        v
    }
}

impl MagmaDeviceCreateInfo {
    /// Number of bytes this structure occupies on the wire.
    pub open spec fn wire_size() -> nat {
        24
    }

    /// The bytes of this structure on the wire.
    pub open spec fn spec_bytes(&self) -> Seq<u8> {
        self.header.spec_bytes() + le32(self.flags) + le32(self._padding)
    }

    pub proof fn lemma_bytes_len(&self)
        ensures
            self.spec_bytes().len() == Self::wire_size(),
    {
        self.header.lemma_bytes_len();
    }

    /// The fixed-size fields sit at their offsets, little-endian: reading
    /// the bytes back at those offsets gives the fields.
    pub proof fn lemma_field_offsets(&self)
        ensures
            self.spec_bytes().subrange(0, 16) == self.header.spec_bytes(),
            from_le32(self.spec_bytes().subrange(16, 20)) == self.flags,
            from_le32(self.spec_bytes().subrange(20, 24)) == self._padding,
    {
        let b = self.spec_bytes();
        self.header.lemma_bytes_len();
        assert(b.subrange(0, 16) =~= self.header.spec_bytes());
        assert(b.subrange(16, 20) =~= le32(self.flags));
        lemma_le32_roundtrip(self.flags);
        assert(b.subrange(20, 24) =~= le32(self._padding));
        lemma_le32_roundtrip(self._padding);
    }

    /// Appends the wire bytes of this structure to `v`.
    pub fn write_to(&self, v: &mut Vec<u8>)
        ensures
            final(v)@ == old(v)@ + self.spec_bytes(),
    {
        let ghost start = v@;
        self.header.write_to(v);
        put_u32(v, self.flags);
        put_u32(v, self._padding);
        assert(v@ =~= start + self.spec_bytes());
    }

    /// The wire bytes of this structure.
    pub fn to_bytes(&self) -> (b: Vec<u8>)
        ensures
            b@ == self.spec_bytes(),
            b@.len() == Self::wire_size(),
    {
        let mut v: Vec<u8> = Vec::new();
        self.write_to(&mut v);
        proof {
            assert(v@ =~= self.spec_bytes());
            self.lemma_bytes_len();
        }
        v
    }
}

impl MagmaWireSubmitSyncInfo {
    /// Number of bytes this structure occupies on the wire.
    pub open spec fn wire_size() -> nat {
        408
    }

    /// The bytes of this structure on the wire.
    pub open spec fn spec_bytes(&self) -> Seq<u8> {
        self.header.spec_bytes() + le32(self.num_wait_sync_objs) + le32(self.num_signal_sync_objs) + le32_seq(self.wait_sync_objs@) + le32_seq(self.signal_sync_objs@) + le64_seq(self.wait_points@) + le64_seq(self.signal_points@)
    }

    pub proof fn lemma_bytes_len(&self)
        ensures
            self.spec_bytes().len() == Self::wire_size(),
    {
        self.header.lemma_bytes_len();
        lemma_le32_seq_len(self.wait_sync_objs@);
        lemma_le32_seq_len(self.signal_sync_objs@);
        lemma_le64_seq_len(self.wait_points@);
        lemma_le64_seq_len(self.signal_points@);
    }

    /// The fixed-size fields sit at their offsets, little-endian: reading
    /// the bytes back at those offsets gives the fields.
    pub proof fn lemma_field_offsets(&self)
        ensures
            self.spec_bytes().subrange(0, 16) == self.header.spec_bytes(),
            from_le32(self.spec_bytes().subrange(16, 20)) == self.num_wait_sync_objs,
            from_le32(self.spec_bytes().subrange(20, 24)) == self.num_signal_sync_objs,
    {
        let b = self.spec_bytes();
        self.header.lemma_bytes_len();
        assert(b.subrange(0, 16) =~= self.header.spec_bytes());
        assert(b.subrange(16, 20) =~= le32(self.num_wait_sync_objs));
        lemma_le32_roundtrip(self.num_wait_sync_objs);
        assert(b.subrange(20, 24) =~= le32(self.num_signal_sync_objs));
        lemma_le32_roundtrip(self.num_signal_sync_objs);
    }

    /// Appends the wire bytes of this structure to `v`.
    pub fn write_to(&self, v: &mut Vec<u8>)
        ensures
            final(v)@ == old(v)@ + self.spec_bytes(),
    {
        let ghost start = v@;
        self.header.write_to(v);
        put_u32(v, self.num_wait_sync_objs);
        put_u32(v, self.num_signal_sync_objs);
        put_u32_array(v, &self.wait_sync_objs);
        put_u32_array(v, &self.signal_sync_objs);
        put_u64_array(v, &self.wait_points);
        put_u64_array(v, &self.signal_points);
        assert(v@ =~= start + self.spec_bytes());
    }

    /// The wire bytes of this structure.
    pub fn to_bytes(&self) -> (b: Vec<u8>)
        ensures
            b@ == self.spec_bytes(),
            b@.len() == Self::wire_size(),
    {
        let mut v: Vec<u8> = Vec::new();
        self.write_to(&mut v);
        proof {
            assert(v@ =~= self.spec_bytes());
            self.lemma_bytes_len();
        }
        v
    }
}

impl MagmaWireSubmitInfo {
    /// Number of bytes this structure occupies on the wire.
    pub open spec fn wire_size() -> nat {
        432
    }

    /// The bytes of this structure on the wire.
    pub open spec fn spec_bytes(&self) -> Seq<u8> {
        self.header.spec_bytes() + le32(self.flags) + le32(self._pad0) + self.sync_info.spec_bytes()
    }

    pub proof fn lemma_bytes_len(&self)
        ensures
            self.spec_bytes().len() == Self::wire_size(),
    {
        self.header.lemma_bytes_len();
        self.sync_info.lemma_bytes_len();
    }

    /// The fixed-size fields sit at their offsets, little-endian: reading
    /// the bytes back at those offsets gives the fields.
    pub proof fn lemma_field_offsets(&self)
        ensures
            self.spec_bytes().subrange(0, 16) == self.header.spec_bytes(),
            from_le32(self.spec_bytes().subrange(16, 20)) == self.flags,
            from_le32(self.spec_bytes().subrange(20, 24)) == self._pad0,
            self.spec_bytes().subrange(24, 432) == self.sync_info.spec_bytes(),
    {
        let b = self.spec_bytes();
        self.header.lemma_bytes_len();
        self.sync_info.lemma_bytes_len();
        assert(b.subrange(0, 16) =~= self.header.spec_bytes());
        assert(b.subrange(16, 20) =~= le32(self.flags));
        lemma_le32_roundtrip(self.flags);
        assert(b.subrange(20, 24) =~= le32(self._pad0));
        lemma_le32_roundtrip(self._pad0);
        assert(b.subrange(24, 432) =~= self.sync_info.spec_bytes());
    }

    /// Appends the wire bytes of this structure to `v`.
    pub fn write_to(&self, v: &mut Vec<u8>)
        ensures
            final(v)@ == old(v)@ + self.spec_bytes(),
    {
        let ghost start = v@;
        self.header.write_to(v);
        put_u32(v, self.flags);
        put_u32(v, self._pad0);
        self.sync_info.write_to(v);
        assert(v@ =~= start + self.spec_bytes());
    }

    /// The wire bytes of this structure.
    pub fn to_bytes(&self) -> (b: Vec<u8>)
        ensures
            b@ == self.spec_bytes(),
            b@.len() == Self::wire_size(),
    {
        let mut v: Vec<u8> = Vec::new();
        self.write_to(&mut v);
        proof {
            assert(v@ =~= self.spec_bytes());
            self.lemma_bytes_len();
        }
        v
    }
}

impl MagmaSubmitAddressSpaceInfo {
    /// Number of bytes this structure occupies on the wire.
    pub open spec fn wire_size() -> nat {
        32
    }

    /// The bytes of this structure on the wire.
    pub open spec fn spec_bytes(&self) -> Seq<u8> {
        self.header.spec_bytes() + le64(self.command_va) + le64(self.length)
    }

    pub proof fn lemma_bytes_len(&self)
        ensures
            self.spec_bytes().len() == Self::wire_size(),
    {
        self.header.lemma_bytes_len();
    }

    /// The fixed-size fields sit at their offsets, little-endian: reading
    /// the bytes back at those offsets gives the fields.
    pub proof fn lemma_field_offsets(&self)
        ensures
            self.spec_bytes().subrange(0, 16) == self.header.spec_bytes(),
            from_le64(self.spec_bytes().subrange(16, 24)) == self.command_va,
            from_le64(self.spec_bytes().subrange(24, 32)) == self.length,
    {
        let b = self.spec_bytes();
        self.header.lemma_bytes_len();
        assert(b.subrange(0, 16) =~= self.header.spec_bytes());
        assert(b.subrange(16, 24) =~= le64(self.command_va));
        lemma_le64_roundtrip(self.command_va);
        assert(b.subrange(24, 32) =~= le64(self.length));
        lemma_le64_roundtrip(self.length);
    }

    /// Appends the wire bytes of this structure to `v`.
    pub fn write_to(&self, v: &mut Vec<u8>)
        ensures
            final(v)@ == old(v)@ + self.spec_bytes(),
    {
        let ghost start = v@;
        self.header.write_to(v);
        put_u64(v, self.command_va);
        put_u64(v, self.length);
        assert(v@ =~= start + self.spec_bytes());
    }

    /// The wire bytes of this structure.
    pub fn to_bytes(&self) -> (b: Vec<u8>)
        ensures
            b@ == self.spec_bytes(),
            b@.len() == Self::wire_size(),
    {
        let mut v: Vec<u8> = Vec::new();
        self.write_to(&mut v);
        proof {
            assert(v@ =~= self.spec_bytes());
            self.lemma_bytes_len();
        }
        v
    }
}

impl MagmaWireSubmitBufferInfo {
    /// Number of bytes this structure occupies on the wire.
    pub open spec fn wire_size() -> nat {
        40
    }

    /// The bytes of this structure on the wire.
    pub open spec fn spec_bytes(&self) -> Seq<u8> {
        self.header.spec_bytes() + le32(self.command_buffer) + le32(self._pad0) + le64(self.start_offset) + le64(self.length)
    }

    pub proof fn lemma_bytes_len(&self)
        ensures
            self.spec_bytes().len() == Self::wire_size(),
    {
        self.header.lemma_bytes_len();
    }

    /// The fixed-size fields sit at their offsets, little-endian: reading
    /// the bytes back at those offsets gives the fields.
    pub proof fn lemma_field_offsets(&self)
        ensures
            self.spec_bytes().subrange(0, 16) == self.header.spec_bytes(),
            from_le32(self.spec_bytes().subrange(16, 20)) == self.command_buffer,
            from_le32(self.spec_bytes().subrange(20, 24)) == self._pad0,
            from_le64(self.spec_bytes().subrange(24, 32)) == self.start_offset,
            from_le64(self.spec_bytes().subrange(32, 40)) == self.length,
    {
        let b = self.spec_bytes();
        self.header.lemma_bytes_len();
        assert(b.subrange(0, 16) =~= self.header.spec_bytes());
        assert(b.subrange(16, 20) =~= le32(self.command_buffer));
        lemma_le32_roundtrip(self.command_buffer);
        assert(b.subrange(20, 24) =~= le32(self._pad0));
        lemma_le32_roundtrip(self._pad0);
        assert(b.subrange(24, 32) =~= le64(self.start_offset));
        lemma_le64_roundtrip(self.start_offset);
        assert(b.subrange(32, 40) =~= le64(self.length));
        lemma_le64_roundtrip(self.length);
    }

    /// Appends the wire bytes of this structure to `v`.
    pub fn write_to(&self, v: &mut Vec<u8>)
        ensures
            final(v)@ == old(v)@ + self.spec_bytes(),
    {
        let ghost start = v@;
        self.header.write_to(v);
        put_u32(v, self.command_buffer);
        put_u32(v, self._pad0);
        put_u64(v, self.start_offset);
        put_u64(v, self.length);
        assert(v@ =~= start + self.spec_bytes());
    }

    /// The wire bytes of this structure.
    pub fn to_bytes(&self) -> (b: Vec<u8>)
        ensures
            b@ == self.spec_bytes(),
            b@.len() == Self::wire_size(),
    {
        let mut v: Vec<u8> = Vec::new();
        self.write_to(&mut v);
        proof {
            assert(v@ =~= self.spec_bytes());
            self.lemma_bytes_len();
        }
        v
    }
}

impl MagmaCreateSyncObjInfo {
    /// Number of bytes this structure occupies on the wire.
    pub open spec fn wire_size() -> nat {
        32
    }

    /// The bytes of this structure on the wire.
    pub open spec fn spec_bytes(&self) -> Seq<u8> {
        self.header.spec_bytes() + le32(self.sync_type) + le32(self.use_flags.spec_bits()) + le64(self.initial_point)
    }

    pub proof fn lemma_bytes_len(&self)
        ensures
            self.spec_bytes().len() == Self::wire_size(),
    {
        self.header.lemma_bytes_len();
    }

    /// The fixed-size fields sit at their offsets, little-endian: reading
    /// the bytes back at those offsets gives the fields.
    pub proof fn lemma_field_offsets(&self)
        ensures
            self.spec_bytes().subrange(0, 16) == self.header.spec_bytes(),
            from_le32(self.spec_bytes().subrange(16, 20)) == self.sync_type,
            from_le32(self.spec_bytes().subrange(20, 24)) == self.use_flags.spec_bits(),
            from_le64(self.spec_bytes().subrange(24, 32)) == self.initial_point,
    {
        let b = self.spec_bytes();
        self.header.lemma_bytes_len();
        assert(b.subrange(0, 16) =~= self.header.spec_bytes());
        assert(b.subrange(16, 20) =~= le32(self.sync_type));
        lemma_le32_roundtrip(self.sync_type);
        assert(b.subrange(20, 24) =~= le32(self.use_flags.spec_bits()));
        lemma_le32_roundtrip(self.use_flags.spec_bits());
        assert(b.subrange(24, 32) =~= le64(self.initial_point));
        lemma_le64_roundtrip(self.initial_point);
    }

    /// Appends the wire bytes of this structure to `v`.
    pub fn write_to(&self, v: &mut Vec<u8>)
        ensures
            final(v)@ == old(v)@ + self.spec_bytes(),
    {
        let ghost start = v@;
        self.header.write_to(v);
        put_u32(v, self.sync_type);
        put_u32(v, self.use_flags.bits());
        put_u64(v, self.initial_point);
        assert(v@ =~= start + self.spec_bytes());
    }

    /// The wire bytes of this structure.
    pub fn to_bytes(&self) -> (b: Vec<u8>)
        ensures
            b@ == self.spec_bytes(),
            b@.len() == Self::wire_size(),
    {
        let mut v: Vec<u8> = Vec::new();
        self.write_to(&mut v);
        proof {
            assert(v@ =~= self.spec_bytes());
            self.lemma_bytes_len();
        }
        v
    }
}

impl MagmaSyncProperties {
    /// Number of bytes this structure occupies on the wire.
    pub open spec fn wire_size() -> nat {
        32
    }

    /// The bytes of this structure on the wire.
    pub open spec fn spec_bytes(&self) -> Seq<u8> {
        self.header.spec_bytes() + le32(self.capabilities) + le32(self._pad0) + le64(self.max_timeline_value_difference)
    }

    pub proof fn lemma_bytes_len(&self)
        ensures
            self.spec_bytes().len() == Self::wire_size(),
    {
        self.header.lemma_bytes_len();
    }

    /// The fixed-size fields sit at their offsets, little-endian: reading
    /// the bytes back at those offsets gives the fields.
    pub proof fn lemma_field_offsets(&self)
        ensures
            self.spec_bytes().subrange(0, 16) == self.header.spec_bytes(),
            from_le32(self.spec_bytes().subrange(16, 20)) == self.capabilities,
            from_le32(self.spec_bytes().subrange(20, 24)) == self._pad0,
            from_le64(self.spec_bytes().subrange(24, 32)) == self.max_timeline_value_difference,
    {
        let b = self.spec_bytes();
        self.header.lemma_bytes_len();
        assert(b.subrange(0, 16) =~= self.header.spec_bytes());
        assert(b.subrange(16, 20) =~= le32(self.capabilities));
        lemma_le32_roundtrip(self.capabilities);
        assert(b.subrange(20, 24) =~= le32(self._pad0));
        lemma_le32_roundtrip(self._pad0);
        assert(b.subrange(24, 32) =~= le64(self.max_timeline_value_difference));
        lemma_le64_roundtrip(self.max_timeline_value_difference);
    }

    /// Appends the wire bytes of this structure to `v`.
    pub fn write_to(&self, v: &mut Vec<u8>)
        ensures
            final(v)@ == old(v)@ + self.spec_bytes(),
    {
        let ghost start = v@;
        self.header.write_to(v);
        put_u32(v, self.capabilities);
        put_u32(v, self._pad0);
        put_u64(v, self.max_timeline_value_difference);
        assert(v@ =~= start + self.spec_bytes());
    }

    /// The wire bytes of this structure.
    pub fn to_bytes(&self) -> (b: Vec<u8>)
        ensures
            b@ == self.spec_bytes(),
            b@.len() == Self::wire_size(),
    {
        let mut v: Vec<u8> = Vec::new();
        self.write_to(&mut v);
        proof {
            assert(v@ =~= self.spec_bytes());
            self.lemma_bytes_len();
        }
        v
    }
}

impl MagmaVirtCapabilities {
    /// Number of bytes this structure occupies on the wire.
    pub open spec fn wire_size() -> nat {
        40
    }

    /// The bytes of this structure on the wire.
    pub open spec fn spec_bytes(&self) -> Seq<u8> {
        self.header.spec_bytes() + le32(self.capset_version) + le32(self.num_physical_devices) + le32(self.blob_preference.spec_raw()) + le32(self._pad0) + le64(self.ring_buffer_len)
    }

    pub proof fn lemma_bytes_len(&self)
        ensures
            self.spec_bytes().len() == Self::wire_size(),
    {
        self.header.lemma_bytes_len();
    }

    /// The fixed-size fields sit at their offsets, little-endian: reading
    /// the bytes back at those offsets gives the fields.
    pub proof fn lemma_field_offsets(&self)
        ensures
            self.spec_bytes().subrange(0, 16) == self.header.spec_bytes(),
            from_le32(self.spec_bytes().subrange(16, 20)) == self.capset_version,
            from_le32(self.spec_bytes().subrange(20, 24)) == self.num_physical_devices,
            from_le32(self.spec_bytes().subrange(24, 28)) == self.blob_preference.spec_raw(),
            from_le32(self.spec_bytes().subrange(28, 32)) == self._pad0,
            from_le64(self.spec_bytes().subrange(32, 40)) == self.ring_buffer_len,
    {
        let b = self.spec_bytes();
        self.header.lemma_bytes_len();
        assert(b.subrange(0, 16) =~= self.header.spec_bytes());
        assert(b.subrange(16, 20) =~= le32(self.capset_version));
        lemma_le32_roundtrip(self.capset_version);
        assert(b.subrange(20, 24) =~= le32(self.num_physical_devices));
        lemma_le32_roundtrip(self.num_physical_devices);
        assert(b.subrange(24, 28) =~= le32(self.blob_preference.spec_raw()));
        lemma_le32_roundtrip(self.blob_preference.spec_raw());
        assert(b.subrange(28, 32) =~= le32(self._pad0));
        lemma_le32_roundtrip(self._pad0);
        assert(b.subrange(32, 40) =~= le64(self.ring_buffer_len));
        lemma_le64_roundtrip(self.ring_buffer_len);
    }

    /// Appends the wire bytes of this structure to `v`.
    pub fn write_to(&self, v: &mut Vec<u8>)
        ensures
            final(v)@ == old(v)@ + self.spec_bytes(),
    {
        let ghost start = v@;
        self.header.write_to(v);
        put_u32(v, self.capset_version);
        put_u32(v, self.num_physical_devices);
        put_u32(v, self.blob_preference.raw());
        put_u32(v, self._pad0);
        put_u64(v, self.ring_buffer_len);
        assert(v@ =~= start + self.spec_bytes());
    }

    /// The wire bytes of this structure.
    pub fn to_bytes(&self) -> (b: Vec<u8>)
        ensures
            b@ == self.spec_bytes(),
            b@.len() == Self::wire_size(),
    {
        let mut v: Vec<u8> = Vec::new();
        self.write_to(&mut v);
        proof {
            assert(v@ =~= self.spec_bytes());
            self.lemma_bytes_len();
        }
        v
    }
}

impl MagmaPhysicalDeviceInfo {
    /// Number of bytes this structure occupies on the wire.
    pub open spec fn wire_size() -> nat {
        176
    }

    /// The bytes of this structure on the wire.
    pub open spec fn spec_bytes(&self) -> Seq<u8> {
        self.header.spec_bytes() + le32(self.bus_type) + le16(self.vendor_id.spec_raw()) + le16(self.device_id) + le32(self.flags) + self.pci_bus_info.spec_bytes() + le32(self.queue_family_count) + queue_family_seq_bytes(self.queue_families@)
    }

    pub proof fn lemma_bytes_len(&self)
        ensures
            self.spec_bytes().len() == Self::wire_size(),
    {
        self.header.lemma_bytes_len();
        self.pci_bus_info.lemma_bytes_len();
        lemma_queue_family_seq_len(self.queue_families@);
    }

    /// The fixed-size fields sit at their offsets, little-endian: reading
    /// the bytes back at those offsets gives the fields.
    pub proof fn lemma_field_offsets(&self)
        ensures
            self.spec_bytes().subrange(0, 16) == self.header.spec_bytes(),
            from_le32(self.spec_bytes().subrange(16, 20)) == self.bus_type,
            from_le16(self.spec_bytes().subrange(20, 22)) == self.vendor_id.spec_raw(),
            from_le16(self.spec_bytes().subrange(22, 24)) == self.device_id,
            from_le32(self.spec_bytes().subrange(24, 28)) == self.flags,
            self.spec_bytes().subrange(28, 44) == self.pci_bus_info.spec_bytes(),
            from_le32(self.spec_bytes().subrange(44, 48)) == self.queue_family_count,
    {
        let b = self.spec_bytes();
        self.header.lemma_bytes_len();
        self.pci_bus_info.lemma_bytes_len();
        assert(b.subrange(0, 16) =~= self.header.spec_bytes());
        assert(b.subrange(16, 20) =~= le32(self.bus_type));
        lemma_le32_roundtrip(self.bus_type);
        assert(b.subrange(20, 22) =~= le16(self.vendor_id.spec_raw()));
        lemma_le16_roundtrip(self.vendor_id.spec_raw());
        assert(b.subrange(22, 24) =~= le16(self.device_id));
        lemma_le16_roundtrip(self.device_id);
        assert(b.subrange(24, 28) =~= le32(self.flags));
        lemma_le32_roundtrip(self.flags);
        assert(b.subrange(28, 44) =~= self.pci_bus_info.spec_bytes());
        assert(b.subrange(44, 48) =~= le32(self.queue_family_count));
        lemma_le32_roundtrip(self.queue_family_count);
    }

    /// Appends the wire bytes of this structure to `v`.
    pub fn write_to(&self, v: &mut Vec<u8>)
        ensures
            final(v)@ == old(v)@ + self.spec_bytes(),
    {
        let ghost start = v@;
        self.header.write_to(v);
        put_u32(v, self.bus_type);
        put_u16(v, self.vendor_id.raw());
        put_u16(v, self.device_id);
        put_u32(v, self.flags);
        self.pci_bus_info.write_to(v);
        put_u32(v, self.queue_family_count);
        put_queue_families(v, &self.queue_families);
        assert(v@ =~= start + self.spec_bytes());
    }

    /// The wire bytes of this structure.
    pub fn to_bytes(&self) -> (b: Vec<u8>)
        ensures
            b@ == self.spec_bytes(),
            b@.len() == Self::wire_size(),
    {
        let mut v: Vec<u8> = Vec::new();
        self.write_to(&mut v);
        proof {
            assert(v@ =~= self.spec_bytes());
            self.lemma_bytes_len();
        }
        v
    }
}

impl MagmaPhysicalDeviceMemoryType {
    /// Number of bytes this structure occupies on the wire.
    pub open spec fn wire_size() -> nat {
        24
    }

    /// The bytes of this structure on the wire.
    pub open spec fn spec_bytes(&self) -> Seq<u8> {
        self.header.spec_bytes() + le32(self.property_flags) + le32(self.heap_idx)
    }

    pub proof fn lemma_bytes_len(&self)
        ensures
            self.spec_bytes().len() == Self::wire_size(),
    {
        self.header.lemma_bytes_len();
    }

    /// The fixed-size fields sit at their offsets, little-endian: reading
    /// the bytes back at those offsets gives the fields.
    pub proof fn lemma_field_offsets(&self)
        ensures
            self.spec_bytes().subrange(0, 16) == self.header.spec_bytes(),
            from_le32(self.spec_bytes().subrange(16, 20)) == self.property_flags,
            from_le32(self.spec_bytes().subrange(20, 24)) == self.heap_idx,
    {
        let b = self.spec_bytes();
        self.header.lemma_bytes_len();
        assert(b.subrange(0, 16) =~= self.header.spec_bytes());
        assert(b.subrange(16, 20) =~= le32(self.property_flags));
        lemma_le32_roundtrip(self.property_flags);
        assert(b.subrange(20, 24) =~= le32(self.heap_idx));
        lemma_le32_roundtrip(self.heap_idx);
    }

    /// Appends the wire bytes of this structure to `v`.
    pub fn write_to(&self, v: &mut Vec<u8>)
        ensures
            final(v)@ == old(v)@ + self.spec_bytes(),
    {
        let ghost start = v@;
        self.header.write_to(v);
        put_u32(v, self.property_flags);
        put_u32(v, self.heap_idx);
        assert(v@ =~= start + self.spec_bytes());
    }

    /// The wire bytes of this structure.
    pub fn to_bytes(&self) -> (b: Vec<u8>)
        ensures
            b@ == self.spec_bytes(),
            b@.len() == Self::wire_size(),
    {
        let mut v: Vec<u8> = Vec::new();
        self.write_to(&mut v);
        proof {
            assert(v@ =~= self.spec_bytes());
            self.lemma_bytes_len();
        }
        v
    }
}

impl MagmaPhysicalDeviceMemoryHeap {
    /// Number of bytes this structure occupies on the wire.
    pub open spec fn wire_size() -> nat {
        32
    }

    /// The bytes of this structure on the wire.
    pub open spec fn spec_bytes(&self) -> Seq<u8> {
        self.header.spec_bytes() + le64(self.heap_size) + le64(self.heap_flags)
    }

    pub proof fn lemma_bytes_len(&self)
        ensures
            self.spec_bytes().len() == Self::wire_size(),
    {
        self.header.lemma_bytes_len();
    }

    /// The fixed-size fields sit at their offsets, little-endian: reading
    /// the bytes back at those offsets gives the fields.
    pub proof fn lemma_field_offsets(&self)
        ensures
            self.spec_bytes().subrange(0, 16) == self.header.spec_bytes(),
            from_le64(self.spec_bytes().subrange(16, 24)) == self.heap_size,
            from_le64(self.spec_bytes().subrange(24, 32)) == self.heap_flags,
    {
        let b = self.spec_bytes();
        self.header.lemma_bytes_len();
        assert(b.subrange(0, 16) =~= self.header.spec_bytes());
        assert(b.subrange(16, 24) =~= le64(self.heap_size));
        lemma_le64_roundtrip(self.heap_size);
        assert(b.subrange(24, 32) =~= le64(self.heap_flags));
        lemma_le64_roundtrip(self.heap_flags);
    }

    /// Appends the wire bytes of this structure to `v`.
    pub fn write_to(&self, v: &mut Vec<u8>)
        ensures
            final(v)@ == old(v)@ + self.spec_bytes(),
    {
        let ghost start = v@;
        self.header.write_to(v);
        put_u64(v, self.heap_size);
        put_u64(v, self.heap_flags);
        assert(v@ =~= start + self.spec_bytes());
    }

    /// The wire bytes of this structure.
    pub fn to_bytes(&self) -> (b: Vec<u8>)
        ensures
            b@ == self.spec_bytes(),
            b@.len() == Self::wire_size(),
    {
        let mut v: Vec<u8> = Vec::new();
        self.write_to(&mut v);
        proof {
            assert(v@ =~= self.spec_bytes());
            self.lemma_bytes_len();
        }
        v
    }
}

impl MagmaCommandHeader {
    /// Number of bytes this structure occupies on the wire.
    pub open spec fn wire_size() -> nat {
        8
    }

    /// The bytes of this structure on the wire.
    pub open spec fn spec_bytes(&self) -> Seq<u8> {
        le32(self.opcode) + le32(self.size)
    }

    pub proof fn lemma_bytes_len(&self)
        ensures
            self.spec_bytes().len() == Self::wire_size(),
    {
    }

    /// The fixed-size fields sit at their offsets, little-endian: reading
    /// the bytes back at those offsets gives the fields.
    pub proof fn lemma_field_offsets(&self)
        ensures
            from_le32(self.spec_bytes().subrange(0, 4)) == self.opcode,
            from_le32(self.spec_bytes().subrange(4, 8)) == self.size,
    {
        let b = self.spec_bytes();
        assert(b.subrange(0, 4) =~= le32(self.opcode));
        lemma_le32_roundtrip(self.opcode);
        assert(b.subrange(4, 8) =~= le32(self.size));
        lemma_le32_roundtrip(self.size);
    }

    /// Appends the wire bytes of this structure to `v`.
    pub fn write_to(&self, v: &mut Vec<u8>)
        ensures
            final(v)@ == old(v)@ + self.spec_bytes(),
    {
        let ghost start = v@;
        put_u32(v, self.opcode);
        put_u32(v, self.size);
        assert(v@ =~= start + self.spec_bytes());
    }

    /// The wire bytes of this structure.
    pub fn to_bytes(&self) -> (b: Vec<u8>)
        ensures
            b@ == self.spec_bytes(),
            b@.len() == Self::wire_size(),
    {
        let mut v: Vec<u8> = Vec::new();
        self.write_to(&mut v);
        proof {
            assert(v@ =~= self.spec_bytes());
            self.lemma_bytes_len();
        }
        v
    }
}

impl CreateDevice {
    /// Number of bytes this structure occupies on the wire.
    pub open spec fn wire_size() -> nat {
        16
    }

    /// The bytes of this structure on the wire.
    pub open spec fn spec_bytes(&self) -> Seq<u8> {
        self.header.spec_bytes() + le32(self.physical_device) + le32(self.device)
    }

    pub proof fn lemma_bytes_len(&self)
        ensures
            self.spec_bytes().len() == Self::wire_size(),
    {
        self.header.lemma_bytes_len();
    }

    /// The fixed-size fields sit at their offsets, little-endian: reading
    /// the bytes back at those offsets gives the fields.
    pub proof fn lemma_field_offsets(&self)
        ensures
            self.spec_bytes().subrange(0, 8) == self.header.spec_bytes(),
            from_le32(self.spec_bytes().subrange(8, 12)) == self.physical_device,
            from_le32(self.spec_bytes().subrange(12, 16)) == self.device,
    {
        let b = self.spec_bytes();
        self.header.lemma_bytes_len();
        assert(b.subrange(0, 8) =~= self.header.spec_bytes());
        assert(b.subrange(8, 12) =~= le32(self.physical_device));
        lemma_le32_roundtrip(self.physical_device);
        assert(b.subrange(12, 16) =~= le32(self.device));
        lemma_le32_roundtrip(self.device);
    }

    /// Appends the wire bytes of this structure to `v`.
    pub fn write_to(&self, v: &mut Vec<u8>)
        ensures
            final(v)@ == old(v)@ + self.spec_bytes(),
    {
        let ghost start = v@;
        self.header.write_to(v);
        put_u32(v, self.physical_device);
        put_u32(v, self.device);
        assert(v@ =~= start + self.spec_bytes());
    }

    /// The wire bytes of this structure.
    pub fn to_bytes(&self) -> (b: Vec<u8>)
        ensures
            b@ == self.spec_bytes(),
            b@.len() == Self::wire_size(),
    {
        let mut v: Vec<u8> = Vec::new();
        self.write_to(&mut v);
        proof {
            assert(v@ =~= self.spec_bytes());
            self.lemma_bytes_len();
        }
        v
    }
}

impl CreateDeviceResp {
    /// Number of bytes this structure occupies on the wire.
    pub open spec fn wire_size() -> nat {
        8
    }

    /// The bytes of this structure on the wire.
    pub open spec fn spec_bytes(&self) -> Seq<u8> {
        self.header.spec_bytes()
    }

    pub proof fn lemma_bytes_len(&self)
        ensures
            self.spec_bytes().len() == Self::wire_size(),
    {
        self.header.lemma_bytes_len();
    }

    /// Appends the wire bytes of this structure to `v`.
    pub fn write_to(&self, v: &mut Vec<u8>)
        ensures
            final(v)@ == old(v)@ + self.spec_bytes(),
    {
        let ghost start = v@;
        self.header.write_to(v);
        assert(v@ =~= start + self.spec_bytes());
    }

    /// The wire bytes of this structure.
    pub fn to_bytes(&self) -> (b: Vec<u8>)
        ensures
            b@ == self.spec_bytes(),
            b@.len() == Self::wire_size(),
    {
        let mut v: Vec<u8> = Vec::new();
        self.write_to(&mut v);
        proof {
            assert(v@ =~= self.spec_bytes());
            self.lemma_bytes_len();
        }
        v
    }
}

impl GetMemoryBudget {
    /// Number of bytes this structure occupies on the wire.
    pub open spec fn wire_size() -> nat {
        16
    }

    /// The bytes of this structure on the wire.
    pub open spec fn spec_bytes(&self) -> Seq<u8> {
        self.header.spec_bytes() + le32(self.device) + le32(self.heap_idx)
    }

    pub proof fn lemma_bytes_len(&self)
        ensures
            self.spec_bytes().len() == Self::wire_size(),
    {
        self.header.lemma_bytes_len();
    }

    /// The fixed-size fields sit at their offsets, little-endian: reading
    /// the bytes back at those offsets gives the fields.
    pub proof fn lemma_field_offsets(&self)
        ensures
            self.spec_bytes().subrange(0, 8) == self.header.spec_bytes(),
            from_le32(self.spec_bytes().subrange(8, 12)) == self.device,
            from_le32(self.spec_bytes().subrange(12, 16)) == self.heap_idx,
    {
        let b = self.spec_bytes();
        self.header.lemma_bytes_len();
        assert(b.subrange(0, 8) =~= self.header.spec_bytes());
        assert(b.subrange(8, 12) =~= le32(self.device));
        lemma_le32_roundtrip(self.device);
        assert(b.subrange(12, 16) =~= le32(self.heap_idx));
        lemma_le32_roundtrip(self.heap_idx);
    }

    /// Appends the wire bytes of this structure to `v`.
    pub fn write_to(&self, v: &mut Vec<u8>)
        ensures
            final(v)@ == old(v)@ + self.spec_bytes(),
    {
        let ghost start = v@;
        self.header.write_to(v);
        put_u32(v, self.device);
        put_u32(v, self.heap_idx);
        assert(v@ =~= start + self.spec_bytes());
    }

    /// The wire bytes of this structure.
    pub fn to_bytes(&self) -> (b: Vec<u8>)
        ensures
            b@ == self.spec_bytes(),
            b@.len() == Self::wire_size(),
    {
        let mut v: Vec<u8> = Vec::new();
        self.write_to(&mut v);
        proof {
            assert(v@ =~= self.spec_bytes());
            self.lemma_bytes_len();
        }
        v
    }
}

impl GetMemoryBudgetResp {
    /// Number of bytes this structure occupies on the wire.
    pub open spec fn wire_size() -> nat {
        24
    }

    /// The bytes of this structure on the wire.
    pub open spec fn spec_bytes(&self) -> Seq<u8> {
        self.header.spec_bytes() + self.budget.spec_bytes()
    }

    pub proof fn lemma_bytes_len(&self)
        ensures
            self.spec_bytes().len() == Self::wire_size(),
    {
        self.header.lemma_bytes_len();
        self.budget.lemma_bytes_len();
    }

    /// The fixed-size fields sit at their offsets, little-endian: reading
    /// the bytes back at those offsets gives the fields.
    pub proof fn lemma_field_offsets(&self)
        ensures
            self.spec_bytes().subrange(0, 8) == self.header.spec_bytes(),
            self.spec_bytes().subrange(8, 24) == self.budget.spec_bytes(),
    {
        let b = self.spec_bytes();
        self.header.lemma_bytes_len();
        self.budget.lemma_bytes_len();
        assert(b.subrange(0, 8) =~= self.header.spec_bytes());
        assert(b.subrange(8, 24) =~= self.budget.spec_bytes());
    }

    /// Appends the wire bytes of this structure to `v`.
    pub fn write_to(&self, v: &mut Vec<u8>)
        ensures
            final(v)@ == old(v)@ + self.spec_bytes(),
    {
        let ghost start = v@;
        self.header.write_to(v);
        self.budget.write_to(v);
        assert(v@ =~= start + self.spec_bytes());
    }

    /// The wire bytes of this structure.
    pub fn to_bytes(&self) -> (b: Vec<u8>)
        ensures
            b@ == self.spec_bytes(),
            b@.len() == Self::wire_size(),
    {
        let mut v: Vec<u8> = Vec::new();
        self.write_to(&mut v);
        proof {
            assert(v@ =~= self.spec_bytes());
            self.lemma_bytes_len();
        }
        v
    }
}

impl CreateBuffer {
    /// Number of bytes this structure occupies on the wire.
    pub open spec fn wire_size() -> nat {
        64
    }

    /// The bytes of this structure on the wire.
    pub open spec fn spec_bytes(&self) -> Seq<u8> {
        self.header.spec_bytes() + le32(self.device) + le32(self._pad0) + self.info.spec_bytes() + le32(self.buffer_out) + le32(self._padding)
    }

    pub proof fn lemma_bytes_len(&self)
        ensures
            self.spec_bytes().len() == Self::wire_size(),
    {
        self.header.lemma_bytes_len();
        self.info.lemma_bytes_len();
    }

    /// The fixed-size fields sit at their offsets, little-endian: reading
    /// the bytes back at those offsets gives the fields.
    pub proof fn lemma_field_offsets(&self)
        ensures
            self.spec_bytes().subrange(0, 8) == self.header.spec_bytes(),
            from_le32(self.spec_bytes().subrange(8, 12)) == self.device,
            from_le32(self.spec_bytes().subrange(12, 16)) == self._pad0,
            self.spec_bytes().subrange(16, 56) == self.info.spec_bytes(),
            from_le32(self.spec_bytes().subrange(56, 60)) == self.buffer_out,
            from_le32(self.spec_bytes().subrange(60, 64)) == self._padding,
    {
        let b = self.spec_bytes();
        self.header.lemma_bytes_len();
        self.info.lemma_bytes_len();
        assert(b.subrange(0, 8) =~= self.header.spec_bytes());
        assert(b.subrange(8, 12) =~= le32(self.device));
        lemma_le32_roundtrip(self.device);
        assert(b.subrange(12, 16) =~= le32(self._pad0));
        lemma_le32_roundtrip(self._pad0);
        assert(b.subrange(16, 56) =~= self.info.spec_bytes());
        assert(b.subrange(56, 60) =~= le32(self.buffer_out));
        lemma_le32_roundtrip(self.buffer_out);
        assert(b.subrange(60, 64) =~= le32(self._padding));
        lemma_le32_roundtrip(self._padding);
    }

    /// Appends the wire bytes of this structure to `v`.
    pub fn write_to(&self, v: &mut Vec<u8>)
        ensures
            final(v)@ == old(v)@ + self.spec_bytes(),
    {
        let ghost start = v@;
        self.header.write_to(v);
        put_u32(v, self.device);
        put_u32(v, self._pad0);
        self.info.write_to(v);
        put_u32(v, self.buffer_out);
        put_u32(v, self._padding);
        assert(v@ =~= start + self.spec_bytes());
    }

    /// The wire bytes of this structure.
    pub fn to_bytes(&self) -> (b: Vec<u8>)
        ensures
            b@ == self.spec_bytes(),
            b@.len() == Self::wire_size(),
    {
        let mut v: Vec<u8> = Vec::new();
        self.write_to(&mut v);
        proof {
            assert(v@ =~= self.spec_bytes());
            self.lemma_bytes_len();
        }
        v
    }
}

impl CreateBufferResp {
    /// Number of bytes this structure occupies on the wire.
    pub open spec fn wire_size() -> nat {
        8
    }

    /// The bytes of this structure on the wire.
    pub open spec fn spec_bytes(&self) -> Seq<u8> {
        self.header.spec_bytes()
    }

    pub proof fn lemma_bytes_len(&self)
        ensures
            self.spec_bytes().len() == Self::wire_size(),
    {
        self.header.lemma_bytes_len();
    }

    /// Appends the wire bytes of this structure to `v`.
    pub fn write_to(&self, v: &mut Vec<u8>)
        ensures
            final(v)@ == old(v)@ + self.spec_bytes(),
    {
        let ghost start = v@;
        self.header.write_to(v);
        assert(v@ =~= start + self.spec_bytes());
    }

    /// The wire bytes of this structure.
    pub fn to_bytes(&self) -> (b: Vec<u8>)
        ensures
            b@ == self.spec_bytes(),
            b@.len() == Self::wire_size(),
    {
        let mut v: Vec<u8> = Vec::new();
        self.write_to(&mut v);
        proof {
            assert(v@ =~= self.spec_bytes());
            self.lemma_bytes_len();
        }
        v
    }
}

impl CreateAddressSpace {
    /// Number of bytes this structure occupies on the wire.
    pub open spec fn wire_size() -> nat {
        16
    }

    /// The bytes of this structure on the wire.
    pub open spec fn spec_bytes(&self) -> Seq<u8> {
        self.header.spec_bytes() + le32(self.device) + le32(self.address_space)
    }

    pub proof fn lemma_bytes_len(&self)
        ensures
            self.spec_bytes().len() == Self::wire_size(),
    {
        self.header.lemma_bytes_len();
    }

    /// The fixed-size fields sit at their offsets, little-endian: reading
    /// the bytes back at those offsets gives the fields.
    pub proof fn lemma_field_offsets(&self)
        ensures
            self.spec_bytes().subrange(0, 8) == self.header.spec_bytes(),
            from_le32(self.spec_bytes().subrange(8, 12)) == self.device,
            from_le32(self.spec_bytes().subrange(12, 16)) == self.address_space,
    {
        let b = self.spec_bytes();
        self.header.lemma_bytes_len();
        assert(b.subrange(0, 8) =~= self.header.spec_bytes());
        assert(b.subrange(8, 12) =~= le32(self.device));
        lemma_le32_roundtrip(self.device);
        assert(b.subrange(12, 16) =~= le32(self.address_space));
        lemma_le32_roundtrip(self.address_space);
    }

    /// Appends the wire bytes of this structure to `v`.
    pub fn write_to(&self, v: &mut Vec<u8>)
        ensures
            final(v)@ == old(v)@ + self.spec_bytes(),
    {
        let ghost start = v@;
        self.header.write_to(v);
        put_u32(v, self.device);
        put_u32(v, self.address_space);
        assert(v@ =~= start + self.spec_bytes());
    }

    /// The wire bytes of this structure.
    pub fn to_bytes(&self) -> (b: Vec<u8>)
        ensures
            b@ == self.spec_bytes(),
            b@.len() == Self::wire_size(),
    {
        let mut v: Vec<u8> = Vec::new();
        self.write_to(&mut v);
        proof {
            assert(v@ =~= self.spec_bytes());
            self.lemma_bytes_len();
        }
        v
    }
}

impl CreateAddressSpaceResp {
    /// Number of bytes this structure occupies on the wire.
    pub open spec fn wire_size() -> nat {
        8
    }

    /// The bytes of this structure on the wire.
    pub open spec fn spec_bytes(&self) -> Seq<u8> {
        self.header.spec_bytes()
    }

    pub proof fn lemma_bytes_len(&self)
        ensures
            self.spec_bytes().len() == Self::wire_size(),
    {
        self.header.lemma_bytes_len();
    }

    /// Appends the wire bytes of this structure to `v`.
    pub fn write_to(&self, v: &mut Vec<u8>)
        ensures
            final(v)@ == old(v)@ + self.spec_bytes(),
    {
        let ghost start = v@;
        self.header.write_to(v);
        assert(v@ =~= start + self.spec_bytes());
    }

    /// The wire bytes of this structure.
    pub fn to_bytes(&self) -> (b: Vec<u8>)
        ensures
            b@ == self.spec_bytes(),
            b@.len() == Self::wire_size(),
    {
        let mut v: Vec<u8> = Vec::new();
        self.write_to(&mut v);
        proof {
            assert(v@ =~= self.spec_bytes());
            self.lemma_bytes_len();
        }
        v
    }
}

impl CreateQueue {
    /// Number of bytes this structure occupies on the wire.
    pub open spec fn wire_size() -> nat {
        40
    }

    /// The bytes of this structure on the wire.
    pub open spec fn spec_bytes(&self) -> Seq<u8> {
        self.header.spec_bytes() + le32(self.device) + le32(self.address_space) + self.info.spec_bytes() + le32(self.queue) + le32(self._padding)
    }

    pub proof fn lemma_bytes_len(&self)
        ensures
            self.spec_bytes().len() == Self::wire_size(),
    {
        self.header.lemma_bytes_len();
        self.info.lemma_bytes_len();
    }

    /// The fixed-size fields sit at their offsets, little-endian: reading
    /// the bytes back at those offsets gives the fields.
    pub proof fn lemma_field_offsets(&self)
        ensures
            self.spec_bytes().subrange(0, 8) == self.header.spec_bytes(),
            from_le32(self.spec_bytes().subrange(8, 12)) == self.device,
            from_le32(self.spec_bytes().subrange(12, 16)) == self.address_space,
            self.spec_bytes().subrange(16, 32) == self.info.spec_bytes(),
            from_le32(self.spec_bytes().subrange(32, 36)) == self.queue,
            from_le32(self.spec_bytes().subrange(36, 40)) == self._padding,
    {
        let b = self.spec_bytes();
        self.header.lemma_bytes_len();
        self.info.lemma_bytes_len();
        assert(b.subrange(0, 8) =~= self.header.spec_bytes());
        assert(b.subrange(8, 12) =~= le32(self.device));
        lemma_le32_roundtrip(self.device);
        assert(b.subrange(12, 16) =~= le32(self.address_space));
        lemma_le32_roundtrip(self.address_space);
        assert(b.subrange(16, 32) =~= self.info.spec_bytes());
        assert(b.subrange(32, 36) =~= le32(self.queue));
        lemma_le32_roundtrip(self.queue);
        assert(b.subrange(36, 40) =~= le32(self._padding));
        lemma_le32_roundtrip(self._padding);
    }

    /// Appends the wire bytes of this structure to `v`.
    pub fn write_to(&self, v: &mut Vec<u8>)
        ensures
            final(v)@ == old(v)@ + self.spec_bytes(),
    {
        let ghost start = v@;
        self.header.write_to(v);
        put_u32(v, self.device);
        put_u32(v, self.address_space);
        self.info.write_to(v);
        put_u32(v, self.queue);
        put_u32(v, self._padding);
        assert(v@ =~= start + self.spec_bytes());
    }

    /// The wire bytes of this structure.
    pub fn to_bytes(&self) -> (b: Vec<u8>)
        ensures
            b@ == self.spec_bytes(),
            b@.len() == Self::wire_size(),
    {
        let mut v: Vec<u8> = Vec::new();
        self.write_to(&mut v);
        proof {
            assert(v@ =~= self.spec_bytes());
            self.lemma_bytes_len();
        }
        v
    }
}

impl CreateQueueResp {
    /// Number of bytes this structure occupies on the wire.
    pub open spec fn wire_size() -> nat {
        8
    }

    /// The bytes of this structure on the wire.
    pub open spec fn spec_bytes(&self) -> Seq<u8> {
        self.header.spec_bytes()
    }

    pub proof fn lemma_bytes_len(&self)
        ensures
            self.spec_bytes().len() == Self::wire_size(),
    {
        self.header.lemma_bytes_len();
    }

    /// Appends the wire bytes of this structure to `v`.
    pub fn write_to(&self, v: &mut Vec<u8>)
        ensures
            final(v)@ == old(v)@ + self.spec_bytes(),
    {
        let ghost start = v@;
        self.header.write_to(v);
        assert(v@ =~= start + self.spec_bytes());
    }

    /// The wire bytes of this structure.
    pub fn to_bytes(&self) -> (b: Vec<u8>)
        ensures
            b@ == self.spec_bytes(),
            b@.len() == Self::wire_size(),
    {
        let mut v: Vec<u8> = Vec::new();
        self.write_to(&mut v);
        proof {
            assert(v@ =~= self.spec_bytes());
            self.lemma_bytes_len();
        }
        v
    }
}

impl DeviceClose {
    /// Number of bytes this structure occupies on the wire.
    pub open spec fn wire_size() -> nat {
        16
    }

    /// The bytes of this structure on the wire.
    pub open spec fn spec_bytes(&self) -> Seq<u8> {
        self.header.spec_bytes() + le32(self.device) + le32(self._padding)
    }

    pub proof fn lemma_bytes_len(&self)
        ensures
            self.spec_bytes().len() == Self::wire_size(),
    {
        self.header.lemma_bytes_len();
    }

    /// The fixed-size fields sit at their offsets, little-endian: reading
    /// the bytes back at those offsets gives the fields.
    pub proof fn lemma_field_offsets(&self)
        ensures
            self.spec_bytes().subrange(0, 8) == self.header.spec_bytes(),
            from_le32(self.spec_bytes().subrange(8, 12)) == self.device,
            from_le32(self.spec_bytes().subrange(12, 16)) == self._padding,
    {
        let b = self.spec_bytes();
        self.header.lemma_bytes_len();
        assert(b.subrange(0, 8) =~= self.header.spec_bytes());
        assert(b.subrange(8, 12) =~= le32(self.device));
        lemma_le32_roundtrip(self.device);
        assert(b.subrange(12, 16) =~= le32(self._padding));
        lemma_le32_roundtrip(self._padding);
    }

    /// Appends the wire bytes of this structure to `v`.
    pub fn write_to(&self, v: &mut Vec<u8>)
        ensures
            final(v)@ == old(v)@ + self.spec_bytes(),
    {
        let ghost start = v@;
        self.header.write_to(v);
        put_u32(v, self.device);
        put_u32(v, self._padding);
        assert(v@ =~= start + self.spec_bytes());
    }

    /// The wire bytes of this structure.
    pub fn to_bytes(&self) -> (b: Vec<u8>)
        ensures
            b@ == self.spec_bytes(),
            b@.len() == Self::wire_size(),
    {
        let mut v: Vec<u8> = Vec::new();
        self.write_to(&mut v);
        proof {
            assert(v@ =~= self.spec_bytes());
            self.lemma_bytes_len();
        }
        v
    }
}

impl PhysicalDeviceClose {
    /// Number of bytes this structure occupies on the wire.
    pub open spec fn wire_size() -> nat {
        16
    }

    /// The bytes of this structure on the wire.
    pub open spec fn spec_bytes(&self) -> Seq<u8> {
        self.header.spec_bytes() + le32(self.physical_device) + le32(self._padding)
    }

    pub proof fn lemma_bytes_len(&self)
        ensures
            self.spec_bytes().len() == Self::wire_size(),
    {
        self.header.lemma_bytes_len();
    }

    /// The fixed-size fields sit at their offsets, little-endian: reading
    /// the bytes back at those offsets gives the fields.
    pub proof fn lemma_field_offsets(&self)
        ensures
            self.spec_bytes().subrange(0, 8) == self.header.spec_bytes(),
            from_le32(self.spec_bytes().subrange(8, 12)) == self.physical_device,
            from_le32(self.spec_bytes().subrange(12, 16)) == self._padding,
    {
        let b = self.spec_bytes();
        self.header.lemma_bytes_len();
        assert(b.subrange(0, 8) =~= self.header.spec_bytes());
        assert(b.subrange(8, 12) =~= le32(self.physical_device));
        lemma_le32_roundtrip(self.physical_device);
        assert(b.subrange(12, 16) =~= le32(self._padding));
        lemma_le32_roundtrip(self._padding);
    }

    /// Appends the wire bytes of this structure to `v`.
    pub fn write_to(&self, v: &mut Vec<u8>)
        ensures
            final(v)@ == old(v)@ + self.spec_bytes(),
    {
        let ghost start = v@;
        self.header.write_to(v);
        put_u32(v, self.physical_device);
        put_u32(v, self._padding);
        assert(v@ =~= start + self.spec_bytes());
    }

    /// The wire bytes of this structure.
    pub fn to_bytes(&self) -> (b: Vec<u8>)
        ensures
            b@ == self.spec_bytes(),
            b@.len() == Self::wire_size(),
    {
        let mut v: Vec<u8> = Vec::new();
        self.write_to(&mut v);
        proof {
            assert(v@ =~= self.spec_bytes());
            self.lemma_bytes_len();
        }
        v
    }
}

impl BufferClose {
    /// Number of bytes this structure occupies on the wire.
    pub open spec fn wire_size() -> nat {
        16
    }

    /// The bytes of this structure on the wire.
    pub open spec fn spec_bytes(&self) -> Seq<u8> {
        self.header.spec_bytes() + le32(self.buffer) + le32(self._padding)
    }

    pub proof fn lemma_bytes_len(&self)
        ensures
            self.spec_bytes().len() == Self::wire_size(),
    {
        self.header.lemma_bytes_len();
    }

    /// The fixed-size fields sit at their offsets, little-endian: reading
    /// the bytes back at those offsets gives the fields.
    pub proof fn lemma_field_offsets(&self)
        ensures
            self.spec_bytes().subrange(0, 8) == self.header.spec_bytes(),
            from_le32(self.spec_bytes().subrange(8, 12)) == self.buffer,
            from_le32(self.spec_bytes().subrange(12, 16)) == self._padding,
    {
        let b = self.spec_bytes();
        self.header.lemma_bytes_len();
        assert(b.subrange(0, 8) =~= self.header.spec_bytes());
        assert(b.subrange(8, 12) =~= le32(self.buffer));
        lemma_le32_roundtrip(self.buffer);
        assert(b.subrange(12, 16) =~= le32(self._padding));
        lemma_le32_roundtrip(self._padding);
    }

    /// Appends the wire bytes of this structure to `v`.
    pub fn write_to(&self, v: &mut Vec<u8>)
        ensures
            final(v)@ == old(v)@ + self.spec_bytes(),
    {
        let ghost start = v@;
        self.header.write_to(v);
        put_u32(v, self.buffer);
        put_u32(v, self._padding);
        assert(v@ =~= start + self.spec_bytes());
    }

    /// The wire bytes of this structure.
    pub fn to_bytes(&self) -> (b: Vec<u8>)
        ensures
            b@ == self.spec_bytes(),
            b@.len() == Self::wire_size(),
    {
        let mut v: Vec<u8> = Vec::new();
        self.write_to(&mut v);
        proof {
            assert(v@ =~= self.spec_bytes());
            self.lemma_bytes_len();
        }
        v
    }
}

impl QueueClose {
    /// Number of bytes this structure occupies on the wire.
    pub open spec fn wire_size() -> nat {
        16
    }

    /// The bytes of this structure on the wire.
    pub open spec fn spec_bytes(&self) -> Seq<u8> {
        self.header.spec_bytes() + le32(self.queue) + le32(self._padding)
    }

    pub proof fn lemma_bytes_len(&self)
        ensures
            self.spec_bytes().len() == Self::wire_size(),
    {
        self.header.lemma_bytes_len();
    }

    /// The fixed-size fields sit at their offsets, little-endian: reading
    /// the bytes back at those offsets gives the fields.
    pub proof fn lemma_field_offsets(&self)
        ensures
            self.spec_bytes().subrange(0, 8) == self.header.spec_bytes(),
            from_le32(self.spec_bytes().subrange(8, 12)) == self.queue,
            from_le32(self.spec_bytes().subrange(12, 16)) == self._padding,
    {
        let b = self.spec_bytes();
        self.header.lemma_bytes_len();
        assert(b.subrange(0, 8) =~= self.header.spec_bytes());
        assert(b.subrange(8, 12) =~= le32(self.queue));
        lemma_le32_roundtrip(self.queue);
        assert(b.subrange(12, 16) =~= le32(self._padding));
        lemma_le32_roundtrip(self._padding);
    }

    /// Appends the wire bytes of this structure to `v`.
    pub fn write_to(&self, v: &mut Vec<u8>)
        ensures
            final(v)@ == old(v)@ + self.spec_bytes(),
    {
        let ghost start = v@;
        self.header.write_to(v);
        put_u32(v, self.queue);
        put_u32(v, self._padding);
        assert(v@ =~= start + self.spec_bytes());
    }

    /// The wire bytes of this structure.
    pub fn to_bytes(&self) -> (b: Vec<u8>)
        ensures
            b@ == self.spec_bytes(),
            b@.len() == Self::wire_size(),
    {
        let mut v: Vec<u8> = Vec::new();
        self.write_to(&mut v);
        proof {
            assert(v@ =~= self.spec_bytes());
            self.lemma_bytes_len();
        }
        v
    }
}

impl AddressSpaceClose {
    /// Number of bytes this structure occupies on the wire.
    pub open spec fn wire_size() -> nat {
        16
    }

    /// The bytes of this structure on the wire.
    pub open spec fn spec_bytes(&self) -> Seq<u8> {
        self.header.spec_bytes() + le32(self.address_space) + le32(self._padding)
    }

    pub proof fn lemma_bytes_len(&self)
        ensures
            self.spec_bytes().len() == Self::wire_size(),
    {
        self.header.lemma_bytes_len();
    }

    /// The fixed-size fields sit at their offsets, little-endian: reading
    /// the bytes back at those offsets gives the fields.
    pub proof fn lemma_field_offsets(&self)
        ensures
            self.spec_bytes().subrange(0, 8) == self.header.spec_bytes(),
            from_le32(self.spec_bytes().subrange(8, 12)) == self.address_space,
            from_le32(self.spec_bytes().subrange(12, 16)) == self._padding,
    {
        let b = self.spec_bytes();
        self.header.lemma_bytes_len();
        assert(b.subrange(0, 8) =~= self.header.spec_bytes());
        assert(b.subrange(8, 12) =~= le32(self.address_space));
        lemma_le32_roundtrip(self.address_space);
        assert(b.subrange(12, 16) =~= le32(self._padding));
        lemma_le32_roundtrip(self._padding);
    }

    /// Appends the wire bytes of this structure to `v`.
    pub fn write_to(&self, v: &mut Vec<u8>)
        ensures
            final(v)@ == old(v)@ + self.spec_bytes(),
    {
        let ghost start = v@;
        self.header.write_to(v);
        put_u32(v, self.address_space);
        put_u32(v, self._padding);
        assert(v@ =~= start + self.spec_bytes());
    }

    /// The wire bytes of this structure.
    pub fn to_bytes(&self) -> (b: Vec<u8>)
        ensures
            b@ == self.spec_bytes(),
            b@.len() == Self::wire_size(),
    {
        let mut v: Vec<u8> = Vec::new();
        self.write_to(&mut v);
        proof {
            assert(v@ =~= self.spec_bytes());
            self.lemma_bytes_len();
        }
        v
    }
}

impl VirtioCreateRing {
    /// Number of bytes this structure occupies on the wire.
    pub open spec fn wire_size() -> nat {
        16
    }

    /// The bytes of this structure on the wire.
    pub open spec fn spec_bytes(&self) -> Seq<u8> {
        self.header.spec_bytes() + le32(self.channel_id) + le32(self.ring_blob_id)
    }

    pub proof fn lemma_bytes_len(&self)
        ensures
            self.spec_bytes().len() == Self::wire_size(),
    {
        self.header.lemma_bytes_len();
    }

    /// The fixed-size fields sit at their offsets, little-endian: reading
    /// the bytes back at those offsets gives the fields.
    pub proof fn lemma_field_offsets(&self)
        ensures
            self.spec_bytes().subrange(0, 8) == self.header.spec_bytes(),
            from_le32(self.spec_bytes().subrange(8, 12)) == self.channel_id,
            from_le32(self.spec_bytes().subrange(12, 16)) == self.ring_blob_id,
    {
        let b = self.spec_bytes();
        self.header.lemma_bytes_len();
        assert(b.subrange(0, 8) =~= self.header.spec_bytes());
        assert(b.subrange(8, 12) =~= le32(self.channel_id));
        lemma_le32_roundtrip(self.channel_id);
        assert(b.subrange(12, 16) =~= le32(self.ring_blob_id));
        lemma_le32_roundtrip(self.ring_blob_id);
    }

    /// Appends the wire bytes of this structure to `v`.
    pub fn write_to(&self, v: &mut Vec<u8>)
        ensures
            final(v)@ == old(v)@ + self.spec_bytes(),
    {
        let ghost start = v@;
        self.header.write_to(v);
        put_u32(v, self.channel_id);
        put_u32(v, self.ring_blob_id);
        assert(v@ =~= start + self.spec_bytes());
    }

    /// The wire bytes of this structure.
    pub fn to_bytes(&self) -> (b: Vec<u8>)
        ensures
            b@ == self.spec_bytes(),
            b@.len() == Self::wire_size(),
    {
        let mut v: Vec<u8> = Vec::new();
        self.write_to(&mut v);
        proof {
            assert(v@ =~= self.spec_bytes());
            self.lemma_bytes_len();
        }
        v
    }
}

impl MapBufferGpu {
    /// Number of bytes this structure occupies on the wire.
    pub open spec fn wire_size() -> nat {
        48
    }

    /// The bytes of this structure on the wire.
    pub open spec fn spec_bytes(&self) -> Seq<u8> {
        self.header.spec_bytes() + le32(self.address_space) + le32(self.buffer) + le64(self.buffer_offset) + le64(self.gpu_va) + le64(self.size) + le64(self.flags.spec_bits())
    }

    pub proof fn lemma_bytes_len(&self)
        ensures
            self.spec_bytes().len() == Self::wire_size(),
    {
        self.header.lemma_bytes_len();
    }

    /// The fixed-size fields sit at their offsets, little-endian: reading
    /// the bytes back at those offsets gives the fields.
    pub proof fn lemma_field_offsets(&self)
        ensures
            self.spec_bytes().subrange(0, 8) == self.header.spec_bytes(),
            from_le32(self.spec_bytes().subrange(8, 12)) == self.address_space,
            from_le32(self.spec_bytes().subrange(12, 16)) == self.buffer,
            from_le64(self.spec_bytes().subrange(16, 24)) == self.buffer_offset,
            from_le64(self.spec_bytes().subrange(24, 32)) == self.gpu_va,
            from_le64(self.spec_bytes().subrange(32, 40)) == self.size,
            from_le64(self.spec_bytes().subrange(40, 48)) == self.flags.spec_bits(),
    {
        let b = self.spec_bytes();
        self.header.lemma_bytes_len();
        assert(b.subrange(0, 8) =~= self.header.spec_bytes());
        assert(b.subrange(8, 12) =~= le32(self.address_space));
        lemma_le32_roundtrip(self.address_space);
        assert(b.subrange(12, 16) =~= le32(self.buffer));
        lemma_le32_roundtrip(self.buffer);
        assert(b.subrange(16, 24) =~= le64(self.buffer_offset));
        lemma_le64_roundtrip(self.buffer_offset);
        assert(b.subrange(24, 32) =~= le64(self.gpu_va));
        lemma_le64_roundtrip(self.gpu_va);
        assert(b.subrange(32, 40) =~= le64(self.size));
        lemma_le64_roundtrip(self.size);
        assert(b.subrange(40, 48) =~= le64(self.flags.spec_bits()));
        lemma_le64_roundtrip(self.flags.spec_bits());
    }

    /// Appends the wire bytes of this structure to `v`.
    pub fn write_to(&self, v: &mut Vec<u8>)
        ensures
            final(v)@ == old(v)@ + self.spec_bytes(),
    {
        let ghost start = v@;
        self.header.write_to(v);
        put_u32(v, self.address_space);
        put_u32(v, self.buffer);
        put_u64(v, self.buffer_offset);
        put_u64(v, self.gpu_va);
        put_u64(v, self.size);
        put_u64(v, self.flags.bits());
        assert(v@ =~= start + self.spec_bytes());
    }

    /// The wire bytes of this structure.
    pub fn to_bytes(&self) -> (b: Vec<u8>)
        ensures
            b@ == self.spec_bytes(),
            b@.len() == Self::wire_size(),
    {
        let mut v: Vec<u8> = Vec::new();
        self.write_to(&mut v);
        proof {
            assert(v@ =~= self.spec_bytes());
            self.lemma_bytes_len();
        }
        v
    }
}

impl MapBufferGpuResp {
    /// Number of bytes this structure occupies on the wire.
    pub open spec fn wire_size() -> nat {
        8
    }

    /// The bytes of this structure on the wire.
    pub open spec fn spec_bytes(&self) -> Seq<u8> {
        self.header.spec_bytes()
    }

    pub proof fn lemma_bytes_len(&self)
        ensures
            self.spec_bytes().len() == Self::wire_size(),
    {
        self.header.lemma_bytes_len();
    }

    /// Appends the wire bytes of this structure to `v`.
    pub fn write_to(&self, v: &mut Vec<u8>)
        ensures
            final(v)@ == old(v)@ + self.spec_bytes(),
    {
        let ghost start = v@;
        self.header.write_to(v);
        assert(v@ =~= start + self.spec_bytes());
    }

    /// The wire bytes of this structure.
    pub fn to_bytes(&self) -> (b: Vec<u8>)
        ensures
            b@ == self.spec_bytes(),
            b@.len() == Self::wire_size(),
    {
        let mut v: Vec<u8> = Vec::new();
        self.write_to(&mut v);
        proof {
            assert(v@ =~= self.spec_bytes());
            self.lemma_bytes_len();
        }
        v
    }
}

impl UnmapBufferGpu {
    /// Number of bytes this structure occupies on the wire.
    pub open spec fn wire_size() -> nat {
        32
    }

    /// The bytes of this structure on the wire.
    pub open spec fn spec_bytes(&self) -> Seq<u8> {
        self.header.spec_bytes() + le32(self.address_space) + le32(self._pad0) + le64(self.gpu_va) + le64(self.size)
    }

    pub proof fn lemma_bytes_len(&self)
        ensures
            self.spec_bytes().len() == Self::wire_size(),
    {
        self.header.lemma_bytes_len();
    }

    /// The fixed-size fields sit at their offsets, little-endian: reading
    /// the bytes back at those offsets gives the fields.
    pub proof fn lemma_field_offsets(&self)
        ensures
            self.spec_bytes().subrange(0, 8) == self.header.spec_bytes(),
            from_le32(self.spec_bytes().subrange(8, 12)) == self.address_space,
            from_le32(self.spec_bytes().subrange(12, 16)) == self._pad0,
            from_le64(self.spec_bytes().subrange(16, 24)) == self.gpu_va,
            from_le64(self.spec_bytes().subrange(24, 32)) == self.size,
    {
        let b = self.spec_bytes();
        self.header.lemma_bytes_len();
        assert(b.subrange(0, 8) =~= self.header.spec_bytes());
        assert(b.subrange(8, 12) =~= le32(self.address_space));
        lemma_le32_roundtrip(self.address_space);
        assert(b.subrange(12, 16) =~= le32(self._pad0));
        lemma_le32_roundtrip(self._pad0);
        assert(b.subrange(16, 24) =~= le64(self.gpu_va));
        lemma_le64_roundtrip(self.gpu_va);
        assert(b.subrange(24, 32) =~= le64(self.size));
        lemma_le64_roundtrip(self.size);
    }

    /// Appends the wire bytes of this structure to `v`.
    pub fn write_to(&self, v: &mut Vec<u8>)
        ensures
            final(v)@ == old(v)@ + self.spec_bytes(),
    {
        let ghost start = v@;
        self.header.write_to(v);
        put_u32(v, self.address_space);
        put_u32(v, self._pad0);
        put_u64(v, self.gpu_va);
        put_u64(v, self.size);
        assert(v@ =~= start + self.spec_bytes());
    }

    /// The wire bytes of this structure.
    pub fn to_bytes(&self) -> (b: Vec<u8>)
        ensures
            b@ == self.spec_bytes(),
            b@.len() == Self::wire_size(),
    {
        let mut v: Vec<u8> = Vec::new();
        self.write_to(&mut v);
        proof {
            assert(v@ =~= self.spec_bytes());
            self.lemma_bytes_len();
        }
        v
    }
}

impl UnmapBufferGpuResp {
    /// Number of bytes this structure occupies on the wire.
    pub open spec fn wire_size() -> nat {
        8
    }

    /// The bytes of this structure on the wire.
    pub open spec fn spec_bytes(&self) -> Seq<u8> {
        self.header.spec_bytes()
    }

    pub proof fn lemma_bytes_len(&self)
        ensures
            self.spec_bytes().len() == Self::wire_size(),
    {
        self.header.lemma_bytes_len();
    }

    /// Appends the wire bytes of this structure to `v`.
    pub fn write_to(&self, v: &mut Vec<u8>)
        ensures
            final(v)@ == old(v)@ + self.spec_bytes(),
    {
        let ghost start = v@;
        self.header.write_to(v);
        assert(v@ =~= start + self.spec_bytes());
    }

    /// The wire bytes of this structure.
    pub fn to_bytes(&self) -> (b: Vec<u8>)
        ensures
            b@ == self.spec_bytes(),
            b@.len() == Self::wire_size(),
    {
        let mut v: Vec<u8> = Vec::new();
        self.write_to(&mut v);
        proof {
            assert(v@ =~= self.spec_bytes());
            self.lemma_bytes_len();
        }
        v
    }
}

impl SubmitCommand {
    /// Number of bytes this structure occupies on the wire.
    pub open spec fn wire_size() -> nat {
        448
    }

    /// The bytes of this structure on the wire.
    pub open spec fn spec_bytes(&self) -> Seq<u8> {
        self.header.spec_bytes() + le32(self.queue) + le32(self._pad0) + self.submit_info.spec_bytes()
    }

    pub proof fn lemma_bytes_len(&self)
        ensures
            self.spec_bytes().len() == Self::wire_size(),
    {
        self.header.lemma_bytes_len();
        self.submit_info.lemma_bytes_len();
    }

    /// The fixed-size fields sit at their offsets, little-endian: reading
    /// the bytes back at those offsets gives the fields.
    pub proof fn lemma_field_offsets(&self)
        ensures
            self.spec_bytes().subrange(0, 8) == self.header.spec_bytes(),
            from_le32(self.spec_bytes().subrange(8, 12)) == self.queue,
            from_le32(self.spec_bytes().subrange(12, 16)) == self._pad0,
            self.spec_bytes().subrange(16, 448) == self.submit_info.spec_bytes(),
    {
        let b = self.spec_bytes();
        self.header.lemma_bytes_len();
        self.submit_info.lemma_bytes_len();
        assert(b.subrange(0, 8) =~= self.header.spec_bytes());
        assert(b.subrange(8, 12) =~= le32(self.queue));
        lemma_le32_roundtrip(self.queue);
        assert(b.subrange(12, 16) =~= le32(self._pad0));
        lemma_le32_roundtrip(self._pad0);
        assert(b.subrange(16, 448) =~= self.submit_info.spec_bytes());
    }

    /// Appends the wire bytes of this structure to `v`.
    pub fn write_to(&self, v: &mut Vec<u8>)
        ensures
            final(v)@ == old(v)@ + self.spec_bytes(),
    {
        let ghost start = v@;
        self.header.write_to(v);
        put_u32(v, self.queue);
        put_u32(v, self._pad0);
        self.submit_info.write_to(v);
        assert(v@ =~= start + self.spec_bytes());
    }

    /// The wire bytes of this structure.
    pub fn to_bytes(&self) -> (b: Vec<u8>)
        ensures
            b@ == self.spec_bytes(),
            b@.len() == Self::wire_size(),
    {
        let mut v: Vec<u8> = Vec::new();
        self.write_to(&mut v);
        proof {
            assert(v@ =~= self.spec_bytes());
            self.lemma_bytes_len();
        }
        v
    }
}

impl SubmitCommandResp {
    /// Number of bytes this structure occupies on the wire.
    pub open spec fn wire_size() -> nat {
        8
    }

    /// The bytes of this structure on the wire.
    pub open spec fn spec_bytes(&self) -> Seq<u8> {
        self.header.spec_bytes()
    }

    pub proof fn lemma_bytes_len(&self)
        ensures
            self.spec_bytes().len() == Self::wire_size(),
    {
        self.header.lemma_bytes_len();
    }

    /// Appends the wire bytes of this structure to `v`.
    pub fn write_to(&self, v: &mut Vec<u8>)
        ensures
            final(v)@ == old(v)@ + self.spec_bytes(),
    {
        let ghost start = v@;
        self.header.write_to(v);
        assert(v@ =~= start + self.spec_bytes());
    }

    /// The wire bytes of this structure.
    pub fn to_bytes(&self) -> (b: Vec<u8>)
        ensures
            b@ == self.spec_bytes(),
            b@.len() == Self::wire_size(),
    {
        let mut v: Vec<u8> = Vec::new();
        self.write_to(&mut v);
        proof {
            assert(v@ =~= self.spec_bytes());
            self.lemma_bytes_len();
        }
        v
    }
}

impl CreateSyncObj {
    /// Number of bytes this structure occupies on the wire.
    pub open spec fn wire_size() -> nat {
        56
    }

    /// The bytes of this structure on the wire.
    pub open spec fn spec_bytes(&self) -> Seq<u8> {
        self.header.spec_bytes() + le32(self.device) + le32(self._pad0) + self.info.spec_bytes() + le32(self.sync_obj) + le32(self._padding)
    }

    pub proof fn lemma_bytes_len(&self)
        ensures
            self.spec_bytes().len() == Self::wire_size(),
    {
        self.header.lemma_bytes_len();
        self.info.lemma_bytes_len();
    }

    /// The fixed-size fields sit at their offsets, little-endian: reading
    /// the bytes back at those offsets gives the fields.
    pub proof fn lemma_field_offsets(&self)
        ensures
            self.spec_bytes().subrange(0, 8) == self.header.spec_bytes(),
            from_le32(self.spec_bytes().subrange(8, 12)) == self.device,
            from_le32(self.spec_bytes().subrange(12, 16)) == self._pad0,
            self.spec_bytes().subrange(16, 48) == self.info.spec_bytes(),
            from_le32(self.spec_bytes().subrange(48, 52)) == self.sync_obj,
            from_le32(self.spec_bytes().subrange(52, 56)) == self._padding,
    {
        let b = self.spec_bytes();
        self.header.lemma_bytes_len();
        self.info.lemma_bytes_len();
        assert(b.subrange(0, 8) =~= self.header.spec_bytes());
        assert(b.subrange(8, 12) =~= le32(self.device));
        lemma_le32_roundtrip(self.device);
        assert(b.subrange(12, 16) =~= le32(self._pad0));
        lemma_le32_roundtrip(self._pad0);
        assert(b.subrange(16, 48) =~= self.info.spec_bytes());
        assert(b.subrange(48, 52) =~= le32(self.sync_obj));
        lemma_le32_roundtrip(self.sync_obj);
        assert(b.subrange(52, 56) =~= le32(self._padding));
        lemma_le32_roundtrip(self._padding);
    }

    /// Appends the wire bytes of this structure to `v`.
    pub fn write_to(&self, v: &mut Vec<u8>)
        ensures
            final(v)@ == old(v)@ + self.spec_bytes(),
    {
        let ghost start = v@;
        self.header.write_to(v);
        put_u32(v, self.device);
        put_u32(v, self._pad0);
        self.info.write_to(v);
        put_u32(v, self.sync_obj);
        put_u32(v, self._padding);
        assert(v@ =~= start + self.spec_bytes());
    }

    /// The wire bytes of this structure.
    pub fn to_bytes(&self) -> (b: Vec<u8>)
        ensures
            b@ == self.spec_bytes(),
            b@.len() == Self::wire_size(),
    {
        let mut v: Vec<u8> = Vec::new();
        self.write_to(&mut v);
        proof {
            assert(v@ =~= self.spec_bytes());
            self.lemma_bytes_len();
        }
        v
    }
}

impl CreateSyncObjResp {
    /// Number of bytes this structure occupies on the wire.
    pub open spec fn wire_size() -> nat {
        8
    }

    /// The bytes of this structure on the wire.
    pub open spec fn spec_bytes(&self) -> Seq<u8> {
        self.header.spec_bytes()
    }

    pub proof fn lemma_bytes_len(&self)
        ensures
            self.spec_bytes().len() == Self::wire_size(),
    {
        self.header.lemma_bytes_len();
    }

    /// Appends the wire bytes of this structure to `v`.
    pub fn write_to(&self, v: &mut Vec<u8>)
        ensures
            final(v)@ == old(v)@ + self.spec_bytes(),
    {
        let ghost start = v@;
        self.header.write_to(v);
        assert(v@ =~= start + self.spec_bytes());
    }

    /// The wire bytes of this structure.
    pub fn to_bytes(&self) -> (b: Vec<u8>)
        ensures
            b@ == self.spec_bytes(),
            b@.len() == Self::wire_size(),
    {
        let mut v: Vec<u8> = Vec::new();
        self.write_to(&mut v);
        proof {
            assert(v@ =~= self.spec_bytes());
            self.lemma_bytes_len();
        }
        v
    }
}

impl SyncObjClose {
    /// Number of bytes this structure occupies on the wire.
    pub open spec fn wire_size() -> nat {
        16
    }

    /// The bytes of this structure on the wire.
    pub open spec fn spec_bytes(&self) -> Seq<u8> {
        self.header.spec_bytes() + le32(self.sync_obj) + le32(self._padding)
    }

    pub proof fn lemma_bytes_len(&self)
        ensures
            self.spec_bytes().len() == Self::wire_size(),
    {
        self.header.lemma_bytes_len();
    }

    /// The fixed-size fields sit at their offsets, little-endian: reading
    /// the bytes back at those offsets gives the fields.
    pub proof fn lemma_field_offsets(&self)
        ensures
            self.spec_bytes().subrange(0, 8) == self.header.spec_bytes(),
            from_le32(self.spec_bytes().subrange(8, 12)) == self.sync_obj,
            from_le32(self.spec_bytes().subrange(12, 16)) == self._padding,
    {
        let b = self.spec_bytes();
        self.header.lemma_bytes_len();
        assert(b.subrange(0, 8) =~= self.header.spec_bytes());
        assert(b.subrange(8, 12) =~= le32(self.sync_obj));
        lemma_le32_roundtrip(self.sync_obj);
        assert(b.subrange(12, 16) =~= le32(self._padding));
        lemma_le32_roundtrip(self._padding);
    }

    /// Appends the wire bytes of this structure to `v`.
    pub fn write_to(&self, v: &mut Vec<u8>)
        ensures
            final(v)@ == old(v)@ + self.spec_bytes(),
    {
        let ghost start = v@;
        self.header.write_to(v);
        put_u32(v, self.sync_obj);
        put_u32(v, self._padding);
        assert(v@ =~= start + self.spec_bytes());
    }

    /// The wire bytes of this structure.
    pub fn to_bytes(&self) -> (b: Vec<u8>)
        ensures
            b@ == self.spec_bytes(),
            b@.len() == Self::wire_size(),
    {
        let mut v: Vec<u8> = Vec::new();
        self.write_to(&mut v);
        proof {
            assert(v@ =~= self.spec_bytes());
            self.lemma_bytes_len();
        }
        v
    }
}

impl SyncObjSignal {
    /// Number of bytes this structure occupies on the wire.
    pub open spec fn wire_size() -> nat {
        16
    }

    /// The bytes of this structure on the wire.
    pub open spec fn spec_bytes(&self) -> Seq<u8> {
        self.header.spec_bytes() + le32(self.sync_obj) + le32(self._padding)
    }

    pub proof fn lemma_bytes_len(&self)
        ensures
            self.spec_bytes().len() == Self::wire_size(),
    {
        self.header.lemma_bytes_len();
    }

    /// The fixed-size fields sit at their offsets, little-endian: reading
    /// the bytes back at those offsets gives the fields.
    pub proof fn lemma_field_offsets(&self)
        ensures
            self.spec_bytes().subrange(0, 8) == self.header.spec_bytes(),
            from_le32(self.spec_bytes().subrange(8, 12)) == self.sync_obj,
            from_le32(self.spec_bytes().subrange(12, 16)) == self._padding,
    {
        let b = self.spec_bytes();
        self.header.lemma_bytes_len();
        assert(b.subrange(0, 8) =~= self.header.spec_bytes());
        assert(b.subrange(8, 12) =~= le32(self.sync_obj));
        lemma_le32_roundtrip(self.sync_obj);
        assert(b.subrange(12, 16) =~= le32(self._padding));
        lemma_le32_roundtrip(self._padding);
    }

    /// Appends the wire bytes of this structure to `v`.
    pub fn write_to(&self, v: &mut Vec<u8>)
        ensures
            final(v)@ == old(v)@ + self.spec_bytes(),
    {
        let ghost start = v@;
        self.header.write_to(v);
        put_u32(v, self.sync_obj);
        put_u32(v, self._padding);
        assert(v@ =~= start + self.spec_bytes());
    }

    /// The wire bytes of this structure.
    pub fn to_bytes(&self) -> (b: Vec<u8>)
        ensures
            b@ == self.spec_bytes(),
            b@.len() == Self::wire_size(),
    {
        let mut v: Vec<u8> = Vec::new();
        self.write_to(&mut v);
        proof {
            assert(v@ =~= self.spec_bytes());
            self.lemma_bytes_len();
        }
        v
    }
}

impl SyncObjSignalResp {
    /// Number of bytes this structure occupies on the wire.
    pub open spec fn wire_size() -> nat {
        8
    }

    /// The bytes of this structure on the wire.
    pub open spec fn spec_bytes(&self) -> Seq<u8> {
        self.header.spec_bytes()
    }

    pub proof fn lemma_bytes_len(&self)
        ensures
            self.spec_bytes().len() == Self::wire_size(),
    {
        self.header.lemma_bytes_len();
    }

    /// Appends the wire bytes of this structure to `v`.
    pub fn write_to(&self, v: &mut Vec<u8>)
        ensures
            final(v)@ == old(v)@ + self.spec_bytes(),
    {
        let ghost start = v@;
        self.header.write_to(v);
        assert(v@ =~= start + self.spec_bytes());
    }

    /// The wire bytes of this structure.
    pub fn to_bytes(&self) -> (b: Vec<u8>)
        ensures
            b@ == self.spec_bytes(),
            b@.len() == Self::wire_size(),
    {
        let mut v: Vec<u8> = Vec::new();
        self.write_to(&mut v);
        proof {
            assert(v@ =~= self.spec_bytes());
            self.lemma_bytes_len();
        }
        v
    }
}

impl SyncObjTimelineWait {
    /// Number of bytes this structure occupies on the wire.
    pub open spec fn wire_size() -> nat {
        40
    }

    /// The bytes of this structure on the wire.
    pub open spec fn spec_bytes(&self) -> Seq<u8> {
        self.header.spec_bytes() + le32(self.sync_obj) + le32(self._pad0) + le64(self.point) + le64(self.timeout_ns) + le32(self.flags) + le32(self._padding)
    }

    pub proof fn lemma_bytes_len(&self)
        ensures
            self.spec_bytes().len() == Self::wire_size(),
    {
        self.header.lemma_bytes_len();
    }

    /// The fixed-size fields sit at their offsets, little-endian: reading
    /// the bytes back at those offsets gives the fields.
    pub proof fn lemma_field_offsets(&self)
        ensures
            self.spec_bytes().subrange(0, 8) == self.header.spec_bytes(),
            from_le32(self.spec_bytes().subrange(8, 12)) == self.sync_obj,
            from_le32(self.spec_bytes().subrange(12, 16)) == self._pad0,
            from_le64(self.spec_bytes().subrange(16, 24)) == self.point,
            from_le64(self.spec_bytes().subrange(24, 32)) == self.timeout_ns,
            from_le32(self.spec_bytes().subrange(32, 36)) == self.flags,
            from_le32(self.spec_bytes().subrange(36, 40)) == self._padding,
    {
        let b = self.spec_bytes();
        self.header.lemma_bytes_len();
        assert(b.subrange(0, 8) =~= self.header.spec_bytes());
        assert(b.subrange(8, 12) =~= le32(self.sync_obj));
        lemma_le32_roundtrip(self.sync_obj);
        assert(b.subrange(12, 16) =~= le32(self._pad0));
        lemma_le32_roundtrip(self._pad0);
        assert(b.subrange(16, 24) =~= le64(self.point));
        lemma_le64_roundtrip(self.point);
        assert(b.subrange(24, 32) =~= le64(self.timeout_ns));
        lemma_le64_roundtrip(self.timeout_ns);
        assert(b.subrange(32, 36) =~= le32(self.flags));
        lemma_le32_roundtrip(self.flags);
        assert(b.subrange(36, 40) =~= le32(self._padding));
        lemma_le32_roundtrip(self._padding);
    }

    /// Appends the wire bytes of this structure to `v`.
    pub fn write_to(&self, v: &mut Vec<u8>)
        ensures
            final(v)@ == old(v)@ + self.spec_bytes(),
    {
        let ghost start = v@;
        self.header.write_to(v);
        put_u32(v, self.sync_obj);
        put_u32(v, self._pad0);
        put_u64(v, self.point);
        put_u64(v, self.timeout_ns);
        put_u32(v, self.flags);
        put_u32(v, self._padding);
        assert(v@ =~= start + self.spec_bytes());
    }

    /// The wire bytes of this structure.
    pub fn to_bytes(&self) -> (b: Vec<u8>)
        ensures
            b@ == self.spec_bytes(),
            b@.len() == Self::wire_size(),
    {
        let mut v: Vec<u8> = Vec::new();
        self.write_to(&mut v);
        proof {
            assert(v@ =~= self.spec_bytes());
            self.lemma_bytes_len();
        }
        v
    }
}

impl SyncObjTimelineWaitResp {
    /// Number of bytes this structure occupies on the wire.
    pub open spec fn wire_size() -> nat {
        8
    }

    /// The bytes of this structure on the wire.
    pub open spec fn spec_bytes(&self) -> Seq<u8> {
        self.header.spec_bytes()
    }

    pub proof fn lemma_bytes_len(&self)
        ensures
            self.spec_bytes().len() == Self::wire_size(),
    {
        self.header.lemma_bytes_len();
    }

    /// Appends the wire bytes of this structure to `v`.
    pub fn write_to(&self, v: &mut Vec<u8>)
        ensures
            final(v)@ == old(v)@ + self.spec_bytes(),
    {
        let ghost start = v@;
        self.header.write_to(v);
        assert(v@ =~= start + self.spec_bytes());
    }

    /// The wire bytes of this structure.
    pub fn to_bytes(&self) -> (b: Vec<u8>)
        ensures
            b@ == self.spec_bytes(),
            b@.len() == Self::wire_size(),
    {
        let mut v: Vec<u8> = Vec::new();
        self.write_to(&mut v);
        proof {
            assert(v@ =~= self.spec_bytes());
            self.lemma_bytes_len();
        }
        v
    }
}

impl SyncObjTimelineSignal {
    /// Number of bytes this structure occupies on the wire.
    pub open spec fn wire_size() -> nat {
        24
    }

    /// The bytes of this structure on the wire.
    pub open spec fn spec_bytes(&self) -> Seq<u8> {
        self.header.spec_bytes() + le32(self.sync_obj) + le32(self._pad0) + le64(self.point)
    }

    pub proof fn lemma_bytes_len(&self)
        ensures
            self.spec_bytes().len() == Self::wire_size(),
    {
        self.header.lemma_bytes_len();
    }

    /// The fixed-size fields sit at their offsets, little-endian: reading
    /// the bytes back at those offsets gives the fields.
    pub proof fn lemma_field_offsets(&self)
        ensures
            self.spec_bytes().subrange(0, 8) == self.header.spec_bytes(),
            from_le32(self.spec_bytes().subrange(8, 12)) == self.sync_obj,
            from_le32(self.spec_bytes().subrange(12, 16)) == self._pad0,
            from_le64(self.spec_bytes().subrange(16, 24)) == self.point,
    {
        let b = self.spec_bytes();
        self.header.lemma_bytes_len();
        assert(b.subrange(0, 8) =~= self.header.spec_bytes());
        assert(b.subrange(8, 12) =~= le32(self.sync_obj));
        lemma_le32_roundtrip(self.sync_obj);
        assert(b.subrange(12, 16) =~= le32(self._pad0));
        lemma_le32_roundtrip(self._pad0);
        assert(b.subrange(16, 24) =~= le64(self.point));
        lemma_le64_roundtrip(self.point);
    }

    /// Appends the wire bytes of this structure to `v`.
    pub fn write_to(&self, v: &mut Vec<u8>)
        ensures
            final(v)@ == old(v)@ + self.spec_bytes(),
    {
        let ghost start = v@;
        self.header.write_to(v);
        put_u32(v, self.sync_obj);
        put_u32(v, self._pad0);
        put_u64(v, self.point);
        assert(v@ =~= start + self.spec_bytes());
    }

    /// The wire bytes of this structure.
    pub fn to_bytes(&self) -> (b: Vec<u8>)
        ensures
            b@ == self.spec_bytes(),
            b@.len() == Self::wire_size(),
    {
        let mut v: Vec<u8> = Vec::new();
        self.write_to(&mut v);
        proof {
            assert(v@ =~= self.spec_bytes());
            self.lemma_bytes_len();
        }
        v
    }
}

impl SyncObjTimelineSignalResp {
    /// Number of bytes this structure occupies on the wire.
    pub open spec fn wire_size() -> nat {
        8
    }

    /// The bytes of this structure on the wire.
    pub open spec fn spec_bytes(&self) -> Seq<u8> {
        self.header.spec_bytes()
    }

    pub proof fn lemma_bytes_len(&self)
        ensures
            self.spec_bytes().len() == Self::wire_size(),
    {
        self.header.lemma_bytes_len();
    }

    /// Appends the wire bytes of this structure to `v`.
    pub fn write_to(&self, v: &mut Vec<u8>)
        ensures
            final(v)@ == old(v)@ + self.spec_bytes(),
    {
        let ghost start = v@;
        self.header.write_to(v);
        assert(v@ =~= start + self.spec_bytes());
    }

    /// The wire bytes of this structure.
    pub fn to_bytes(&self) -> (b: Vec<u8>)
        ensures
            b@ == self.spec_bytes(),
            b@.len() == Self::wire_size(),
    {
        let mut v: Vec<u8> = Vec::new();
        self.write_to(&mut v);
        proof {
            assert(v@ =~= self.spec_bytes());
            self.lemma_bytes_len();
        }
        v
    }
}

impl SyncObjTimelineQuery {
    /// Number of bytes this structure occupies on the wire.
    pub open spec fn wire_size() -> nat {
        16
    }

    /// The bytes of this structure on the wire.
    pub open spec fn spec_bytes(&self) -> Seq<u8> {
        self.header.spec_bytes() + le32(self.sync_obj) + le32(self._padding)
    }

    pub proof fn lemma_bytes_len(&self)
        ensures
            self.spec_bytes().len() == Self::wire_size(),
    {
        self.header.lemma_bytes_len();
    }

    /// The fixed-size fields sit at their offsets, little-endian: reading
    /// the bytes back at those offsets gives the fields.
    pub proof fn lemma_field_offsets(&self)
        ensures
            self.spec_bytes().subrange(0, 8) == self.header.spec_bytes(),
            from_le32(self.spec_bytes().subrange(8, 12)) == self.sync_obj,
            from_le32(self.spec_bytes().subrange(12, 16)) == self._padding,
    {
        let b = self.spec_bytes();
        self.header.lemma_bytes_len();
        assert(b.subrange(0, 8) =~= self.header.spec_bytes());
        assert(b.subrange(8, 12) =~= le32(self.sync_obj));
        lemma_le32_roundtrip(self.sync_obj);
        assert(b.subrange(12, 16) =~= le32(self._padding));
        lemma_le32_roundtrip(self._padding);
    }

    /// Appends the wire bytes of this structure to `v`.
    pub fn write_to(&self, v: &mut Vec<u8>)
        ensures
            final(v)@ == old(v)@ + self.spec_bytes(),
    {
        let ghost start = v@;
        self.header.write_to(v);
        put_u32(v, self.sync_obj);
        put_u32(v, self._padding);
        assert(v@ =~= start + self.spec_bytes());
    }

    /// The wire bytes of this structure.
    pub fn to_bytes(&self) -> (b: Vec<u8>)
        ensures
            b@ == self.spec_bytes(),
            b@.len() == Self::wire_size(),
    {
        let mut v: Vec<u8> = Vec::new();
        self.write_to(&mut v);
        proof {
            assert(v@ =~= self.spec_bytes());
            self.lemma_bytes_len();
        }
        v
    }
}

impl SyncObjTimelineQueryResp {
    /// Number of bytes this structure occupies on the wire.
    pub open spec fn wire_size() -> nat {
        16
    }

    /// The bytes of this structure on the wire.
    pub open spec fn spec_bytes(&self) -> Seq<u8> {
        self.header.spec_bytes() + le64(self.point_out)
    }

    pub proof fn lemma_bytes_len(&self)
        ensures
            self.spec_bytes().len() == Self::wire_size(),
    {
        self.header.lemma_bytes_len();
    }

    /// The fixed-size fields sit at their offsets, little-endian: reading
    /// the bytes back at those offsets gives the fields.
    pub proof fn lemma_field_offsets(&self)
        ensures
            self.spec_bytes().subrange(0, 8) == self.header.spec_bytes(),
            from_le64(self.spec_bytes().subrange(8, 16)) == self.point_out,
    {
        let b = self.spec_bytes();
        self.header.lemma_bytes_len();
        assert(b.subrange(0, 8) =~= self.header.spec_bytes());
        assert(b.subrange(8, 16) =~= le64(self.point_out));
        lemma_le64_roundtrip(self.point_out);
    }

    /// Appends the wire bytes of this structure to `v`.
    pub fn write_to(&self, v: &mut Vec<u8>)
        ensures
            final(v)@ == old(v)@ + self.spec_bytes(),
    {
        let ghost start = v@;
        self.header.write_to(v);
        put_u64(v, self.point_out);
        assert(v@ =~= start + self.spec_bytes());
    }

    /// The wire bytes of this structure.
    pub fn to_bytes(&self) -> (b: Vec<u8>)
        ensures
            b@ == self.spec_bytes(),
            b@.len() == Self::wire_size(),
    {
        let mut v: Vec<u8> = Vec::new();
        self.write_to(&mut v);
        proof {
            assert(v@ =~= self.spec_bytes());
            self.lemma_bytes_len();
        }
        v
    }
}

impl QueueCheckStatus {
    /// Number of bytes this structure occupies on the wire.
    pub open spec fn wire_size() -> nat {
        16
    }

    /// The bytes of this structure on the wire.
    pub open spec fn spec_bytes(&self) -> Seq<u8> {
        self.header.spec_bytes() + le32(self.queue) + le32(self._padding)
    }

    pub proof fn lemma_bytes_len(&self)
        ensures
            self.spec_bytes().len() == Self::wire_size(),
    {
        self.header.lemma_bytes_len();
    }

    /// The fixed-size fields sit at their offsets, little-endian: reading
    /// the bytes back at those offsets gives the fields.
    pub proof fn lemma_field_offsets(&self)
        ensures
            self.spec_bytes().subrange(0, 8) == self.header.spec_bytes(),
            from_le32(self.spec_bytes().subrange(8, 12)) == self.queue,
            from_le32(self.spec_bytes().subrange(12, 16)) == self._padding,
    {
        let b = self.spec_bytes();
        self.header.lemma_bytes_len();
        assert(b.subrange(0, 8) =~= self.header.spec_bytes());
        assert(b.subrange(8, 12) =~= le32(self.queue));
        lemma_le32_roundtrip(self.queue);
        assert(b.subrange(12, 16) =~= le32(self._padding));
        lemma_le32_roundtrip(self._padding);
    }

    /// Appends the wire bytes of this structure to `v`.
    pub fn write_to(&self, v: &mut Vec<u8>)
        ensures
            final(v)@ == old(v)@ + self.spec_bytes(),
    {
        let ghost start = v@;
        self.header.write_to(v);
        put_u32(v, self.queue);
        put_u32(v, self._padding);
        assert(v@ =~= start + self.spec_bytes());
    }

    /// The wire bytes of this structure.
    pub fn to_bytes(&self) -> (b: Vec<u8>)
        ensures
            b@ == self.spec_bytes(),
            b@.len() == Self::wire_size(),
    {
        let mut v: Vec<u8> = Vec::new();
        self.write_to(&mut v);
        proof {
            assert(v@ =~= self.spec_bytes());
            self.lemma_bytes_len();
        }
        v
    }
}

impl QueueCheckStatusResp {
    /// Number of bytes this structure occupies on the wire.
    pub open spec fn wire_size() -> nat {
        8
    }

    /// The bytes of this structure on the wire.
    pub open spec fn spec_bytes(&self) -> Seq<u8> {
        self.header.spec_bytes()
    }

    pub proof fn lemma_bytes_len(&self)
        ensures
            self.spec_bytes().len() == Self::wire_size(),
    {
        self.header.lemma_bytes_len();
    }

    /// Appends the wire bytes of this structure to `v`.
    pub fn write_to(&self, v: &mut Vec<u8>)
        ensures
            final(v)@ == old(v)@ + self.spec_bytes(),
    {
        let ghost start = v@;
        self.header.write_to(v);
        assert(v@ =~= start + self.spec_bytes());
    }

    /// The wire bytes of this structure.
    pub fn to_bytes(&self) -> (b: Vec<u8>)
        ensures
            b@ == self.spec_bytes(),
            b@.len() == Self::wire_size(),
    {
        let mut v: Vec<u8> = Vec::new();
        self.write_to(&mut v);
        proof {
            assert(v@ =~= self.spec_bytes());
            self.lemma_bytes_len();
        }
        v
    }
}

impl VirtioPing {
    /// Number of bytes this structure occupies on the wire.
    pub open spec fn wire_size() -> nat {
        16
    }

    /// The bytes of this structure on the wire.
    pub open spec fn spec_bytes(&self) -> Seq<u8> {
        self.header.spec_bytes() + le32(self.channel_id) + le32(self._padding)
    }

    pub proof fn lemma_bytes_len(&self)
        ensures
            self.spec_bytes().len() == Self::wire_size(),
    {
        self.header.lemma_bytes_len();
    }

    /// The fixed-size fields sit at their offsets, little-endian: reading
    /// the bytes back at those offsets gives the fields.
    pub proof fn lemma_field_offsets(&self)
        ensures
            self.spec_bytes().subrange(0, 8) == self.header.spec_bytes(),
            from_le32(self.spec_bytes().subrange(8, 12)) == self.channel_id,
            from_le32(self.spec_bytes().subrange(12, 16)) == self._padding,
    {
        let b = self.spec_bytes();
        self.header.lemma_bytes_len();
        assert(b.subrange(0, 8) =~= self.header.spec_bytes());
        assert(b.subrange(8, 12) =~= le32(self.channel_id));
        lemma_le32_roundtrip(self.channel_id);
        assert(b.subrange(12, 16) =~= le32(self._padding));
        lemma_le32_roundtrip(self._padding);
    }

    /// Appends the wire bytes of this structure to `v`.
    pub fn write_to(&self, v: &mut Vec<u8>)
        ensures
            final(v)@ == old(v)@ + self.spec_bytes(),
    {
        let ghost start = v@;
        self.header.write_to(v);
        put_u32(v, self.channel_id);
        put_u32(v, self._padding);
        assert(v@ =~= start + self.spec_bytes());
    }

    /// The wire bytes of this structure.
    pub fn to_bytes(&self) -> (b: Vec<u8>)
        ensures
            b@ == self.spec_bytes(),
            b@.len() == Self::wire_size(),
    {
        let mut v: Vec<u8> = Vec::new();
        self.write_to(&mut v);
        proof {
            assert(v@ =~= self.spec_bytes());
            self.lemma_bytes_len();
        }
        v
    }
}

impl VirtioCreateFence {
    /// Number of bytes this structure occupies on the wire.
    pub open spec fn wire_size() -> nat {
        16
    }

    /// The bytes of this structure on the wire.
    pub open spec fn spec_bytes(&self) -> Seq<u8> {
        self.header.spec_bytes() + le32(self.ring_idx) + le32(self.guest_sync_id)
    }

    pub proof fn lemma_bytes_len(&self)
        ensures
            self.spec_bytes().len() == Self::wire_size(),
    {
        self.header.lemma_bytes_len();
    }

    /// The fixed-size fields sit at their offsets, little-endian: reading
    /// the bytes back at those offsets gives the fields.
    pub proof fn lemma_field_offsets(&self)
        ensures
            self.spec_bytes().subrange(0, 8) == self.header.spec_bytes(),
            from_le32(self.spec_bytes().subrange(8, 12)) == self.ring_idx,
            from_le32(self.spec_bytes().subrange(12, 16)) == self.guest_sync_id,
    {
        let b = self.spec_bytes();
        self.header.lemma_bytes_len();
        assert(b.subrange(0, 8) =~= self.header.spec_bytes());
        assert(b.subrange(8, 12) =~= le32(self.ring_idx));
        lemma_le32_roundtrip(self.ring_idx);
        assert(b.subrange(12, 16) =~= le32(self.guest_sync_id));
        lemma_le32_roundtrip(self.guest_sync_id);
    }

    /// Appends the wire bytes of this structure to `v`.
    pub fn write_to(&self, v: &mut Vec<u8>)
        ensures
            final(v)@ == old(v)@ + self.spec_bytes(),
    {
        let ghost start = v@;
        self.header.write_to(v);
        put_u32(v, self.ring_idx);
        put_u32(v, self.guest_sync_id);
        assert(v@ =~= start + self.spec_bytes());
    }

    /// The wire bytes of this structure.
    pub fn to_bytes(&self) -> (b: Vec<u8>)
        ensures
            b@ == self.spec_bytes(),
            b@.len() == Self::wire_size(),
    {
        let mut v: Vec<u8> = Vec::new();
        self.write_to(&mut v);
        proof {
            assert(v@ =~= self.spec_bytes());
            self.lemma_bytes_len();
        }
        v
    }
}

impl VirtioSyncObjClose {
    /// Number of bytes this structure occupies on the wire.
    pub open spec fn wire_size() -> nat {
        24
    }

    /// The bytes of this structure on the wire.
    pub open spec fn spec_bytes(&self) -> Seq<u8> {
        self.header.spec_bytes() + le32(self.sync_obj) + le32(self.ring_idx) + le32(self.wait_seqno) + le32(self._padding)
    }

    pub proof fn lemma_bytes_len(&self)
        ensures
            self.spec_bytes().len() == Self::wire_size(),
    {
        self.header.lemma_bytes_len();
    }

    /// The fixed-size fields sit at their offsets, little-endian: reading
    /// the bytes back at those offsets gives the fields.
    pub proof fn lemma_field_offsets(&self)
        ensures
            self.spec_bytes().subrange(0, 8) == self.header.spec_bytes(),
            from_le32(self.spec_bytes().subrange(8, 12)) == self.sync_obj,
            from_le32(self.spec_bytes().subrange(12, 16)) == self.ring_idx,
            from_le32(self.spec_bytes().subrange(16, 20)) == self.wait_seqno,
            from_le32(self.spec_bytes().subrange(20, 24)) == self._padding,
    {
        let b = self.spec_bytes();
        self.header.lemma_bytes_len();
        assert(b.subrange(0, 8) =~= self.header.spec_bytes());
        assert(b.subrange(8, 12) =~= le32(self.sync_obj));
        lemma_le32_roundtrip(self.sync_obj);
        assert(b.subrange(12, 16) =~= le32(self.ring_idx));
        lemma_le32_roundtrip(self.ring_idx);
        assert(b.subrange(16, 20) =~= le32(self.wait_seqno));
        lemma_le32_roundtrip(self.wait_seqno);
        assert(b.subrange(20, 24) =~= le32(self._padding));
        lemma_le32_roundtrip(self._padding);
    }

    /// Appends the wire bytes of this structure to `v`.
    pub fn write_to(&self, v: &mut Vec<u8>)
        ensures
            final(v)@ == old(v)@ + self.spec_bytes(),
    {
        let ghost start = v@;
        self.header.write_to(v);
        put_u32(v, self.sync_obj);
        put_u32(v, self.ring_idx);
        put_u32(v, self.wait_seqno);
        put_u32(v, self._padding);
        assert(v@ =~= start + self.spec_bytes());
    }

    /// The wire bytes of this structure.
    pub fn to_bytes(&self) -> (b: Vec<u8>)
        ensures
            b@ == self.spec_bytes(),
            b@.len() == Self::wire_size(),
    {
        let mut v: Vec<u8> = Vec::new();
        self.write_to(&mut v);
        proof {
            assert(v@ =~= self.spec_bytes());
            self.lemma_bytes_len();
        }
        v
    }
}

} // verus!
