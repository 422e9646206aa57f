//! The first version of the wire protocol: a handful of device, memory,
//! buffer and context commands, each laid out field after field, integers
//! little-endian, and an encoder that writes whole commands into a fixed
//! buffer.
use vstd::prelude::*;

use crate::encoder::EncodeError;
use crate::protocol::MagmaCommandHeader;
use crate::protocol::MagmaHeap;
use crate::protocol::MagmaHeapBudget;
use crate::protocol::MagmaMemoryType;
use crate::wire::from_le32;
use crate::wire::from_le64;
use crate::wire::lemma_le32_roundtrip;
use crate::wire::lemma_le64_roundtrip;
use crate::wire::le32;
use crate::wire::le64;
use crate::wire::put_u32;
use crate::wire::put_u64;

verus! {

pub const MAGMA_OPCODE_CREATE_DEVICE: u32 = 2;
pub const MAGMA_OPCODE_GET_MEMORY_PROPERTIES: u32 = 3;
pub const MAGMA_OPCODE_GET_MEMORY_BUDGET: u32 = 4;
pub const MAGMA_OPCODE_CREATE_BUFFER: u32 = 5;
pub const MAGMA_OPCODE_CREATE_CONTEXT: u32 = 6;
pub const MAGMA_OPCODE_DEVICE_CLOSE: u32 = 7;
pub const MAGMA_OPCODE_PHYSICAL_DEVICE_CLOSE: u32 = 8;

pub const MAGMA_OPCODE_RESP_CREATE_DEVICE: u32 = 0x8000_0002;
pub const MAGMA_OPCODE_RESP_GET_MEMORY_PROPERTIES: u32 = 0x8000_0003;
pub const MAGMA_OPCODE_RESP_GET_MEMORY_BUDGET: u32 = 0x8000_0004;
pub const MAGMA_OPCODE_RESP_CREATE_BUFFER: u32 = 0x8000_0005;
pub const MAGMA_OPCODE_RESP_CREATE_CONTEXT: u32 = 0x8000_0006;

pub const MAGMA_MAX_PHYSICAL_DEVICES: u32 = 8;
pub const MAGMA_MAX_MEMORY_HEAPS: usize = 32;
pub const MAGMA_MAX_MEMORY_TYPES: usize = 16;

pub const MAGMA_MEMORY_PROPERTY_DEVICE_LOCAL_BIT: u32 = 0x00000001;
pub const MAGMA_MEMORY_PROPERTY_HOST_VISIBLE_BIT: u32 = 0x00000002;
pub const MAGMA_MEMORY_PROPERTY_HOST_COHERENT_BIT: u32 = 0x00000004;
pub const MAGMA_MEMORY_PROPERTY_HOST_CACHED_BIT: u32 = 0x00000008;
pub const MAGMA_MEMORY_PROPERTY_LAZILY_ALLOCATED_BIT: u32 = 0x00000010;
pub const MAGMA_MEMORY_PROPERTY_PROTECTED_BIT: u32 = 0x00000020;

/// PCI vendor of a device.
#[derive(Debug, Clone, Copy, PartialEq, Eq, Structural, Default)]
pub enum MagmaVendorId {
    #[default]
    AMD,
    ARM,
    Intel,
    Qualcomm,
}

impl MagmaVendorId {
    /// The PCI vendor id.
    pub open spec fn spec_raw(self) -> u16 {
        match self {
            MagmaVendorId::AMD => 0x1002,
            MagmaVendorId::ARM => 0x13B5,
            MagmaVendorId::Intel => 0x8086,
            MagmaVendorId::Qualcomm => 0x5413,
        }
    }

    /// The PCI vendor id.
    pub fn raw(&self) -> (r: u16)
        ensures
            r == self.spec_raw(),
    {
        match self {
            MagmaVendorId::AMD => 0x1002,
            MagmaVendorId::ARM => 0x13B5,
            MagmaVendorId::Intel => 0x8086,
            MagmaVendorId::Qualcomm => 0x5413,
        }
    }
}

/// Status of a command.
#[derive(Debug, Clone, Copy, PartialEq, Eq, Structural, Default)]
pub enum MagmaStatus {
    #[default]
    Success,
    InternalError,
    InvalidArgs,
    AccessDenied,
    MemoryError,
    ContextKilled,
    TimedOut,
    Unimplemented,
}

impl MagmaStatus {
    /// The number that stands for the status.
    pub open spec fn spec_raw(self) -> i32 {
        match self {
            MagmaStatus::Success => 0i32,
            MagmaStatus::InternalError => -1i32,
            MagmaStatus::InvalidArgs => -2i32,
            MagmaStatus::AccessDenied => -3i32,
            MagmaStatus::MemoryError => -4i32,
            MagmaStatus::ContextKilled => -5i32,
            MagmaStatus::TimedOut => -6i32,
            MagmaStatus::Unimplemented => -7i32,
        }
    }

    /// The number that stands for the status.
    pub fn raw(&self) -> (r: i32)
        ensures
            r == self.spec_raw(),
    {
        match self {
            MagmaStatus::Success => 0i32,
            MagmaStatus::InternalError => -1i32,
            MagmaStatus::InvalidArgs => -2i32,
            MagmaStatus::AccessDenied => -3i32,
            MagmaStatus::MemoryError => -4i32,
            MagmaStatus::ContextKilled => -5i32,
            MagmaStatus::TimedOut => -6i32,
            MagmaStatus::Unimplemented => -7i32,
        }
    }
}

/// Tag of an extensible structure.
#[derive(Debug, Clone, Copy, PartialEq, Eq, Structural, Default)]
pub enum MagmaStructureType {
    #[default]
    CreateBufferInfo,
}

impl MagmaStructureType {
    /// The number that stands for the tag.
    pub open spec fn spec_raw(self) -> u32 {
        match self {
            MagmaStructureType::CreateBufferInfo => 1,
        }
    }

    /// The number that stands for the tag.
    pub fn raw(&self) -> (r: u32)
        ensures
            r == self.spec_raw(),
    {
        match self {
            MagmaStructureType::CreateBufferInfo => 1,
        }
    }
}

/// The memory types and heaps of a device: the first `memory_type_count` types and `memory_heap_count` heaps count.
#[derive(Debug, Clone, Copy)]
pub struct MagmaMemoryProperties {
    pub memory_type_count: u32,
    pub memory_heap_count: u32,
    pub memory_types: [MagmaMemoryType; 16],
    pub memory_heaps: [MagmaHeap; 32],
}

/// The header of an extensible structure: its tag and size.
#[derive(Debug, Clone, Copy)]
pub struct MagmaStructureTypeHeader {
    pub stype: u32,
    pub size: u32,
}

/// How to create a buffer.
#[derive(Debug, Clone, Copy)]
pub struct MagmaCreateBufferInfo {
    pub header: MagmaStructureTypeHeader,
    pub memory_type_idx: u32,
    pub alignment: u32,
    pub common_flags: u32,
    pub vendor_flags: u32,
    pub size: u64,
}

/// Request: create a device on a physical device.
#[derive(Debug, Clone, Copy)]
pub struct CreateDeviceReq {
    pub header: MagmaCommandHeader,
    pub physical_device: u32,
    pub padding: u32,
}

/// Response: the device created.
#[derive(Debug, Clone, Copy)]
pub struct CreateDeviceResp {
    pub header: MagmaCommandHeader,
    pub device: u32,
    pub padding: u32,
}

/// Request: the memory properties of a device.
#[derive(Debug, Clone, Copy)]
pub struct GetMemoryPropertiesReq {
    pub header: MagmaCommandHeader,
    pub device: u32,
    pub padding: u32,
}

/// Response: the memory properties.
#[derive(Debug, Clone, Copy)]
pub struct GetMemoryPropertiesResp {
    pub header: MagmaCommandHeader,
    pub mem_props: MagmaMemoryProperties,
}

/// Request: the budget of a heap.
#[derive(Debug, Clone, Copy)]
pub struct GetMemoryBudgetReq {
    pub header: MagmaCommandHeader,
    pub device: u32,
    pub heap_idx: u32,
}

/// Response: the budget of the heap.
#[derive(Debug, Clone, Copy)]
pub struct GetMemoryBudgetResp {
    pub header: MagmaCommandHeader,
    pub budget: MagmaHeapBudget,
}

/// Request: create a buffer.
#[derive(Debug, Clone, Copy)]
pub struct CreateBufferReq {
    pub header: MagmaCommandHeader,
    pub device: u32,
    pub _pad0: u32,
    pub info: MagmaCreateBufferInfo,
}

/// Response: the buffer created.
#[derive(Debug, Clone, Copy)]
pub struct CreateBufferResp {
    pub header: MagmaCommandHeader,
    pub buffer_out: u32,
    pub padding: u32,
}

/// Request: create a context on a device.
#[derive(Debug, Clone, Copy)]
pub struct CreateContextReq {
    pub header: MagmaCommandHeader,
    pub device: u32,
    pub padding: u32,
}

/// Response: the context created.
#[derive(Debug, Clone, Copy)]
pub struct CreateContextResp {
    pub header: MagmaCommandHeader,
    pub context: u32,
    pub padding: u32,
}

/// Request: close the device.
#[derive(Debug, Clone, Copy)]
pub struct DeviceCloseReq {
    pub header: MagmaCommandHeader,
}

/// Request: close the physical device.
#[derive(Debug, Clone, Copy)]
pub struct PhysicalDeviceCloseReq {
    pub header: MagmaCommandHeader,
}

/// Bytes of a run of `MagmaMemoryType` records, in order.
pub open spec fn memory_type_seq_bytes(s: Seq<MagmaMemoryType>) -> Seq<u8>
    decreases s.len(),
{
    if s.len() == 0 {
        Seq::empty()
    } else {
        memory_type_seq_bytes(s.drop_last()) + s.last().spec_bytes()
    }
}

proof fn lemma_memory_type_seq_len(s: Seq<MagmaMemoryType>)
    ensures
        memory_type_seq_bytes(s).len() == 8 * s.len(),
    decreases s.len(),
{
    if s.len() > 0 {
        lemma_memory_type_seq_len(s.drop_last());
        s.last().lemma_bytes_len();
    }
}

fn put_memory_types(v: &mut Vec<u8>, a: &[MagmaMemoryType])
    ensures
        final(v)@ == old(v)@ + memory_type_seq_bytes(a@),
{
    let mut i: usize = 0;
    while i < a.len()
        invariant
            i <= a.len(),
            v@ == old(v)@ + memory_type_seq_bytes(a@.take(i as int)),
        decreases a.len() - i,
    {
        a[i].write_to(v);
        assert(a@.take(i as int + 1).drop_last() =~= a@.take(i as int));
        i = i + 1;
        assert(v@ =~= old(v)@ + memory_type_seq_bytes(a@.take(i as int)));
    }
    assert(a@.take(i as int) =~= a@);
}

/// Bytes of a run of `MagmaHeap` records, in order.
pub open spec fn heap_seq_bytes(s: Seq<MagmaHeap>) -> Seq<u8>
    decreases s.len(),
{
    if s.len() == 0 {
        Seq::empty()
    } else {
        heap_seq_bytes(s.drop_last()) + s.last().spec_bytes()
    }
}

proof fn lemma_heap_seq_len(s: Seq<MagmaHeap>)
    ensures
        heap_seq_bytes(s).len() == 16 * s.len(),
    decreases s.len(),
{
    if s.len() > 0 {
        lemma_heap_seq_len(s.drop_last());
        s.last().lemma_bytes_len();
    }
}

fn put_heaps(v: &mut Vec<u8>, a: &[MagmaHeap])
    ensures
        final(v)@ == old(v)@ + heap_seq_bytes(a@),
{
    let mut i: usize = 0;
    while i < a.len()
        invariant
            i <= a.len(),
            v@ == old(v)@ + heap_seq_bytes(a@.take(i as int)),
        decreases a.len() - i,
    {
        a[i].write_to(v);
        assert(a@.take(i as int + 1).drop_last() =~= a@.take(i as int));
        i = i + 1;
        assert(v@ =~= old(v)@ + heap_seq_bytes(a@.take(i as int)));
    }
    assert(a@.take(i as int) =~= a@);
}

impl MagmaMemoryProperties {
    /// Number of bytes this structure occupies on the wire.
    pub open spec fn wire_size() -> nat {
        648
    }

    /// The bytes of this structure on the wire.
    pub open spec fn spec_bytes(&self) -> Seq<u8> {
        le32(self.memory_type_count) + le32(self.memory_heap_count) + memory_type_seq_bytes(self.memory_types@) + heap_seq_bytes(self.memory_heaps@)
    }

    pub proof fn lemma_bytes_len(&self)
        ensures
            self.spec_bytes().len() == Self::wire_size(),
    {
        lemma_memory_type_seq_len(self.memory_types@);
        lemma_heap_seq_len(self.memory_heaps@);
    }

    /// Every field sits at its offset, little-endian: reading the bytes
    /// back at those offsets gives the fields.
    pub proof fn lemma_field_offsets(&self)
        ensures
            from_le32(self.spec_bytes().subrange(0, 4)) == self.memory_type_count,
            from_le32(self.spec_bytes().subrange(4, 8)) == self.memory_heap_count,
    {
        let b = self.spec_bytes();
        assert(b.subrange(0, 4) =~= le32(self.memory_type_count));
        lemma_le32_roundtrip(self.memory_type_count);
        assert(b.subrange(4, 8) =~= le32(self.memory_heap_count));
        lemma_le32_roundtrip(self.memory_heap_count);
    }

    /// Appends the wire bytes of this structure to `v`.
    pub fn write_to(&self, v: &mut Vec<u8>)
        ensures
            final(v)@ == old(v)@ + self.spec_bytes(),
    {
        let ghost start = v@;
        put_u32(v, self.memory_type_count);
        put_u32(v, self.memory_heap_count);
        put_memory_types(v, &self.memory_types);
        put_heaps(v, &self.memory_heaps);
        assert(v@ =~= start + self.spec_bytes());
    }

    /// The wire bytes of this structure.
    pub fn to_bytes(&self) -> (b: Vec<u8>)
        ensures
            b@ == self.spec_bytes(),
            b@.len() == Self::wire_size(),
    {
        let mut v: Vec<u8> = Vec::new();
        self.write_to(&mut v);
        proof {
            assert(v@ =~= self.spec_bytes());
            self.lemma_bytes_len();
        }
        v
    }
}

impl MagmaStructureTypeHeader {
    /// Number of bytes this structure occupies on the wire.
    pub open spec fn wire_size() -> nat {
        8
    }

    /// The bytes of this structure on the wire.
    pub open spec fn spec_bytes(&self) -> Seq<u8> {
        le32(self.stype) + le32(self.size)
    }

    pub proof fn lemma_bytes_len(&self)
        ensures
            self.spec_bytes().len() == Self::wire_size(),
    {
    }

    /// Every field sits at its offset, little-endian: reading the bytes
    /// back at those offsets gives the fields.
    pub proof fn lemma_field_offsets(&self)
        ensures
            from_le32(self.spec_bytes().subrange(0, 4)) == self.stype,
            from_le32(self.spec_bytes().subrange(4, 8)) == self.size,
    {
        let b = self.spec_bytes();
        assert(b.subrange(0, 4) =~= le32(self.stype));
        lemma_le32_roundtrip(self.stype);
        assert(b.subrange(4, 8) =~= le32(self.size));
        lemma_le32_roundtrip(self.size);
    }

    /// Appends the wire bytes of this structure to `v`.
    pub fn write_to(&self, v: &mut Vec<u8>)
        ensures
            final(v)@ == old(v)@ + self.spec_bytes(),
    {
        let ghost start = v@;
        put_u32(v, self.stype);
        put_u32(v, self.size);
        assert(v@ =~= start + self.spec_bytes());
    }

    /// The wire bytes of this structure.
    pub fn to_bytes(&self) -> (b: Vec<u8>)
        ensures
            b@ == self.spec_bytes(),
            b@.len() == Self::wire_size(),
    {
        let mut v: Vec<u8> = Vec::new();
        self.write_to(&mut v);
        proof {
            assert(v@ =~= self.spec_bytes());
            self.lemma_bytes_len();
        }
        v
    }
}

impl MagmaCreateBufferInfo {
    /// Number of bytes this structure occupies on the wire.
    pub open spec fn wire_size() -> nat {
        32
    }

    /// The bytes of this structure on the wire.
    pub open spec fn spec_bytes(&self) -> Seq<u8> {
        self.header.spec_bytes() + le32(self.memory_type_idx) + le32(self.alignment) + le32(self.common_flags) + le32(self.vendor_flags) + le64(self.size)
    }

    pub proof fn lemma_bytes_len(&self)
        ensures
            self.spec_bytes().len() == Self::wire_size(),
    {
        self.header.lemma_bytes_len();
    }

    /// Every field sits at its offset, little-endian: reading the bytes
    /// back at those offsets gives the fields.
    pub proof fn lemma_field_offsets(&self)
        ensures
            self.spec_bytes().subrange(0, 8) == self.header.spec_bytes(),
            from_le32(self.spec_bytes().subrange(8, 12)) == self.memory_type_idx,
            from_le32(self.spec_bytes().subrange(12, 16)) == self.alignment,
            from_le32(self.spec_bytes().subrange(16, 20)) == self.common_flags,
            from_le32(self.spec_bytes().subrange(20, 24)) == self.vendor_flags,
            from_le64(self.spec_bytes().subrange(24, 32)) == self.size,
    {
        let b = self.spec_bytes();
        self.header.lemma_bytes_len();
        assert(b.subrange(0, 8) =~= self.header.spec_bytes());
        assert(b.subrange(8, 12) =~= le32(self.memory_type_idx));
        lemma_le32_roundtrip(self.memory_type_idx);
        assert(b.subrange(12, 16) =~= le32(self.alignment));
        lemma_le32_roundtrip(self.alignment);
        assert(b.subrange(16, 20) =~= le32(self.common_flags));
        lemma_le32_roundtrip(self.common_flags);
        assert(b.subrange(20, 24) =~= le32(self.vendor_flags));
        lemma_le32_roundtrip(self.vendor_flags);
        assert(b.subrange(24, 32) =~= le64(self.size));
        lemma_le64_roundtrip(self.size);
    }

    /// Appends the wire bytes of this structure to `v`.
    pub fn write_to(&self, v: &mut Vec<u8>)
        ensures
            final(v)@ == old(v)@ + self.spec_bytes(),
    {
        let ghost start = v@;
        self.header.write_to(v);
        put_u32(v, self.memory_type_idx);
        put_u32(v, self.alignment);
        put_u32(v, self.common_flags);
        put_u32(v, self.vendor_flags);
        put_u64(v, self.size);
        assert(v@ =~= start + self.spec_bytes());
    }

    /// The wire bytes of this structure.
    pub fn to_bytes(&self) -> (b: Vec<u8>)
        ensures
            b@ == self.spec_bytes(),
            b@.len() == Self::wire_size(),
    {
        let mut v: Vec<u8> = Vec::new();
        self.write_to(&mut v);
        proof {
            assert(v@ =~= self.spec_bytes());
            self.lemma_bytes_len();
        }
        v
    }
}

impl CreateDeviceReq {
    /// Number of bytes this structure occupies on the wire.
    pub open spec fn wire_size() -> nat {
        16
    }

    /// The bytes of this structure on the wire.
    pub open spec fn spec_bytes(&self) -> Seq<u8> {
        self.header.spec_bytes() + le32(self.physical_device) + le32(self.padding)
    }

    pub proof fn lemma_bytes_len(&self)
        ensures
            self.spec_bytes().len() == Self::wire_size(),
    {
        self.header.lemma_bytes_len();
    }

    /// Every field sits at its offset, little-endian: reading the bytes
    /// back at those offsets gives the fields.
    pub proof fn lemma_field_offsets(&self)
        ensures
            self.spec_bytes().subrange(0, 8) == self.header.spec_bytes(),
            from_le32(self.spec_bytes().subrange(8, 12)) == self.physical_device,
            from_le32(self.spec_bytes().subrange(12, 16)) == self.padding,
    {
        let b = self.spec_bytes();
        self.header.lemma_bytes_len();
        assert(b.subrange(0, 8) =~= self.header.spec_bytes());
        assert(b.subrange(8, 12) =~= le32(self.physical_device));
        lemma_le32_roundtrip(self.physical_device);
        assert(b.subrange(12, 16) =~= le32(self.padding));
        lemma_le32_roundtrip(self.padding);
    }

    /// Appends the wire bytes of this structure to `v`.
    pub fn write_to(&self, v: &mut Vec<u8>)
        ensures
            final(v)@ == old(v)@ + self.spec_bytes(),
    {
        let ghost start = v@;
        self.header.write_to(v);
        put_u32(v, self.physical_device);
        put_u32(v, self.padding);
        assert(v@ =~= start + self.spec_bytes());
    }

    /// The wire bytes of this structure.
    pub fn to_bytes(&self) -> (b: Vec<u8>)
        ensures
            b@ == self.spec_bytes(),
            b@.len() == Self::wire_size(),
    {
        let mut v: Vec<u8> = Vec::new();
        self.write_to(&mut v);
        proof {
            assert(v@ =~= self.spec_bytes());
            self.lemma_bytes_len();
        }
        v
    }
}

impl CreateDeviceResp {
    /// Number of bytes this structure occupies on the wire.
    pub open spec fn wire_size() -> nat {
        16
    }

    /// The bytes of this structure on the wire.
    pub open spec fn spec_bytes(&self) -> Seq<u8> {
        self.header.spec_bytes() + le32(self.device) + le32(self.padding)
    }

    pub proof fn lemma_bytes_len(&self)
        ensures
            self.spec_bytes().len() == Self::wire_size(),
    {
        self.header.lemma_bytes_len();
    }

    /// Every field sits at its offset, little-endian: reading the bytes
    /// back at those offsets gives the fields.
    pub proof fn lemma_field_offsets(&self)
        ensures
            self.spec_bytes().subrange(0, 8) == self.header.spec_bytes(),
            from_le32(self.spec_bytes().subrange(8, 12)) == self.device,
            from_le32(self.spec_bytes().subrange(12, 16)) == self.padding,
    {
        let b = self.spec_bytes();
        self.header.lemma_bytes_len();
        assert(b.subrange(0, 8) =~= self.header.spec_bytes());
        assert(b.subrange(8, 12) =~= le32(self.device));
        lemma_le32_roundtrip(self.device);
        assert(b.subrange(12, 16) =~= le32(self.padding));
        lemma_le32_roundtrip(self.padding);
    }

    /// Appends the wire bytes of this structure to `v`.
    pub fn write_to(&self, v: &mut Vec<u8>)
        ensures
            final(v)@ == old(v)@ + self.spec_bytes(),
    {
        let ghost start = v@;
        self.header.write_to(v);
        put_u32(v, self.device);
        put_u32(v, self.padding);
        assert(v@ =~= start + self.spec_bytes());
    }

    /// The wire bytes of this structure.
    pub fn to_bytes(&self) -> (b: Vec<u8>)
        ensures
            b@ == self.spec_bytes(),
            b@.len() == Self::wire_size(),
    {
        let mut v: Vec<u8> = Vec::new();
        self.write_to(&mut v);
        proof {
            assert(v@ =~= self.spec_bytes());
            self.lemma_bytes_len();
        }
        v
    }
}

impl GetMemoryPropertiesReq {
    /// Number of bytes this structure occupies on the wire.
    pub open spec fn wire_size() -> nat {
        16
    }

    /// The bytes of this structure on the wire.
    pub open spec fn spec_bytes(&self) -> Seq<u8> {
        self.header.spec_bytes() + le32(self.device) + le32(self.padding)
    }

    pub proof fn lemma_bytes_len(&self)
        ensures
            self.spec_bytes().len() == Self::wire_size(),
    {
        self.header.lemma_bytes_len();
    }

    /// Every field sits at its offset, little-endian: reading the bytes
    /// back at those offsets gives the fields.
    pub proof fn lemma_field_offsets(&self)
        ensures
            self.spec_bytes().subrange(0, 8) == self.header.spec_bytes(),
            from_le32(self.spec_bytes().subrange(8, 12)) == self.device,
            from_le32(self.spec_bytes().subrange(12, 16)) == self.padding,
    {
        let b = self.spec_bytes();
        self.header.lemma_bytes_len();
        assert(b.subrange(0, 8) =~= self.header.spec_bytes());
        assert(b.subrange(8, 12) =~= le32(self.device));
        lemma_le32_roundtrip(self.device);
        assert(b.subrange(12, 16) =~= le32(self.padding));
        lemma_le32_roundtrip(self.padding);
    }

    /// Appends the wire bytes of this structure to `v`.
    pub fn write_to(&self, v: &mut Vec<u8>)
        ensures
            final(v)@ == old(v)@ + self.spec_bytes(),
    {
        let ghost start = v@;
        self.header.write_to(v);
        put_u32(v, self.device);
        put_u32(v, self.padding);
        assert(v@ =~= start + self.spec_bytes());
    }

    /// The wire bytes of this structure.
    pub fn to_bytes(&self) -> (b: Vec<u8>)
        ensures
            b@ == self.spec_bytes(),
            b@.len() == Self::wire_size(),
    {
        let mut v: Vec<u8> = Vec::new();
        self.write_to(&mut v);
        proof {
            assert(v@ =~= self.spec_bytes());
            self.lemma_bytes_len();
        }
        v
    }
}

impl GetMemoryPropertiesResp {
    /// Number of bytes this structure occupies on the wire.
    pub open spec fn wire_size() -> nat {
        656
    }

    /// The bytes of this structure on the wire.
    pub open spec fn spec_bytes(&self) -> Seq<u8> {
        self.header.spec_bytes() + self.mem_props.spec_bytes()
    }

    pub proof fn lemma_bytes_len(&self)
        ensures
            self.spec_bytes().len() == Self::wire_size(),
    {
        self.header.lemma_bytes_len();
        self.mem_props.lemma_bytes_len();
    }

    /// Every field sits at its offset, little-endian: reading the bytes
    /// back at those offsets gives the fields.
    pub proof fn lemma_field_offsets(&self)
        ensures
            self.spec_bytes().subrange(0, 8) == self.header.spec_bytes(),
            self.spec_bytes().subrange(8, 656) == self.mem_props.spec_bytes(),
    {
        let b = self.spec_bytes();
        self.header.lemma_bytes_len();
        self.mem_props.lemma_bytes_len();
        assert(b.subrange(0, 8) =~= self.header.spec_bytes());
        assert(b.subrange(8, 656) =~= self.mem_props.spec_bytes());
    }

    /// Appends the wire bytes of this structure to `v`.
    pub fn write_to(&self, v: &mut Vec<u8>)
        ensures
            final(v)@ == old(v)@ + self.spec_bytes(),
    {
        let ghost start = v@;
        self.header.write_to(v);
        self.mem_props.write_to(v);
        assert(v@ =~= start + self.spec_bytes());
    }

    /// The wire bytes of this structure.
    pub fn to_bytes(&self) -> (b: Vec<u8>)
        ensures
            b@ == self.spec_bytes(),
            b@.len() == Self::wire_size(),
    {
        let mut v: Vec<u8> = Vec::new();
        self.write_to(&mut v);
        proof {
            assert(v@ =~= self.spec_bytes());
            self.lemma_bytes_len();
        }
        v
    }
}

impl GetMemoryBudgetReq {
    /// Number of bytes this structure occupies on the wire.
    pub open spec fn wire_size() -> nat {
        16
    }

    /// The bytes of this structure on the wire.
    pub open spec fn spec_bytes(&self) -> Seq<u8> {
        self.header.spec_bytes() + le32(self.device) + le32(self.heap_idx)
    }

    pub proof fn lemma_bytes_len(&self)
        ensures
            self.spec_bytes().len() == Self::wire_size(),
    {
        self.header.lemma_bytes_len();
    }

    /// Every field sits at its offset, little-endian: reading the bytes
    /// back at those offsets gives the fields.
    pub proof fn lemma_field_offsets(&self)
        ensures
            self.spec_bytes().subrange(0, 8) == self.header.spec_bytes(),
            from_le32(self.spec_bytes().subrange(8, 12)) == self.device,
            from_le32(self.spec_bytes().subrange(12, 16)) == self.heap_idx,
    {
        let b = self.spec_bytes();
        self.header.lemma_bytes_len();
        assert(b.subrange(0, 8) =~= self.header.spec_bytes());
        assert(b.subrange(8, 12) =~= le32(self.device));
        lemma_le32_roundtrip(self.device);
        assert(b.subrange(12, 16) =~= le32(self.heap_idx));
        lemma_le32_roundtrip(self.heap_idx);
    }

    /// Appends the wire bytes of this structure to `v`.
    pub fn write_to(&self, v: &mut Vec<u8>)
        ensures
            final(v)@ == old(v)@ + self.spec_bytes(),
    {
        let ghost start = v@;
        self.header.write_to(v);
        put_u32(v, self.device);
        put_u32(v, self.heap_idx);
        assert(v@ =~= start + self.spec_bytes());
    }

    /// The wire bytes of this structure.
    pub fn to_bytes(&self) -> (b: Vec<u8>)
        ensures
            b@ == self.spec_bytes(),
            b@.len() == Self::wire_size(),
    {
        let mut v: Vec<u8> = Vec::new();
        self.write_to(&mut v);
        proof {
            assert(v@ =~= self.spec_bytes());
            self.lemma_bytes_len();
        }
        v
    }
}

impl GetMemoryBudgetResp {
    /// Number of bytes this structure occupies on the wire.
    pub open spec fn wire_size() -> nat {
        24
    }

    /// The bytes of this structure on the wire.
    pub open spec fn spec_bytes(&self) -> Seq<u8> {
        self.header.spec_bytes() + self.budget.spec_bytes()
    }

    pub proof fn lemma_bytes_len(&self)
        ensures
            self.spec_bytes().len() == Self::wire_size(),
    {
        self.header.lemma_bytes_len();
        self.budget.lemma_bytes_len();
    }

    /// Every field sits at its offset, little-endian: reading the bytes
    /// back at those offsets gives the fields.
    pub proof fn lemma_field_offsets(&self)
        ensures
            self.spec_bytes().subrange(0, 8) == self.header.spec_bytes(),
            self.spec_bytes().subrange(8, 24) == self.budget.spec_bytes(),
    {
        let b = self.spec_bytes();
        self.header.lemma_bytes_len();
        self.budget.lemma_bytes_len();
        assert(b.subrange(0, 8) =~= self.header.spec_bytes());
        assert(b.subrange(8, 24) =~= self.budget.spec_bytes());
    }

    /// Appends the wire bytes of this structure to `v`.
    pub fn write_to(&self, v: &mut Vec<u8>)
        ensures
            final(v)@ == old(v)@ + self.spec_bytes(),
    {
        let ghost start = v@;
        self.header.write_to(v);
        self.budget.write_to(v);
        assert(v@ =~= start + self.spec_bytes());
    }

    /// The wire bytes of this structure.
    pub fn to_bytes(&self) -> (b: Vec<u8>)
        ensures
            b@ == self.spec_bytes(),
            b@.len() == Self::wire_size(),
    {
        let mut v: Vec<u8> = Vec::new();
        self.write_to(&mut v);
        proof {
            assert(v@ =~= self.spec_bytes());
            self.lemma_bytes_len();
        }
        v
    }
}

impl CreateBufferReq {
    /// Number of bytes this structure occupies on the wire.
    pub open spec fn wire_size() -> nat {
        48
    }

    /// The bytes of this structure on the wire.
    pub open spec fn spec_bytes(&self) -> Seq<u8> {
        self.header.spec_bytes() + le32(self.device) + le32(self._pad0) + self.info.spec_bytes()
    }

    pub proof fn lemma_bytes_len(&self)
        ensures
            self.spec_bytes().len() == Self::wire_size(),
    {
        self.header.lemma_bytes_len();
        self.info.lemma_bytes_len();
    }

    /// Every field sits at its offset, little-endian: reading the bytes
    /// back at those offsets gives the fields.
    pub proof fn lemma_field_offsets(&self)
        ensures
            self.spec_bytes().subrange(0, 8) == self.header.spec_bytes(),
            from_le32(self.spec_bytes().subrange(8, 12)) == self.device,
            from_le32(self.spec_bytes().subrange(12, 16)) == self._pad0,
            self.spec_bytes().subrange(16, 48) == self.info.spec_bytes(),
    {
        let b = self.spec_bytes();
        self.header.lemma_bytes_len();
        self.info.lemma_bytes_len();
        assert(b.subrange(0, 8) =~= self.header.spec_bytes());
        assert(b.subrange(8, 12) =~= le32(self.device));
        lemma_le32_roundtrip(self.device);
        assert(b.subrange(12, 16) =~= le32(self._pad0));
        lemma_le32_roundtrip(self._pad0);
        assert(b.subrange(16, 48) =~= self.info.spec_bytes());
    }

    /// Appends the wire bytes of this structure to `v`.
    pub fn write_to(&self, v: &mut Vec<u8>)
        ensures
            final(v)@ == old(v)@ + self.spec_bytes(),
    {
        let ghost start = v@;
        self.header.write_to(v);
        put_u32(v, self.device);
        put_u32(v, self._pad0);
        self.info.write_to(v);
        assert(v@ =~= start + self.spec_bytes());
    }

    /// The wire bytes of this structure.
    pub fn to_bytes(&self) -> (b: Vec<u8>)
        ensures
            b@ == self.spec_bytes(),
            b@.len() == Self::wire_size(),
    {
        let mut v: Vec<u8> = Vec::new();
        self.write_to(&mut v);
        proof {
            assert(v@ =~= self.spec_bytes());
            self.lemma_bytes_len();
        }
        v
    }
}

impl CreateBufferResp {
    /// Number of bytes this structure occupies on the wire.
    pub open spec fn wire_size() -> nat {
        16
    }

    /// The bytes of this structure on the wire.
    pub open spec fn spec_bytes(&self) -> Seq<u8> {
        self.header.spec_bytes() + le32(self.buffer_out) + le32(self.padding)
    }

    pub proof fn lemma_bytes_len(&self)
        ensures
            self.spec_bytes().len() == Self::wire_size(),
    {
        self.header.lemma_bytes_len();
    }

    /// Every field sits at its offset, little-endian: reading the bytes
    /// back at those offsets gives the fields.
    pub proof fn lemma_field_offsets(&self)
        ensures
            self.spec_bytes().subrange(0, 8) == self.header.spec_bytes(),
            from_le32(self.spec_bytes().subrange(8, 12)) == self.buffer_out,
            from_le32(self.spec_bytes().subrange(12, 16)) == self.padding,
    {
        let b = self.spec_bytes();
        self.header.lemma_bytes_len();
        assert(b.subrange(0, 8) =~= self.header.spec_bytes());
        assert(b.subrange(8, 12) =~= le32(self.buffer_out));
        lemma_le32_roundtrip(self.buffer_out);
        assert(b.subrange(12, 16) =~= le32(self.padding));
        lemma_le32_roundtrip(self.padding);
    }

    /// Appends the wire bytes of this structure to `v`.
    pub fn write_to(&self, v: &mut Vec<u8>)
        ensures
            final(v)@ == old(v)@ + self.spec_bytes(),
    {
        let ghost start = v@;
        self.header.write_to(v);
        put_u32(v, self.buffer_out);
        put_u32(v, self.padding);
        assert(v@ =~= start + self.spec_bytes());
    }

    /// The wire bytes of this structure.
    pub fn to_bytes(&self) -> (b: Vec<u8>)
        ensures
            b@ == self.spec_bytes(),
            b@.len() == Self::wire_size(),
    {
        let mut v: Vec<u8> = Vec::new();
        self.write_to(&mut v);
        proof {
            assert(v@ =~= self.spec_bytes());
            self.lemma_bytes_len();
        }
        v
    }
}

impl CreateContextReq {
    /// Number of bytes this structure occupies on the wire.
    pub open spec fn wire_size() -> nat {
        16
    }

    /// The bytes of this structure on the wire.
    pub open spec fn spec_bytes(&self) -> Seq<u8> {
        self.header.spec_bytes() + le32(self.device) + le32(self.padding)
    }

    pub proof fn lemma_bytes_len(&self)
        ensures
            self.spec_bytes().len() == Self::wire_size(),
    {
        self.header.lemma_bytes_len();
    }

    /// Every field sits at its offset, little-endian: reading the bytes
    /// back at those offsets gives the fields.
    pub proof fn lemma_field_offsets(&self)
        ensures
            self.spec_bytes().subrange(0, 8) == self.header.spec_bytes(),
            from_le32(self.spec_bytes().subrange(8, 12)) == self.device,
            from_le32(self.spec_bytes().subrange(12, 16)) == self.padding,
    {
        let b = self.spec_bytes();
        self.header.lemma_bytes_len();
        assert(b.subrange(0, 8) =~= self.header.spec_bytes());
        assert(b.subrange(8, 12) =~= le32(self.device));
        lemma_le32_roundtrip(self.device);
        assert(b.subrange(12, 16) =~= le32(self.padding));
        lemma_le32_roundtrip(self.padding);
    }

    /// Appends the wire bytes of this structure to `v`.
    pub fn write_to(&self, v: &mut Vec<u8>)
        ensures
            final(v)@ == old(v)@ + self.spec_bytes(),
    {
        let ghost start = v@;
        self.header.write_to(v);
        put_u32(v, self.device);
        put_u32(v, self.padding);
        assert(v@ =~= start + self.spec_bytes());
    }

    /// The wire bytes of this structure.
    pub fn to_bytes(&self) -> (b: Vec<u8>)
        ensures
            b@ == self.spec_bytes(),
            b@.len() == Self::wire_size(),
    {
        let mut v: Vec<u8> = Vec::new();
        self.write_to(&mut v);
        proof {
            assert(v@ =~= self.spec_bytes());
            self.lemma_bytes_len();
        }
        v
    }
}

impl CreateContextResp {
    /// Number of bytes this structure occupies on the wire.
    pub open spec fn wire_size() -> nat {
        16
    }

    /// The bytes of this structure on the wire.
    pub open spec fn spec_bytes(&self) -> Seq<u8> {
        self.header.spec_bytes() + le32(self.context) + le32(self.padding)
    }

    pub proof fn lemma_bytes_len(&self)
        ensures
            self.spec_bytes().len() == Self::wire_size(),
    {
        self.header.lemma_bytes_len();
    }

    /// Every field sits at its offset, little-endian: reading the bytes
    /// back at those offsets gives the fields.
    pub proof fn lemma_field_offsets(&self)
        ensures
            self.spec_bytes().subrange(0, 8) == self.header.spec_bytes(),
            from_le32(self.spec_bytes().subrange(8, 12)) == self.context,
            from_le32(self.spec_bytes().subrange(12, 16)) == self.padding,
    {
        let b = self.spec_bytes();
        self.header.lemma_bytes_len();
        assert(b.subrange(0, 8) =~= self.header.spec_bytes());
        assert(b.subrange(8, 12) =~= le32(self.context));
        lemma_le32_roundtrip(self.context);
        assert(b.subrange(12, 16) =~= le32(self.padding));
        lemma_le32_roundtrip(self.padding);
    }

    /// Appends the wire bytes of this structure to `v`.
    pub fn write_to(&self, v: &mut Vec<u8>)
        ensures
            final(v)@ == old(v)@ + self.spec_bytes(),
    {
        let ghost start = v@;
        self.header.write_to(v);
        put_u32(v, self.context);
        put_u32(v, self.padding);
        assert(v@ =~= start + self.spec_bytes());
    }

    /// The wire bytes of this structure.
    pub fn to_bytes(&self) -> (b: Vec<u8>)
        ensures
            b@ == self.spec_bytes(),
            b@.len() == Self::wire_size(),
    {
        let mut v: Vec<u8> = Vec::new();
        self.write_to(&mut v);
        proof {
            assert(v@ =~= self.spec_bytes());
            self.lemma_bytes_len();
        }
        v
    }
}

impl DeviceCloseReq {
    /// Number of bytes this structure occupies on the wire.
    pub open spec fn wire_size() -> nat {
        8
    }

    /// The bytes of this structure on the wire.
    pub open spec fn spec_bytes(&self) -> Seq<u8> {
        self.header.spec_bytes()
    }

    pub proof fn lemma_bytes_len(&self)
        ensures
            self.spec_bytes().len() == Self::wire_size(),
    {
        self.header.lemma_bytes_len();
    }

    /// Appends the wire bytes of this structure to `v`.
    pub fn write_to(&self, v: &mut Vec<u8>)
        ensures
            final(v)@ == old(v)@ + self.spec_bytes(),
    {
        let ghost start = v@;
        self.header.write_to(v);
        assert(v@ =~= start + self.spec_bytes());
    }

    /// The wire bytes of this structure.
    pub fn to_bytes(&self) -> (b: Vec<u8>)
        ensures
            b@ == self.spec_bytes(),
            b@.len() == Self::wire_size(),
    {
        let mut v: Vec<u8> = Vec::new();
        self.write_to(&mut v);
        proof {
            assert(v@ =~= self.spec_bytes());
            self.lemma_bytes_len();
        }
        v
    }
}

impl PhysicalDeviceCloseReq {
    /// Number of bytes this structure occupies on the wire.
    pub open spec fn wire_size() -> nat {
        8
    }

    /// The bytes of this structure on the wire.
    pub open spec fn spec_bytes(&self) -> Seq<u8> {
        self.header.spec_bytes()
    }

    pub proof fn lemma_bytes_len(&self)
        ensures
            self.spec_bytes().len() == Self::wire_size(),
    {
        self.header.lemma_bytes_len();
    }

    /// Appends the wire bytes of this structure to `v`.
    pub fn write_to(&self, v: &mut Vec<u8>)
        ensures
            final(v)@ == old(v)@ + self.spec_bytes(),
    {
        let ghost start = v@;
        self.header.write_to(v);
        assert(v@ =~= start + self.spec_bytes());
    }

    /// The wire bytes of this structure.
    pub fn to_bytes(&self) -> (b: Vec<u8>)
        ensures
            b@ == self.spec_bytes(),
            b@.len() == Self::wire_size(),
    {
        let mut v: Vec<u8> = Vec::new();
        self.write_to(&mut v);
        proof {
            assert(v@ =~= self.spec_bytes());
            self.lemma_bytes_len();
        }
        v
    }
}

/// Any one command or response of the protocol.
#[derive(Debug, Clone, Copy)]
pub enum MagmaProtocol {
    CreateDevice(CreateDeviceReq),
    GetMemoryProperties(GetMemoryPropertiesReq),
    GetMemoryBudget(GetMemoryBudgetReq),
    CreateBuffer(CreateBufferReq),
    CreateContext(CreateContextReq),
    DeviceClose(DeviceCloseReq),
    PhysicalDeviceClose(PhysicalDeviceCloseReq),
    RespCreateDevice(CreateDeviceResp),
    RespGetMemoryProperties(GetMemoryPropertiesResp),
    RespGetMemoryBudget(GetMemoryBudgetResp),
    RespCreateBuffer(CreateBufferResp),
    RespCreateContext(CreateContextResp),
}

/// The wire bytes of `msg`.
pub open spec fn msg_bytes(msg: MagmaProtocol) -> Seq<u8> {
    match msg {
        MagmaProtocol::CreateDevice(m) => m.spec_bytes(),
        MagmaProtocol::GetMemoryProperties(m) => m.spec_bytes(),
        MagmaProtocol::GetMemoryBudget(m) => m.spec_bytes(),
        MagmaProtocol::CreateBuffer(m) => m.spec_bytes(),
        MagmaProtocol::CreateContext(m) => m.spec_bytes(),
        MagmaProtocol::DeviceClose(m) => m.spec_bytes(),
        MagmaProtocol::PhysicalDeviceClose(m) => m.spec_bytes(),
        MagmaProtocol::RespCreateDevice(m) => m.spec_bytes(),
        MagmaProtocol::RespGetMemoryProperties(m) => m.spec_bytes(),
        MagmaProtocol::RespGetMemoryBudget(m) => m.spec_bytes(),
        MagmaProtocol::RespCreateBuffer(m) => m.spec_bytes(),
        MagmaProtocol::RespCreateContext(m) => m.spec_bytes(),
    }
}

/// What a writer holds, as the contracts see it.
pub struct WriterView {
    /// The buffer.
    pub data: Seq<u8>,
    /// Where the next byte goes.
    pub index: nat,
}

impl WriterView {
    /// The state and result after writing `bytes` whole: stored at the
    /// index when they fit before the end of the buffer; otherwise nothing
    /// is stored and the write fails with `UnexpectedEof`.
    pub open spec fn write_all(self, bytes: Seq<u8>) -> (WriterView, Result<(), EncodeError>) {
        if self.index + bytes.len() <= self.data.len() {
            (
                WriterView {
                    data: self.data.take(self.index as int) + bytes + self.data.skip((self.index + bytes.len()) as int),
                    index: self.index + bytes.len(),
                },
                Ok(()),
            )
        } else {
            (self, Err(EncodeError::UnexpectedEof))
        }
    }
}

/// Writes whole byte runs into a fixed buffer, one after the other.
pub struct Writer {
    data: Vec<u8>,
    index: usize,
}

impl View for Writer {
    type V = WriterView;

    closed spec fn view(&self) -> WriterView {
        WriterView { data: self.data@, index: self.index as nat }
    }
}

impl Writer {
    /// The writer is never past its buffer.
    pub closed spec fn wf(&self) -> bool {
        self.index <= self.data@.len()
    }

    /// A writer that fills `data` from its start.
    pub fn new(data: Vec<u8>) -> (w: Writer)
        ensures
            w.wf(),
            w@.data == data@,
            w@.index == 0,
    {
        Writer { data, index: 0 }
    }

    /// Writes `buf` whole after what was written, or fails with
    /// `UnexpectedEof` and writes nothing when it does not fit.
    pub fn write_all(&mut self, buf: &[u8]) -> (r: Result<(), EncodeError>)
        requires
            old(self).wf(),
        ensures
            final(self).wf(),
            (final(self)@, r) == old(self)@.write_all(buf@),
    {
        if buf.len() > self.data.len() - self.index {
            return Err(EncodeError::UnexpectedEof);
        }
        let ghost before = self.data@;
        let idx = self.index;
        let n = self.data.len();
        let mut i: usize = 0;
        while i < buf.len()
            invariant
                self.index == idx,
                idx + buf@.len() <= self.data@.len(),
                i <= buf@.len(),
                self.data@.len() == before.len(),
                self.data@.len() == n,
                self.data@ == before.take(idx as int) + buf@.take(i as int) + before.skip((idx + i) as int),
            decreases buf.len() - i,
        {
            self.data.set(idx + i, buf[i]);
            i = i + 1;
            assert(self.data@ =~= before.take(idx as int) + buf@.take(i as int) + before.skip((idx + i) as int));
        }
        assert(buf@.take(i as int) =~= buf@);
        self.index = self.index + buf.len();
        Ok(())
    }

    /// Number of bytes written.
    pub fn bytes_written(&self) -> (n: usize)
        ensures
            n == self@.index,
    {
        self.index
    }

    /// Gives the buffer back.
    pub fn into_inner(self) -> (v: Vec<u8>)
        ensures
            v@ == self@.data,
    {
        self.data
    }
}

/// Encodes commands and responses, each whole, into a writer.
pub struct Encoder {
    writer: Writer,
}

impl View for Encoder {
    type V = WriterView;

    closed spec fn view(&self) -> WriterView {
        self.writer@
    }
}

impl Encoder {
    /// The encoder is never past its buffer.
    pub closed spec fn wf(&self) -> bool {
        self.writer.wf()
    }

    /// An encoder that fills `buf` from its start.
    pub fn new(buf: Vec<u8>) -> (e: Encoder)
        ensures
            e.wf(),
            e@.data == buf@,
            e@.index == 0,
    {
        Encoder { writer: Writer::new(buf) }
    }

    /// An encoder that goes on with `writer`.
    pub fn from_writer(writer: Writer) -> (e: Encoder)
        requires
            writer.wf(),
        ensures
            e.wf(),
            e@ == writer@,
    {
        Encoder { writer }
    }

    /// Number of bytes written.
    pub fn bytes_written(&self) -> (n: usize)
        ensures
            n == self@.index,
    {
        self.writer.bytes_written()
    }

    /// Gives the buffer back.
    pub fn into_inner(self) -> (v: Vec<u8>)
        ensures
            v@ == self@.data,
    {
        self.writer.into_inner()
    }


    /// Writes `msg` whole.
    pub fn encode_create_device(&mut self, msg: &CreateDeviceReq) -> (r: Result<(), EncodeError>)
        requires
            old(self).wf(),
        ensures
            final(self).wf(),
            (final(self)@, r) == old(self)@.write_all(msg.spec_bytes()),
    {
        let bytes = msg.to_bytes();
        self.writer.write_all(bytes.as_slice())
    }

    /// Writes `msg` whole.
    pub fn encode_get_memory_properties(&mut self, msg: &GetMemoryPropertiesReq) -> (r: Result<(), EncodeError>)
        requires
            old(self).wf(),
        ensures
            final(self).wf(),
            (final(self)@, r) == old(self)@.write_all(msg.spec_bytes()),
    {
        let bytes = msg.to_bytes();
        self.writer.write_all(bytes.as_slice())
    }

    /// Writes `msg` whole.
    pub fn encode_get_memory_budget(&mut self, msg: &GetMemoryBudgetReq) -> (r: Result<(), EncodeError>)
        requires
            old(self).wf(),
        ensures
            final(self).wf(),
            (final(self)@, r) == old(self)@.write_all(msg.spec_bytes()),
    {
        let bytes = msg.to_bytes();
        self.writer.write_all(bytes.as_slice())
    }

    /// Writes `msg` whole.
    pub fn encode_create_buffer(&mut self, msg: &CreateBufferReq) -> (r: Result<(), EncodeError>)
        requires
            old(self).wf(),
        ensures
            final(self).wf(),
            (final(self)@, r) == old(self)@.write_all(msg.spec_bytes()),
    {
        let bytes = msg.to_bytes();
        self.writer.write_all(bytes.as_slice())
    }

    /// Writes `msg` whole.
    pub fn encode_create_context(&mut self, msg: &CreateContextReq) -> (r: Result<(), EncodeError>)
        requires
            old(self).wf(),
        ensures
            final(self).wf(),
            (final(self)@, r) == old(self)@.write_all(msg.spec_bytes()),
    {
        let bytes = msg.to_bytes();
        self.writer.write_all(bytes.as_slice())
    }

    /// Writes `msg` whole.
    pub fn encode_device_close(&mut self, msg: &DeviceCloseReq) -> (r: Result<(), EncodeError>)
        requires
            old(self).wf(),
        ensures
            final(self).wf(),
            (final(self)@, r) == old(self)@.write_all(msg.spec_bytes()),
    {
        let bytes = msg.to_bytes();
        self.writer.write_all(bytes.as_slice())
    }

    /// Writes `msg` whole.
    pub fn encode_physical_device_close(&mut self, msg: &PhysicalDeviceCloseReq) -> (r: Result<(), EncodeError>)
        requires
            old(self).wf(),
        ensures
            final(self).wf(),
            (final(self)@, r) == old(self)@.write_all(msg.spec_bytes()),
    {
        let bytes = msg.to_bytes();
        self.writer.write_all(bytes.as_slice())
    }

    /// Writes `msg` whole.
    pub fn encode_resp_create_device(&mut self, msg: &CreateDeviceResp) -> (r: Result<(), EncodeError>)
        requires
            old(self).wf(),
        ensures
            final(self).wf(),
            (final(self)@, r) == old(self)@.write_all(msg.spec_bytes()),
    {
        let bytes = msg.to_bytes();
        self.writer.write_all(bytes.as_slice())
    }

    /// Writes `msg` whole.
    pub fn encode_resp_get_memory_properties(&mut self, msg: &GetMemoryPropertiesResp) -> (r: Result<(), EncodeError>)
        requires
            old(self).wf(),
        ensures
            final(self).wf(),
            (final(self)@, r) == old(self)@.write_all(msg.spec_bytes()),
    {
        let bytes = msg.to_bytes();
        self.writer.write_all(bytes.as_slice())
    }

    /// Writes `msg` whole.
    pub fn encode_resp_get_memory_budget(&mut self, msg: &GetMemoryBudgetResp) -> (r: Result<(), EncodeError>)
        requires
            old(self).wf(),
        ensures
            final(self).wf(),
            (final(self)@, r) == old(self)@.write_all(msg.spec_bytes()),
    {
        let bytes = msg.to_bytes();
        self.writer.write_all(bytes.as_slice())
    }

    /// Writes `msg` whole.
    pub fn encode_resp_create_buffer(&mut self, msg: &CreateBufferResp) -> (r: Result<(), EncodeError>)
        requires
            old(self).wf(),
        ensures
            final(self).wf(),
            (final(self)@, r) == old(self)@.write_all(msg.spec_bytes()),
    {
        let bytes = msg.to_bytes();
        self.writer.write_all(bytes.as_slice())
    }

    /// Writes `msg` whole.
    pub fn encode_resp_create_context(&mut self, msg: &CreateContextResp) -> (r: Result<(), EncodeError>)
        requires
            old(self).wf(),
        ensures
            final(self).wf(),
            (final(self)@, r) == old(self)@.write_all(msg.spec_bytes()),
    {
        let bytes = msg.to_bytes();
        self.writer.write_all(bytes.as_slice())
    }

    /// Writes `msg` whole.
    pub fn encode_msg(&mut self, msg: &MagmaProtocol) -> (r: Result<(), EncodeError>)
        requires
            old(self).wf(),
        ensures
            final(self).wf(),
            (final(self)@, r) == old(self)@.write_all(msg_bytes(*msg)),
    {
        match msg {
            MagmaProtocol::CreateDevice(m) => self.encode_create_device(m),
            MagmaProtocol::GetMemoryProperties(m) => self.encode_get_memory_properties(m),
            MagmaProtocol::GetMemoryBudget(m) => self.encode_get_memory_budget(m),
            MagmaProtocol::CreateBuffer(m) => self.encode_create_buffer(m),
            MagmaProtocol::CreateContext(m) => self.encode_create_context(m),
            MagmaProtocol::DeviceClose(m) => self.encode_device_close(m),
            MagmaProtocol::PhysicalDeviceClose(m) => self.encode_physical_device_close(m),
            MagmaProtocol::RespCreateDevice(m) => self.encode_resp_create_device(m),
            MagmaProtocol::RespGetMemoryProperties(m) => self.encode_resp_get_memory_properties(m),
            MagmaProtocol::RespGetMemoryBudget(m) => self.encode_resp_get_memory_budget(m),
            MagmaProtocol::RespCreateBuffer(m) => self.encode_resp_create_buffer(m),
            MagmaProtocol::RespCreateContext(m) => self.encode_resp_create_context(m),
        }
    }
}

/// Request to create the device of physical device 0.
pub fn create_device_req() -> (r: CreateDeviceReq)
    ensures
        r == (CreateDeviceReq {
            header: MagmaCommandHeader { opcode: MAGMA_OPCODE_CREATE_DEVICE, size: CreateDeviceReq::wire_size() as u32 },
            physical_device: 0,
            padding: 0,
        }),
{
    CreateDeviceReq { header: MagmaCommandHeader { opcode: MAGMA_OPCODE_CREATE_DEVICE, size: 16 }, physical_device: 0, padding: 0 }
}

/// Request for the memory properties of device 0.
pub fn get_memory_properties_req() -> (r: GetMemoryPropertiesReq)
    ensures
        r == (GetMemoryPropertiesReq {
            header: MagmaCommandHeader {
                opcode: MAGMA_OPCODE_GET_MEMORY_PROPERTIES,
                size: GetMemoryPropertiesReq::wire_size() as u32,
            },
            device: 0,
            padding: 0,
        }),
{
    GetMemoryPropertiesReq {
        header: MagmaCommandHeader { opcode: MAGMA_OPCODE_GET_MEMORY_PROPERTIES, size: 16 },
        device: 0,
        padding: 0,
    }
}

/// Request for the budget of heap `heap_idx` of device 0.
pub fn get_memory_budget_req(heap_idx: u32) -> (r: GetMemoryBudgetReq)
    ensures
        r == (GetMemoryBudgetReq {
            header: MagmaCommandHeader { opcode: MAGMA_OPCODE_GET_MEMORY_BUDGET, size: GetMemoryBudgetReq::wire_size() as u32 },
            device: 0,
            heap_idx,
        }),
{
    GetMemoryBudgetReq { header: MagmaCommandHeader { opcode: MAGMA_OPCODE_GET_MEMORY_BUDGET, size: 16 }, device: 0, heap_idx }
}

/// Request to create a context on device 0.
pub fn create_context_req() -> (r: CreateContextReq)
    ensures
        r == (CreateContextReq {
            header: MagmaCommandHeader { opcode: MAGMA_OPCODE_CREATE_CONTEXT, size: CreateContextReq::wire_size() as u32 },
            device: 0,
            padding: 0,
        }),
{
    CreateContextReq { header: MagmaCommandHeader { opcode: MAGMA_OPCODE_CREATE_CONTEXT, size: 16 }, device: 0, padding: 0 }
}

/// Request to create a buffer as `create_info` asks on device 0.
pub fn create_buffer_req(create_info: &MagmaCreateBufferInfo) -> (r: CreateBufferReq)
    ensures
        r == (CreateBufferReq {
            header: MagmaCommandHeader { opcode: MAGMA_OPCODE_CREATE_BUFFER, size: CreateBufferReq::wire_size() as u32 },
            device: 0,
            _pad0: 0,
            info: *create_info,
        }),
{
    CreateBufferReq {
        header: MagmaCommandHeader { opcode: MAGMA_OPCODE_CREATE_BUFFER, size: 48 },
        device: 0,
        _pad0: 0,
        info: *create_info,
    }
}

/// A buffer of `n` zero bytes.
fn zero_buffer(n: usize) -> (v: Vec<u8>)
    ensures
        v@ == Seq::new(n as nat, |i: int| 0u8),
{
    let mut v: Vec<u8> = Vec::new();
    let mut i: usize = 0;
    while i < n
        invariant
            i <= n,
            v@ == Seq::new(i as nat, |j: int| 0u8),
        decreases n - i,
    {
        v.push(0);
        i = i + 1;
    }
    v
}

/// The wire bytes of `msg`, encoded into a fresh buffer of `buf_len`
/// bytes: `UnexpectedEof` when they do not fit.
pub fn encode_request(msg: &MagmaProtocol, buf_len: usize) -> (r: Result<Vec<u8>, EncodeError>)
    ensures
        msg_bytes(*msg).len() <= buf_len ==> r is Ok && r->Ok_0@ == msg_bytes(*msg),
        msg_bytes(*msg).len() > buf_len ==> r == Err::<Vec<u8>, EncodeError>(EncodeError::UnexpectedEof),
{
    let mut encoder = Encoder::new(zero_buffer(buf_len));
    let r = encoder.encode_msg(msg);
    match r {
        Err(e) => {
            return Err(e);
        },
        Ok(()) => {},
    }
    let written = encoder.bytes_written();
    let mut v = encoder.into_inner();
    v.truncate(written);
    proof {
        assert(v@ =~= msg_bytes(*msg));
    }
    Ok(v)
}

/// A device that speaks this protocol over virtio-gpu, on its physical
/// device.
pub struct VirtGpu<P> {
    physical_device: std::sync::Arc<P>,
}

impl<P> VirtGpu<P> {
    /// The physical device of the device.
    pub closed spec fn spec_physical_device(&self) -> std::sync::Arc<P> {
        self.physical_device
    }

    /// The device on `physical_device`.
    pub fn new(physical_device: std::sync::Arc<P>) -> (r: Result<VirtGpu<P>, EncodeError>)
        ensures
            r is Ok,
            r->Ok_0.spec_physical_device() == physical_device,
    {
        Ok(VirtGpu { physical_device })
    }

    /// The command that asks for the budget of heap `heap_idx`, encoded
    /// into a buffer of 256 bytes.
    pub fn get_memory_budget_cmd(&self, heap_idx: u32) -> (r: Result<Vec<u8>, EncodeError>)
        ensures
            r is Ok,
            r->Ok_0@ == get_memory_budget_req_bytes(heap_idx),
    {
        let req = get_memory_budget_req(heap_idx);
        proof {
            req.lemma_bytes_len();
        }
        encode_request(&MagmaProtocol::GetMemoryBudget(req), 256)
    }

    /// The command that asks for the memory properties, encoded into a
    /// buffer of 256 bytes.
    pub fn get_memory_properties_cmd(&self) -> (r: Result<Vec<u8>, EncodeError>)
        ensures
            r is Ok,
            r->Ok_0@.len() == GetMemoryPropertiesReq::wire_size(),
    {
        let req = get_memory_properties_req();
        proof {
            req.lemma_bytes_len();
        }
        encode_request(&MagmaProtocol::GetMemoryProperties(req), 256)
    }

    /// The command that creates a context, encoded into a buffer of 256
    /// bytes.
    pub fn create_context_cmd(&self) -> (r: Result<Vec<u8>, EncodeError>)
        ensures
            r is Ok,
            r->Ok_0@.len() == CreateContextReq::wire_size(),
    {
        let req = create_context_req();
        proof {
            req.lemma_bytes_len();
        }
        encode_request(&MagmaProtocol::CreateContext(req), 256)
    }

    /// The command that creates a buffer as `create_info` asks, encoded
    /// into a buffer of 512 bytes.
    pub fn create_buffer_cmd(&self, create_info: &MagmaCreateBufferInfo) -> (r: Result<Vec<u8>, EncodeError>)
        ensures
            r is Ok,
            r->Ok_0@ == (CreateBufferReq {
                header: MagmaCommandHeader { opcode: MAGMA_OPCODE_CREATE_BUFFER, size: 48 },
                device: 0,
                _pad0: 0,
                info: *create_info,
            }).spec_bytes(),
    {
        let req = create_buffer_req(create_info);
        proof {
            req.lemma_bytes_len();
        }
        encode_request(&MagmaProtocol::CreateBuffer(req), 512)
    }
}

/// The wire bytes of the request for the budget of heap `heap_idx`.
pub open spec fn get_memory_budget_req_bytes(heap_idx: u32) -> Seq<u8> {
    GetMemoryBudgetReq {
        header: MagmaCommandHeader { opcode: MAGMA_OPCODE_GET_MEMORY_BUDGET, size: 16 },
        device: 0,
        heap_idx,
    }.spec_bytes()
}

} // verus!
