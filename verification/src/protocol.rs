//! The magma wire protocol: opcodes, tags, flag sets and the structures that
//! travel between guest and host.
use vstd::prelude::*;

verus! {

pub const MAGMA_OPCODE_CREATE_DEVICE: u32 = 2;
pub const MAGMA_OPCODE_GET_MEMORY_BUDGET: u32 = 3;
pub const MAGMA_OPCODE_CREATE_BUFFER: u32 = 4;
pub const MAGMA_OPCODE_CREATE_ADDRESS_SPACE: u32 = 5;
pub const MAGMA_OPCODE_CREATE_QUEUE: u32 = 6;
pub const MAGMA_OPCODE_DEVICE_CLOSE: u32 = 7;
pub const MAGMA_OPCODE_PHYSICAL_DEVICE_CLOSE: u32 = 8;
pub const MAGMA_OPCODE_BUFFER_CLOSE: u32 = 9;
pub const MAGMA_OPCODE_QUEUE_CLOSE: u32 = 10;
pub const MAGMA_OPCODE_ADDRESS_SPACE_CLOSE: u32 = 11;
pub const MAGMA_OPCODE_VIRTIO_CREATE_RING: u32 = 12;
pub const MAGMA_OPCODE_MAP_BUFFER_GPU: u32 = 13;
pub const MAGMA_OPCODE_UNMAP_BUFFER_GPU: u32 = 14;
pub const MAGMA_OPCODE_SUBMIT_COMMAND: u32 = 15;
pub const MAGMA_OPCODE_CREATE_SYNC_OBJ: u32 = 16;
pub const MAGMA_OPCODE_SYNC_OBJ_CLOSE: u32 = 17;
pub const MAGMA_OPCODE_SYNC_OBJ_SIGNAL: u32 = 19;
pub const MAGMA_OPCODE_SYNC_OBJ_TIMELINE_WAIT: u32 = 20;
pub const MAGMA_OPCODE_SYNC_OBJ_TIMELINE_SIGNAL: u32 = 21;
pub const MAGMA_OPCODE_SYNC_OBJ_TIMELINE_QUERY: u32 = 22;
pub const MAGMA_OPCODE_QUEUE_CHECK_STATUS: u32 = 26;
pub const MAGMA_OPCODE_VIRTIO_PING: u32 = 33;
pub const MAGMA_OPCODE_VIRTIO_CREATE_FENCE: u32 = 34;
pub const MAGMA_OPCODE_VIRTIO_SYNC_OBJ_CLOSE: u32 = 35;

pub const MAGMA_OPCODE_RESP_CREATE_DEVICE: u32 = 0x8000_0002;
pub const MAGMA_OPCODE_RESP_GET_MEMORY_BUDGET: u32 = 0x8000_0003;
pub const MAGMA_OPCODE_RESP_CREATE_BUFFER: u32 = 0x8000_0004;
pub const MAGMA_OPCODE_RESP_CREATE_ADDRESS_SPACE: u32 = 0x8000_0005;
pub const MAGMA_OPCODE_RESP_CREATE_QUEUE: u32 = 0x8000_0006;
pub const MAGMA_OPCODE_RESP_MAP_BUFFER_GPU: u32 = 0x8000_000d;
pub const MAGMA_OPCODE_RESP_UNMAP_BUFFER_GPU: u32 = 0x8000_000e;
pub const MAGMA_OPCODE_RESP_SUBMIT_COMMAND: u32 = 0x8000_000f;
pub const MAGMA_OPCODE_RESP_CREATE_SYNC_OBJ: u32 = 0x8000_0010;
pub const MAGMA_OPCODE_RESP_SYNC_OBJ_SIGNAL: u32 = 0x8000_0013;
pub const MAGMA_OPCODE_RESP_SYNC_OBJ_TIMELINE_WAIT: u32 = 0x8000_0014;
pub const MAGMA_OPCODE_RESP_SYNC_OBJ_TIMELINE_SIGNAL: u32 = 0x8000_0015;
pub const MAGMA_OPCODE_RESP_SYNC_OBJ_TIMELINE_QUERY: u32 = 0x8000_0016;
pub const MAGMA_OPCODE_RESP_QUEUE_CHECK_STATUS: u32 = 0x8000_001a;

pub const MAGMA_MAX_SYNCOBJS: usize = 16;
pub const MAGMA_MAX_PHYSICAL_DEVICES: usize = 8;
pub const MAGMA_MAX_MEMORY_HEAPS: usize = 32;
pub const MAGMA_MAX_MEMORY_TYPES: usize = 16;
pub const MAGMA_MAX_QUEUES: usize = 16;

pub const MAGMA_STRUCTURE_TYPE_CREATE_BUFFER_INFO: u32 = 1;
pub const MAGMA_STRUCTURE_TYPE_DEVICE_CREATE_INFO: u32 = 2;
pub const MAGMA_STRUCTURE_TYPE_SUBMIT_SYNC_INFO: u32 = 3;
pub const MAGMA_STRUCTURE_TYPE_SUBMIT_INFO: u32 = 4;
pub const MAGMA_STRUCTURE_TYPE_SUBMIT_ADDRESS_SPACE_INFO: u32 = 5;
pub const MAGMA_STRUCTURE_TYPE_SUBMIT_BUFFER_INFO: u32 = 6;
pub const MAGMA_STRUCTURE_TYPE_CREATE_SYNC_OBJ_INFO: u32 = 7;
pub const MAGMA_STRUCTURE_TYPE_SYNC_PROPERTIES: u32 = 8;
pub const MAGMA_STRUCTURE_TYPE_VIRT_CAPABILITIES: u32 = 65537;
pub const MAGMA_STRUCTURE_TYPE_PHYSICAL_DEVICE_INFO: u32 = 65538;
pub const MAGMA_STRUCTURE_TYPE_PHYSICAL_DEVICE_MEMORY_TYPE: u32 = 65539;
pub const MAGMA_STRUCTURE_TYPE_PHYSICAL_DEVICE_MEMORY_HEAP: u32 = 65540;

/// PCI vendor of a physical device.
#[derive(Debug, Clone, Copy, PartialEq, Eq, Structural, Default)]
pub enum MagmaVendorId {
    #[default]
    Undefined,
    Amd,
    Arm,
    VirtGpu,
    Qualcomm,
    Intel,
}

impl MagmaVendorId {
    /// The number that stands for this value on the wire.
    pub open spec fn spec_raw(self) -> u16 {
        match self {
            MagmaVendorId::Undefined => 0,
            MagmaVendorId::Amd => 4098,
            MagmaVendorId::Arm => 5045,
            MagmaVendorId::VirtGpu => 6900,
            MagmaVendorId::Qualcomm => 21523,
            MagmaVendorId::Intel => 32902,
        }
    }

    /// The number that stands for this value on the wire.
    pub fn raw(&self) -> (r: u16)
        ensures
            r == self.spec_raw(),
    {
        match self {
            MagmaVendorId::Undefined => 0,
            MagmaVendorId::Amd => 4098,
            MagmaVendorId::Arm => 5045,
            MagmaVendorId::VirtGpu => 6900,
            MagmaVendorId::Qualcomm => 21523,
            MagmaVendorId::Intel => 32902,
        }
    }

    /// The value that `v` stands for, if any.
    pub open spec fn spec_from_raw(v: u16) -> Option<Self> {
        if v == 0 {
            Some(MagmaVendorId::Undefined)
        } else if v == 4098 {
            Some(MagmaVendorId::Amd)
        } else if v == 5045 {
            Some(MagmaVendorId::Arm)
        } else if v == 6900 {
            Some(MagmaVendorId::VirtGpu)
        } else if v == 21523 {
            Some(MagmaVendorId::Qualcomm)
        } else if v == 32902 {
            Some(MagmaVendorId::Intel)
        } else {
            None
        }
    }

    /// The value that `v` stands for; `None` for a number that stands for none.
    pub fn from_raw(v: u16) -> (r: Option<Self>)
        ensures
            r == Self::spec_from_raw(v),
            r.is_some() ==> r.unwrap().spec_raw() == v,
    {
        if v == 0 {
            Some(MagmaVendorId::Undefined)
        } else if v == 4098 {
            Some(MagmaVendorId::Amd)
        } else if v == 5045 {
            Some(MagmaVendorId::Arm)
        } else if v == 6900 {
            Some(MagmaVendorId::VirtGpu)
        } else if v == 21523 {
            Some(MagmaVendorId::Qualcomm)
        } else if v == 32902 {
            Some(MagmaVendorId::Intel)
        } else {
            None
        }
    }
}

/// Status code returned across the API boundary.
#[derive(Debug, Clone, Copy, PartialEq, Eq, Structural, Default)]
pub enum MagmaStatus {
    #[default]
    Success,
    InternalError,
    InvalidArgs,
    AccessDenied,
    MemoryError,
    ContextKilled,
    TimedOut,
    Unimplemented,
}

impl MagmaStatus {
    /// The number that stands for this value on the wire.
    pub open spec fn spec_raw(self) -> i32 {
        match self {
            MagmaStatus::Success => 0,
            MagmaStatus::InternalError => -1i32,
            MagmaStatus::InvalidArgs => -2i32,
            MagmaStatus::AccessDenied => -3i32,
            MagmaStatus::MemoryError => -4i32,
            MagmaStatus::ContextKilled => -5i32,
            MagmaStatus::TimedOut => -6i32,
            MagmaStatus::Unimplemented => -7i32,
        }
    }

    /// The number that stands for this value on the wire.
    pub fn raw(&self) -> (r: i32)
        ensures
            r == self.spec_raw(),
    {
        match self {
            MagmaStatus::Success => 0,
            MagmaStatus::InternalError => -1i32,
            MagmaStatus::InvalidArgs => -2i32,
            MagmaStatus::AccessDenied => -3i32,
            MagmaStatus::MemoryError => -4i32,
            MagmaStatus::ContextKilled => -5i32,
            MagmaStatus::TimedOut => -6i32,
            MagmaStatus::Unimplemented => -7i32,
        }
    }

    /// The value that `v` stands for, if any.
    pub open spec fn spec_from_raw(v: i32) -> Option<Self> {
        if v == 0 {
            Some(MagmaStatus::Success)
        } else if v == -1i32 {
            Some(MagmaStatus::InternalError)
        } else if v == -2i32 {
            Some(MagmaStatus::InvalidArgs)
        } else if v == -3i32 {
            Some(MagmaStatus::AccessDenied)
        } else if v == -4i32 {
            Some(MagmaStatus::MemoryError)
        } else if v == -5i32 {
            Some(MagmaStatus::ContextKilled)
        } else if v == -6i32 {
            Some(MagmaStatus::TimedOut)
        } else if v == -7i32 {
            Some(MagmaStatus::Unimplemented)
        } else {
            None
        }
    }

    /// The value that `v` stands for; `None` for a number that stands for none.
    pub fn from_raw(v: i32) -> (r: Option<Self>)
        ensures
            r == Self::spec_from_raw(v),
            r.is_some() ==> r.unwrap().spec_raw() == v,
    {
        if v == 0 {
            Some(MagmaStatus::Success)
        } else if v == -1i32 {
            Some(MagmaStatus::InternalError)
        } else if v == -2i32 {
            Some(MagmaStatus::InvalidArgs)
        } else if v == -3i32 {
            Some(MagmaStatus::AccessDenied)
        } else if v == -4i32 {
            Some(MagmaStatus::MemoryError)
        } else if v == -5i32 {
            Some(MagmaStatus::ContextKilled)
        } else if v == -6i32 {
            Some(MagmaStatus::TimedOut)
        } else if v == -7i32 {
            Some(MagmaStatus::Unimplemented)
        } else {
            None
        }
    }
}

/// Where the host prefers blob memory to live.
#[derive(Debug, Clone, Copy, PartialEq, Eq, Structural, Default)]
pub enum VirtioGpuBlobPreference {
    #[default]
    Undefined,
    Guest,
    Host,
}

impl VirtioGpuBlobPreference {
    /// The number that stands for this value on the wire.
    pub open spec fn spec_raw(self) -> u32 {
        match self {
            VirtioGpuBlobPreference::Undefined => 0,
            VirtioGpuBlobPreference::Guest => 1,
            VirtioGpuBlobPreference::Host => 2,
        }
    }

    /// The number that stands for this value on the wire.
    pub fn raw(&self) -> (r: u32)
        ensures
            r == self.spec_raw(),
    {
        match self {
            VirtioGpuBlobPreference::Undefined => 0,
            VirtioGpuBlobPreference::Guest => 1,
            VirtioGpuBlobPreference::Host => 2,
        }
    }

    /// The value that `v` stands for, if any.
    pub open spec fn spec_from_raw(v: u32) -> Option<Self> {
        if v == 0 {
            Some(VirtioGpuBlobPreference::Undefined)
        } else if v == 1 {
            Some(VirtioGpuBlobPreference::Guest)
        } else if v == 2 {
            Some(VirtioGpuBlobPreference::Host)
        } else {
            None
        }
    }

    /// The value that `v` stands for; `None` for a number that stands for none.
    pub fn from_raw(v: u32) -> (r: Option<Self>)
        ensures
            r == Self::spec_from_raw(v),
            r.is_some() ==> r.unwrap().spec_raw() == v,
    {
        if v == 0 {
            Some(VirtioGpuBlobPreference::Undefined)
        } else if v == 1 {
            Some(VirtioGpuBlobPreference::Guest)
        } else if v == 2 {
            Some(VirtioGpuBlobPreference::Host)
        } else {
            None
        }
    }
}

/// Kind of a sync object.
#[derive(Debug, Clone, Copy, PartialEq, Eq, Structural, Default)]
pub enum MagmaSyncObjType {
    #[default]
    Binary,
    Timeline,
}

impl MagmaSyncObjType {
    /// The number that stands for this value on the wire.
    pub open spec fn spec_raw(self) -> u32 {
        match self {
            MagmaSyncObjType::Binary => 0,
            MagmaSyncObjType::Timeline => 1,
        }
    }

    /// The number that stands for this value on the wire.
    pub fn raw(&self) -> (r: u32)
        ensures
            r == self.spec_raw(),
    {
        match self {
            MagmaSyncObjType::Binary => 0,
            MagmaSyncObjType::Timeline => 1,
        }
    }

    /// The value that `v` stands for, if any.
    pub open spec fn spec_from_raw(v: u32) -> Option<Self> {
        if v == 0 {
            Some(MagmaSyncObjType::Binary)
        } else if v == 1 {
            Some(MagmaSyncObjType::Timeline)
        } else {
            None
        }
    }

    /// The value that `v` stands for; `None` for a number that stands for none.
    pub fn from_raw(v: u32) -> (r: Option<Self>)
        ensures
            r == Self::spec_from_raw(v),
            r.is_some() ==> r.unwrap().spec_raw() == v,
    {
        if v == 0 {
            Some(MagmaSyncObjType::Binary)
        } else if v == 1 {
            Some(MagmaSyncObjType::Timeline)
        } else {
            None
        }
    }
}

/// Tag carried in the header of every extensible structure.
#[derive(Debug, Clone, Copy, PartialEq, Eq, Structural)]
pub enum MagmaStructureType {
    CreateBufferInfo,
    DeviceCreateInfo,
    SubmitSyncInfo,
    SubmitInfo,
    SubmitAddressSpaceInfo,
    SubmitBufferInfo,
    CreateSyncObjInfo,
    SyncProperties,
    VirtCapabilities,
    PhysicalDeviceInfo,
    PhysicalDeviceMemoryType,
    PhysicalDeviceMemoryHeap,
}

impl MagmaStructureType {
    /// The number that stands for this value on the wire.
    pub open spec fn spec_raw(self) -> u32 {
        match self {
            MagmaStructureType::CreateBufferInfo => 1,
            MagmaStructureType::DeviceCreateInfo => 2,
            MagmaStructureType::SubmitSyncInfo => 3,
            MagmaStructureType::SubmitInfo => 4,
            MagmaStructureType::SubmitAddressSpaceInfo => 5,
            MagmaStructureType::SubmitBufferInfo => 6,
            MagmaStructureType::CreateSyncObjInfo => 7,
            MagmaStructureType::SyncProperties => 8,
            MagmaStructureType::VirtCapabilities => 65537,
            MagmaStructureType::PhysicalDeviceInfo => 65538,
            MagmaStructureType::PhysicalDeviceMemoryType => 65539,
            MagmaStructureType::PhysicalDeviceMemoryHeap => 65540,
        }
    }

    /// The number that stands for this value on the wire.
    pub fn raw(&self) -> (r: u32)
        ensures
            r == self.spec_raw(),
    {
        match self {
            MagmaStructureType::CreateBufferInfo => 1,
            MagmaStructureType::DeviceCreateInfo => 2,
            MagmaStructureType::SubmitSyncInfo => 3,
            MagmaStructureType::SubmitInfo => 4,
            MagmaStructureType::SubmitAddressSpaceInfo => 5,
            MagmaStructureType::SubmitBufferInfo => 6,
            MagmaStructureType::CreateSyncObjInfo => 7,
            MagmaStructureType::SyncProperties => 8,
            MagmaStructureType::VirtCapabilities => 65537,
            MagmaStructureType::PhysicalDeviceInfo => 65538,
            MagmaStructureType::PhysicalDeviceMemoryType => 65539,
            MagmaStructureType::PhysicalDeviceMemoryHeap => 65540,
        }
    }

    /// The value that `v` stands for, if any.
    pub open spec fn spec_from_raw(v: u32) -> Option<Self> {
        if v == 1 {
            Some(MagmaStructureType::CreateBufferInfo)
        } else if v == 2 {
            Some(MagmaStructureType::DeviceCreateInfo)
        } else if v == 3 {
            Some(MagmaStructureType::SubmitSyncInfo)
        } else if v == 4 {
            Some(MagmaStructureType::SubmitInfo)
        } else if v == 5 {
            Some(MagmaStructureType::SubmitAddressSpaceInfo)
        } else if v == 6 {
            Some(MagmaStructureType::SubmitBufferInfo)
        } else if v == 7 {
            Some(MagmaStructureType::CreateSyncObjInfo)
        } else if v == 8 {
            Some(MagmaStructureType::SyncProperties)
        } else if v == 65537 {
            Some(MagmaStructureType::VirtCapabilities)
        } else if v == 65538 {
            Some(MagmaStructureType::PhysicalDeviceInfo)
        } else if v == 65539 {
            Some(MagmaStructureType::PhysicalDeviceMemoryType)
        } else if v == 65540 {
            Some(MagmaStructureType::PhysicalDeviceMemoryHeap)
        } else {
            None
        }
    }

    /// The value that `v` stands for; `None` for a number that stands for none.
    pub fn from_raw(v: u32) -> (r: Option<Self>)
        ensures
            r == Self::spec_from_raw(v),
            r.is_some() ==> r.unwrap().spec_raw() == v,
    {
        if v == 1 {
            Some(MagmaStructureType::CreateBufferInfo)
        } else if v == 2 {
            Some(MagmaStructureType::DeviceCreateInfo)
        } else if v == 3 {
            Some(MagmaStructureType::SubmitSyncInfo)
        } else if v == 4 {
            Some(MagmaStructureType::SubmitInfo)
        } else if v == 5 {
            Some(MagmaStructureType::SubmitAddressSpaceInfo)
        } else if v == 6 {
            Some(MagmaStructureType::SubmitBufferInfo)
        } else if v == 7 {
            Some(MagmaStructureType::CreateSyncObjInfo)
        } else if v == 8 {
            Some(MagmaStructureType::SyncProperties)
        } else if v == 65537 {
            Some(MagmaStructureType::VirtCapabilities)
        } else if v == 65538 {
            Some(MagmaStructureType::PhysicalDeviceInfo)
        } else if v == 65539 {
            Some(MagmaStructureType::PhysicalDeviceMemoryType)
        } else if v == 65540 {
            Some(MagmaStructureType::PhysicalDeviceMemoryHeap)
        } else {
            None
        }
    }
}

/// Set of memory property bits.
#[derive(Debug, Clone, Copy, PartialEq, Eq, Structural, Default)]
pub struct MagmaMemoryProperty(u32);

impl MagmaMemoryProperty {
    /// The raw bits of the set.
    pub closed spec fn spec_bits(self) -> u32 {
        self.0
    }

    /// The set holding exactly the given bits, known or not.
    pub fn from_bits_retain(bits: u32) -> (r: Self)
        ensures
            r.spec_bits() == bits,
    {
        MagmaMemoryProperty(bits)
    }

    /// The empty set.
    pub fn empty() -> (r: Self)
        ensures
            r.spec_bits() == 0,
    {
        MagmaMemoryProperty(0)
    }

    /// The raw bits of the set.
    pub fn bits(&self) -> (r: u32)
        ensures
            r == self.spec_bits(),
    {
        self.0
    }

    /// Whether no bit is set.
    pub fn is_empty(&self) -> (r: bool)
        ensures
            r == (self.spec_bits() == 0),
    {
        self.0 == 0
    }

    /// Whether every bit of `other` is set in `self`.
    pub fn contains(&self, other: Self) -> (r: bool)
        ensures
            r == (self.spec_bits() & other.spec_bits() == other.spec_bits()),
    {
        self.0 & other.0 == other.0
    }

    /// The bits set in either set.
    pub fn union(self, other: Self) -> (r: Self)
        ensures
            r.spec_bits() == self.spec_bits() | other.spec_bits(),
    {
        MagmaMemoryProperty(self.0 | other.0)
    }
}

/// Set of queue capability bits.
#[derive(Debug, Clone, Copy, PartialEq, Eq, Structural, Default)]
pub struct MagmaQueueFlags(u32);

impl MagmaQueueFlags {
    /// The raw bits of the set.
    pub closed spec fn spec_bits(self) -> u32 {
        self.0
    }

    /// The set holding exactly the given bits, known or not.
    pub fn from_bits_retain(bits: u32) -> (r: Self)
        ensures
            r.spec_bits() == bits,
    {
        MagmaQueueFlags(bits)
    }

    /// The empty set.
    pub fn empty() -> (r: Self)
        ensures
            r.spec_bits() == 0,
    {
        MagmaQueueFlags(0)
    }

    /// The raw bits of the set.
    pub fn bits(&self) -> (r: u32)
        ensures
            r == self.spec_bits(),
    {
        self.0
    }

    /// Whether no bit is set.
    pub fn is_empty(&self) -> (r: bool)
        ensures
            r == (self.spec_bits() == 0),
    {
        self.0 == 0
    }

    /// Whether every bit of `other` is set in `self`.
    pub fn contains(&self, other: Self) -> (r: bool)
        ensures
            r == (self.spec_bits() & other.spec_bits() == other.spec_bits()),
    {
        self.0 & other.0 == other.0
    }

    /// The bits set in either set.
    pub fn union(self, other: Self) -> (r: Self)
        ensures
            r.spec_bits() == self.spec_bits() | other.spec_bits(),
    {
        MagmaQueueFlags(self.0 | other.0)
    }
}

/// Set of GPU mapping permission bits.
#[derive(Debug, Clone, Copy, PartialEq, Eq, Structural, Default)]
pub struct MagmaGpuMapFlags(u64);

impl MagmaGpuMapFlags {
    /// The raw bits of the set.
    pub closed spec fn spec_bits(self) -> u64 {
        self.0
    }

    /// The set holding exactly the given bits, known or not.
    pub fn from_bits_retain(bits: u64) -> (r: Self)
        ensures
            r.spec_bits() == bits,
    {
        MagmaGpuMapFlags(bits)
    }

    /// The empty set.
    pub fn empty() -> (r: Self)
        ensures
            r.spec_bits() == 0,
    {
        MagmaGpuMapFlags(0)
    }

    /// The raw bits of the set.
    pub fn bits(&self) -> (r: u64)
        ensures
            r == self.spec_bits(),
    {
        self.0
    }

    /// Whether no bit is set.
    pub fn is_empty(&self) -> (r: bool)
        ensures
            r == (self.spec_bits() == 0),
    {
        self.0 == 0
    }

    /// Whether every bit of `other` is set in `self`.
    pub fn contains(&self, other: Self) -> (r: bool)
        ensures
            r == (self.spec_bits() & other.spec_bits() == other.spec_bits()),
    {
        self.0 & other.0 == other.0
    }

    /// The bits set in either set.
    pub fn union(self, other: Self) -> (r: Self)
        ensures
            r.spec_bits() == self.spec_bits() | other.spec_bits(),
    {
        MagmaGpuMapFlags(self.0 | other.0)
    }
}

/// Set of buffer allocation bits.
#[derive(Debug, Clone, Copy, PartialEq, Eq, Structural, Default)]
pub struct MagmaBufferFlag(u32);

impl MagmaBufferFlag {
    /// The raw bits of the set.
    pub closed spec fn spec_bits(self) -> u32 {
        self.0
    }

    /// The set holding exactly the given bits, known or not.
    pub fn from_bits_retain(bits: u32) -> (r: Self)
        ensures
            r.spec_bits() == bits,
    {
        MagmaBufferFlag(bits)
    }

    /// The empty set.
    pub fn empty() -> (r: Self)
        ensures
            r.spec_bits() == 0,
    {
        MagmaBufferFlag(0)
    }

    /// The raw bits of the set.
    pub fn bits(&self) -> (r: u32)
        ensures
            r == self.spec_bits(),
    {
        self.0
    }

    /// Whether no bit is set.
    pub fn is_empty(&self) -> (r: bool)
        ensures
            r == (self.spec_bits() == 0),
    {
        self.0 == 0
    }

    /// Whether every bit of `other` is set in `self`.
    pub fn contains(&self, other: Self) -> (r: bool)
        ensures
            r == (self.spec_bits() & other.spec_bits() == other.spec_bits()),
    {
        self.0 & other.0 == other.0
    }

    /// The bits set in either set.
    pub fn union(self, other: Self) -> (r: Self)
        ensures
            r.spec_bits() == self.spec_bits() | other.spec_bits(),
    {
        MagmaBufferFlag(self.0 | other.0)
    }
}

/// Set of sync capability bits.
#[derive(Debug, Clone, Copy, PartialEq, Eq, Structural, Default)]
pub struct MagmaSyncCapability(u32);

impl MagmaSyncCapability {
    /// The raw bits of the set.
    pub closed spec fn spec_bits(self) -> u32 {
        self.0
    }

    /// The set holding exactly the given bits, known or not.
    pub fn from_bits_retain(bits: u32) -> (r: Self)
        ensures
            r.spec_bits() == bits,
    {
        MagmaSyncCapability(bits)
    }

    /// The empty set.
    pub fn empty() -> (r: Self)
        ensures
            r.spec_bits() == 0,
    {
        MagmaSyncCapability(0)
    }

    /// The raw bits of the set.
    pub fn bits(&self) -> (r: u32)
        ensures
            r == self.spec_bits(),
    {
        self.0
    }

    /// Whether no bit is set.
    pub fn is_empty(&self) -> (r: bool)
        ensures
            r == (self.spec_bits() == 0),
    {
        self.0 == 0
    }

    /// Whether every bit of `other` is set in `self`.
    pub fn contains(&self, other: Self) -> (r: bool)
        ensures
            r == (self.spec_bits() & other.spec_bits() == other.spec_bits()),
    {
        self.0 & other.0 == other.0
    }

    /// The bits set in either set.
    pub fn union(self, other: Self) -> (r: Self)
        ensures
            r.spec_bits() == self.spec_bits() | other.spec_bits(),
    {
        MagmaSyncCapability(self.0 | other.0)
    }
}

/// Set of sync object usage bits.
#[derive(Debug, Clone, Copy, PartialEq, Eq, Structural, Default)]
pub struct MagmaSyncObjUseFlags(u32);

impl MagmaSyncObjUseFlags {
    /// The raw bits of the set.
    pub closed spec fn spec_bits(self) -> u32 {
        self.0
    }

    /// The set holding exactly the given bits, known or not.
    pub fn from_bits_retain(bits: u32) -> (r: Self)
        ensures
            r.spec_bits() == bits,
    {
        MagmaSyncObjUseFlags(bits)
    }

    /// The empty set.
    pub fn empty() -> (r: Self)
        ensures
            r.spec_bits() == 0,
    {
        MagmaSyncObjUseFlags(0)
    }

    /// The raw bits of the set.
    pub fn bits(&self) -> (r: u32)
        ensures
            r == self.spec_bits(),
    {
        self.0
    }

    /// Whether no bit is set.
    pub fn is_empty(&self) -> (r: bool)
        ensures
            r == (self.spec_bits() == 0),
    {
        self.0 == 0
    }

    /// Whether every bit of `other` is set in `self`.
    pub fn contains(&self, other: Self) -> (r: bool)
        ensures
            r == (self.spec_bits() & other.spec_bits() == other.spec_bits()),
    {
        self.0 & other.0 == other.0
    }

    /// The bits set in either set.
    pub fn union(self, other: Self) -> (r: Self)
        ensures
            r.spec_bits() == self.spec_bits() | other.spec_bits(),
    {
        MagmaSyncObjUseFlags(self.0 | other.0)
    }
}

/// Set of OS handle type bits.
#[derive(Debug, Clone, Copy, PartialEq, Eq, Structural, Default)]
pub struct MagmaHandleType(u32);

impl MagmaHandleType {
    /// The raw bits of the set.
    pub closed spec fn spec_bits(self) -> u32 {
        self.0
    }

    /// The set holding exactly the given bits, known or not.
    pub fn from_bits_retain(bits: u32) -> (r: Self)
        ensures
            r.spec_bits() == bits,
    {
        MagmaHandleType(bits)
    }

    /// The empty set.
    pub fn empty() -> (r: Self)
        ensures
            r.spec_bits() == 0,
    {
        MagmaHandleType(0)
    }

    /// The raw bits of the set.
    pub fn bits(&self) -> (r: u32)
        ensures
            r == self.spec_bits(),
    {
        self.0
    }

    /// Whether no bit is set.
    pub fn is_empty(&self) -> (r: bool)
        ensures
            r == (self.spec_bits() == 0),
    {
        self.0 == 0
    }

    /// Whether every bit of `other` is set in `self`.
    pub fn contains(&self, other: Self) -> (r: bool)
        ensures
            r == (self.spec_bits() & other.spec_bits() == other.spec_bits()),
    {
        self.0 & other.0 == other.0
    }

    /// The bits set in either set.
    pub fn union(self, other: Self) -> (r: Self)
        ensures
            r.spec_bits() == self.spec_bits() | other.spec_bits(),
    {
        MagmaHandleType(self.0 | other.0)
    }
}

#[derive(Clone, Copy, Debug, Default)]
pub struct MagmaHeap {
    pub heap_size: u64,
    pub heap_flags: u64,
}

#[derive(Clone, Copy, Debug, Default)]
pub struct MagmaHeapBudget {
    pub budget: u64,
    pub usage: u64,
}

#[derive(Clone, Copy, Debug, Default)]
pub struct MagmaMemoryType {
    pub property_flags: u32,
    pub heap_idx: u32,
}

#[derive(Clone, Copy, Debug, Default)]
pub struct MagmaPciBusInfo {
    pub domain: u16,
    pub subvendor_id: u16,
    pub subdevice_id: u16,
    pub revision_id: u8,
    pub bus: u8,
    pub device: u8,
    pub function: u8,
    pub _padding: [u8; 6],
}

#[derive(Clone, Copy, Debug, Default)]
pub struct MagmaCreateQueueInfo {
    pub queue_family_idx: u32,
    pub priority: u32,
    pub flags: u32,
    pub _padding: u32,
}

#[derive(Clone, Copy, Debug, Default)]
pub struct MagmaQueueFamilyProperties {
    pub queue_flags: MagmaQueueFlags,
    pub queue_count: u32,
}

#[derive(Clone, Copy, Debug, Default)]
pub struct MagmaStructureTypeHeader {
    pub stype: u32,
    pub size: u32,
    pub p_next: u64,
}

#[derive(Clone, Copy, Debug, Default)]
pub struct MagmaCreateBufferInfo {
    pub header: MagmaStructureTypeHeader,
    pub memory_type_idx: u32,
    pub alignment: u32,
    pub common_flags: u32,
    pub vendor_flags: u32,
    pub size: u64,
}

#[derive(Clone, Copy, Debug, Default)]
pub struct MagmaDeviceCreateInfo {
    pub header: MagmaStructureTypeHeader,
    pub flags: u32,
    pub _padding: u32,
}

#[derive(Clone, Copy, Debug, Default)]
pub struct MagmaWireSubmitSyncInfo {
    pub header: MagmaStructureTypeHeader,
    pub num_wait_sync_objs: u32,
    pub num_signal_sync_objs: u32,
    pub wait_sync_objs: [u32; MAGMA_MAX_SYNCOBJS],
    pub signal_sync_objs: [u32; MAGMA_MAX_SYNCOBJS],
    pub wait_points: [u64; MAGMA_MAX_SYNCOBJS],
    pub signal_points: [u64; MAGMA_MAX_SYNCOBJS],
}

#[derive(Clone, Copy, Debug, Default)]
pub struct MagmaWireSubmitInfo {
    pub header: MagmaStructureTypeHeader,
    pub flags: u32,
    pub _pad0: u32,
    pub sync_info: MagmaWireSubmitSyncInfo,
}

#[derive(Clone, Copy, Debug, Default)]
pub struct MagmaSubmitAddressSpaceInfo {
    pub header: MagmaStructureTypeHeader,
    pub command_va: u64,
    pub length: u64,
}

#[derive(Clone, Copy, Debug, Default)]
pub struct MagmaWireSubmitBufferInfo {
    pub header: MagmaStructureTypeHeader,
    pub command_buffer: u32,
    pub _pad0: u32,
    pub start_offset: u64,
    pub length: u64,
}

#[derive(Clone, Copy, Debug, Default)]
pub struct MagmaCreateSyncObjInfo {
    pub header: MagmaStructureTypeHeader,
    pub sync_type: u32,
    pub use_flags: MagmaSyncObjUseFlags,
    pub initial_point: u64,
}

#[derive(Clone, Copy, Debug, Default)]
pub struct MagmaSyncProperties {
    pub header: MagmaStructureTypeHeader,
    pub capabilities: u32,
    pub _pad0: u32,
    pub max_timeline_value_difference: u64,
}

#[derive(Clone, Copy, Debug, Default)]
pub struct MagmaVirtCapabilities {
    pub header: MagmaStructureTypeHeader,
    pub capset_version: u32,
    pub num_physical_devices: u32,
    pub blob_preference: VirtioGpuBlobPreference,
    pub _pad0: u32,
    pub ring_buffer_len: u64,
}

#[derive(Clone, Copy, Debug, Default)]
pub struct MagmaPhysicalDeviceInfo {
    pub header: MagmaStructureTypeHeader,
    pub bus_type: u32,
    pub vendor_id: MagmaVendorId,
    pub device_id: u16,
    pub flags: u32,
    pub pci_bus_info: MagmaPciBusInfo,
    pub queue_family_count: u32,
    pub queue_families: [MagmaQueueFamilyProperties; MAGMA_MAX_QUEUES],
}

#[derive(Clone, Copy, Debug, Default)]
pub struct MagmaPhysicalDeviceMemoryType {
    pub header: MagmaStructureTypeHeader,
    pub property_flags: u32,
    pub heap_idx: u32,
}

#[derive(Clone, Copy, Debug, Default)]
pub struct MagmaPhysicalDeviceMemoryHeap {
    pub header: MagmaStructureTypeHeader,
    pub heap_size: u64,
    pub heap_flags: u64,
}

#[derive(Clone, Copy, Debug, Default)]
pub struct MagmaCommandHeader {
    pub opcode: u32,
    pub size: u32,
}

#[derive(Clone, Copy, Debug, Default)]
pub struct CreateDevice {
    pub header: MagmaCommandHeader,
    pub physical_device: u32,
    pub device: u32,
}

#[derive(Clone, Copy, Debug, Default)]
pub struct CreateDeviceResp {
    pub header: MagmaCommandHeader,
}

#[derive(Clone, Copy, Debug, Default)]
pub struct GetMemoryBudget {
    pub header: MagmaCommandHeader,
    pub device: u32,
    pub heap_idx: u32,
}

#[derive(Clone, Copy, Debug, Default)]
pub struct GetMemoryBudgetResp {
    pub header: MagmaCommandHeader,
    pub budget: MagmaHeapBudget,
}

#[derive(Clone, Copy, Debug, Default)]
pub struct CreateBuffer {
    pub header: MagmaCommandHeader,
    pub device: u32,
    pub _pad0: u32,
    pub info: MagmaCreateBufferInfo,
    pub buffer_out: u32,
    pub _padding: u32,
}

#[derive(Clone, Copy, Debug, Default)]
pub struct CreateBufferResp {
    pub header: MagmaCommandHeader,
}

#[derive(Clone, Copy, Debug, Default)]
pub struct CreateAddressSpace {
    pub header: MagmaCommandHeader,
    pub device: u32,
    pub address_space: u32,
}

#[derive(Clone, Copy, Debug, Default)]
pub struct CreateAddressSpaceResp {
    pub header: MagmaCommandHeader,
}

#[derive(Clone, Copy, Debug, Default)]
pub struct CreateQueue {
    pub header: MagmaCommandHeader,
    pub device: u32,
    pub address_space: u32,
    pub info: MagmaCreateQueueInfo,
    pub queue: u32,
    pub _padding: u32,
}

#[derive(Clone, Copy, Debug, Default)]
pub struct CreateQueueResp {
    pub header: MagmaCommandHeader,
}

#[derive(Clone, Copy, Debug, Default)]
pub struct DeviceClose {
    pub header: MagmaCommandHeader,
    pub device: u32,
    pub _padding: u32,
}

#[derive(Clone, Copy, Debug, Default)]
pub struct PhysicalDeviceClose {
    pub header: MagmaCommandHeader,
    pub physical_device: u32,
    pub _padding: u32,
}

#[derive(Clone, Copy, Debug, Default)]
pub struct BufferClose {
    pub header: MagmaCommandHeader,
    pub buffer: u32,
    pub _padding: u32,
}

#[derive(Clone, Copy, Debug, Default)]
pub struct QueueClose {
    pub header: MagmaCommandHeader,
    pub queue: u32,
    pub _padding: u32,
}

#[derive(Clone, Copy, Debug, Default)]
pub struct AddressSpaceClose {
    pub header: MagmaCommandHeader,
    pub address_space: u32,
    pub _padding: u32,
}

#[derive(Clone, Copy, Debug, Default)]
pub struct VirtioCreateRing {
    pub header: MagmaCommandHeader,
    pub channel_id: u32,
    pub ring_blob_id: u32,
}

#[derive(Clone, Copy, Debug, Default)]
pub struct MapBufferGpu {
    pub header: MagmaCommandHeader,
    pub address_space: u32,
    pub buffer: u32,
    pub buffer_offset: u64,
    pub gpu_va: u64,
    pub size: u64,
    pub flags: MagmaGpuMapFlags,
}

#[derive(Clone, Copy, Debug, Default)]
pub struct MapBufferGpuResp {
    pub header: MagmaCommandHeader,
}

#[derive(Clone, Copy, Debug, Default)]
pub struct UnmapBufferGpu {
    pub header: MagmaCommandHeader,
    pub address_space: u32,
    pub _pad0: u32,
    pub gpu_va: u64,
    pub size: u64,
}

#[derive(Clone, Copy, Debug, Default)]
pub struct UnmapBufferGpuResp {
    pub header: MagmaCommandHeader,
}

#[derive(Clone, Copy, Debug, Default)]
pub struct SubmitCommand {
    pub header: MagmaCommandHeader,
    pub queue: u32,
    pub _pad0: u32,
    pub submit_info: MagmaWireSubmitInfo,
}

#[derive(Clone, Copy, Debug, Default)]
pub struct SubmitCommandResp {
    pub header: MagmaCommandHeader,
}

#[derive(Clone, Copy, Debug, Default)]
pub struct CreateSyncObj {
    pub header: MagmaCommandHeader,
    pub device: u32,
    pub _pad0: u32,
    pub info: MagmaCreateSyncObjInfo,
    pub sync_obj: u32,
    pub _padding: u32,
}

#[derive(Clone, Copy, Debug, Default)]
pub struct CreateSyncObjResp {
    pub header: MagmaCommandHeader,
}

#[derive(Clone, Copy, Debug, Default)]
pub struct SyncObjClose {
    pub header: MagmaCommandHeader,
    pub sync_obj: u32,
    pub _padding: u32,
}

#[derive(Clone, Copy, Debug, Default)]
pub struct SyncObjSignal {
    pub header: MagmaCommandHeader,
    pub sync_obj: u32,
    pub _padding: u32,
}

#[derive(Clone, Copy, Debug, Default)]
pub struct SyncObjSignalResp {
    pub header: MagmaCommandHeader,
}

#[derive(Clone, Copy, Debug, Default)]
pub struct SyncObjTimelineWait {
    pub header: MagmaCommandHeader,
    pub sync_obj: u32,
    pub _pad0: u32,
    pub point: u64,
    pub timeout_ns: u64,
    pub flags: u32,
    pub _padding: u32,
}

#[derive(Clone, Copy, Debug, Default)]
pub struct SyncObjTimelineWaitResp {
    pub header: MagmaCommandHeader,
}

#[derive(Clone, Copy, Debug, Default)]
pub struct SyncObjTimelineSignal {
    pub header: MagmaCommandHeader,
    pub sync_obj: u32,
    pub _pad0: u32,
    pub point: u64,
}

#[derive(Clone, Copy, Debug, Default)]
pub struct SyncObjTimelineSignalResp {
    pub header: MagmaCommandHeader,
}

#[derive(Clone, Copy, Debug, Default)]
pub struct SyncObjTimelineQuery {
    pub header: MagmaCommandHeader,
    pub sync_obj: u32,
    pub _padding: u32,
}

#[derive(Clone, Copy, Debug, Default)]
pub struct SyncObjTimelineQueryResp {
    pub header: MagmaCommandHeader,
    pub point_out: u64,
}

#[derive(Clone, Copy, Debug, Default)]
pub struct QueueCheckStatus {
    pub header: MagmaCommandHeader,
    pub queue: u32,
    pub _padding: u32,
}

#[derive(Clone, Copy, Debug, Default)]
pub struct QueueCheckStatusResp {
    pub header: MagmaCommandHeader,
}

#[derive(Clone, Copy, Debug, Default)]
pub struct VirtioPing {
    pub header: MagmaCommandHeader,
    pub channel_id: u32,
    pub _padding: u32,
}

#[derive(Clone, Copy, Debug, Default)]
pub struct VirtioCreateFence {
    pub header: MagmaCommandHeader,
    pub ring_idx: u32,
    pub guest_sync_id: u32,
}

#[derive(Clone, Copy, Debug, Default)]
pub struct VirtioSyncObjClose {
    pub header: MagmaCommandHeader,
    pub sync_obj: u32,
    pub ring_idx: u32,
    pub wait_seqno: u32,
    pub _padding: u32,
}

/// Any one of the extensible structures, as it stands in a chain.
#[derive(Debug, Clone, Copy)]
pub enum MagmaExtensibleStruct {
    CreateBufferInfo(MagmaCreateBufferInfo),
    DeviceCreateInfo(MagmaDeviceCreateInfo),
    WireSubmitSyncInfo(MagmaWireSubmitSyncInfo),
    WireSubmitInfo(MagmaWireSubmitInfo),
    SubmitAddressSpaceInfo(MagmaSubmitAddressSpaceInfo),
    WireSubmitBufferInfo(MagmaWireSubmitBufferInfo),
    CreateSyncObjInfo(MagmaCreateSyncObjInfo),
    SyncProperties(MagmaSyncProperties),
    VirtCapabilities(MagmaVirtCapabilities),
    PhysicalDeviceInfo(MagmaPhysicalDeviceInfo),
    PhysicalDeviceMemoryType(MagmaPhysicalDeviceMemoryType),
    PhysicalDeviceMemoryHeap(MagmaPhysicalDeviceMemoryHeap),
}

/// Any one command or response of the protocol.
#[derive(Debug, Clone, Copy)]
pub enum MagmaProtocol {
    CreateDevice(CreateDevice),
    GetMemoryBudget(GetMemoryBudget),
    CreateBuffer(CreateBuffer),
    CreateAddressSpace(CreateAddressSpace),
    CreateQueue(CreateQueue),
    DeviceClose(DeviceClose),
    PhysicalDeviceClose(PhysicalDeviceClose),
    BufferClose(BufferClose),
    QueueClose(QueueClose),
    AddressSpaceClose(AddressSpaceClose),
    VirtioCreateRing(VirtioCreateRing),
    MapBufferGpu(MapBufferGpu),
    UnmapBufferGpu(UnmapBufferGpu),
    SubmitCommand(SubmitCommand),
    CreateSyncObj(CreateSyncObj),
    SyncObjClose(SyncObjClose),
    SyncObjSignal(SyncObjSignal),
    SyncObjTimelineWait(SyncObjTimelineWait),
    SyncObjTimelineSignal(SyncObjTimelineSignal),
    SyncObjTimelineQuery(SyncObjTimelineQuery),
    QueueCheckStatus(QueueCheckStatus),
    VirtioPing(VirtioPing),
    VirtioCreateFence(VirtioCreateFence),
    VirtioSyncObjClose(VirtioSyncObjClose),
    CreateDeviceResp(CreateDeviceResp),
    GetMemoryBudgetResp(GetMemoryBudgetResp),
    CreateBufferResp(CreateBufferResp),
    CreateAddressSpaceResp(CreateAddressSpaceResp),
    CreateQueueResp(CreateQueueResp),
    MapBufferGpuResp(MapBufferGpuResp),
    UnmapBufferGpuResp(UnmapBufferGpuResp),
    SubmitCommandResp(SubmitCommandResp),
    CreateSyncObjResp(CreateSyncObjResp),
    SyncObjSignalResp(SyncObjSignalResp),
    SyncObjTimelineWaitResp(SyncObjTimelineWaitResp),
    SyncObjTimelineSignalResp(SyncObjTimelineSignalResp),
    SyncObjTimelineQueryResp(SyncObjTimelineQueryResp),
    QueueCheckStatusResp(QueueCheckStatusResp),
}

} // verus!
