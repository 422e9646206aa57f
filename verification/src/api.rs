//! Constructors of the protocol structures, and the lookup of extensions in a
//! chain of extensible structures.
//!
//! An extensible structure links to the next one through `header.p_next`;
//! a zero link ends the chain. Here a chain is given as the sequence of the
//! structures that the links reach, in order: the structure at index `i` is
//! the one that the link of the structure before it (or of the root, for
//! index 0) points to.
use vstd::prelude::*;

use crate::protocol::MagmaHeap;
use crate::protocol::MagmaHeapBudget;
use crate::protocol::MagmaMemoryType;
use crate::protocol::MagmaPciBusInfo;
use crate::protocol::MagmaCreateQueueInfo;
use crate::protocol::MagmaQueueFamilyProperties;
use crate::protocol::MagmaStructureTypeHeader;
use crate::protocol::MagmaStructureType;
use crate::protocol::MagmaQueueFlags;
use crate::protocol::MagmaSyncObjUseFlags;
use crate::protocol::VirtioGpuBlobPreference;
use crate::protocol::MagmaVendorId;
use crate::protocol::MagmaExtensibleStruct;
use crate::protocol::MAGMA_MAX_SYNCOBJS;
use crate::protocol::MAGMA_MAX_QUEUES;
use crate::protocol::MagmaCreateBufferInfo;
use crate::protocol::MagmaDeviceCreateInfo;
use crate::protocol::MagmaWireSubmitSyncInfo;
use crate::protocol::MagmaWireSubmitInfo;
use crate::protocol::MagmaSubmitAddressSpaceInfo;
use crate::protocol::MagmaWireSubmitBufferInfo;
use crate::protocol::MagmaCreateSyncObjInfo;
use crate::protocol::MagmaSyncProperties;
use crate::protocol::MagmaVirtCapabilities;
use crate::protocol::MagmaPhysicalDeviceInfo;
use crate::protocol::MagmaPhysicalDeviceMemoryType;
use crate::protocol::MagmaPhysicalDeviceMemoryHeap;
use crate::protocol::MAGMA_STRUCTURE_TYPE_CREATE_BUFFER_INFO;
use crate::protocol::MAGMA_STRUCTURE_TYPE_DEVICE_CREATE_INFO;
use crate::protocol::MAGMA_STRUCTURE_TYPE_SUBMIT_SYNC_INFO;
use crate::protocol::MAGMA_STRUCTURE_TYPE_SUBMIT_INFO;
use crate::protocol::MAGMA_STRUCTURE_TYPE_SUBMIT_ADDRESS_SPACE_INFO;
use crate::protocol::MAGMA_STRUCTURE_TYPE_SUBMIT_BUFFER_INFO;
use crate::protocol::MAGMA_STRUCTURE_TYPE_CREATE_SYNC_OBJ_INFO;
use crate::protocol::MAGMA_STRUCTURE_TYPE_SYNC_PROPERTIES;
use crate::protocol::MAGMA_STRUCTURE_TYPE_VIRT_CAPABILITIES;
use crate::protocol::MAGMA_STRUCTURE_TYPE_PHYSICAL_DEVICE_INFO;
use crate::protocol::MAGMA_STRUCTURE_TYPE_PHYSICAL_DEVICE_MEMORY_TYPE;
use crate::protocol::MAGMA_STRUCTURE_TYPE_PHYSICAL_DEVICE_MEMORY_HEAP;

verus! {

impl MagmaHeap {
    /// A `MagmaHeap` with the given fields.
    pub fn new(heap_size: u64, heap_flags: u64) -> (r: MagmaHeap)
        ensures
            r.heap_size == heap_size,
            r.heap_flags == heap_flags,
    {
        let r = MagmaHeap {
            heap_size,
            heap_flags,
        };
        r
    }
}

impl MagmaHeapBudget {
    /// A `MagmaHeapBudget` with the given fields.
    pub fn new(budget: u64, usage: u64) -> (r: MagmaHeapBudget)
        ensures
            r.budget == budget,
            r.usage == usage,
    {
        let r = MagmaHeapBudget {
            budget,
            usage,
        };
        r
    }
}

impl MagmaMemoryType {
    /// A `MagmaMemoryType` with the given fields.
    pub fn new(property_flags: u32, heap_idx: u32) -> (r: MagmaMemoryType)
        ensures
            r.property_flags == property_flags,
            r.heap_idx == heap_idx,
    {
        let r = MagmaMemoryType {
            property_flags,
            heap_idx,
        };
        r
    }
}

impl MagmaPciBusInfo {
    /// A `MagmaPciBusInfo` with the given fields and zeroed padding.
    pub fn new(domain: u16, subvendor_id: u16, subdevice_id: u16, revision_id: u8, bus: u8, device: u8, function: u8) -> (r: MagmaPciBusInfo)
        ensures
            r.domain == domain,
            r.subvendor_id == subvendor_id,
            r.subdevice_id == subdevice_id,
            r.revision_id == revision_id,
            r.bus == bus,
            r.device == device,
            r.function == function,
            r._padding@ == seq![0u8, 0u8, 0u8, 0u8, 0u8, 0u8],
    {
        let r = MagmaPciBusInfo {
            domain,
            subvendor_id,
            subdevice_id,
            revision_id,
            bus,
            device,
            function,
            _padding: [0u8; 6],
        };
        r
    }
}

impl MagmaCreateQueueInfo {
    /// A `MagmaCreateQueueInfo` with the given fields and zeroed padding.
    pub fn new(queue_family_idx: u32, priority: u32, flags: u32) -> (r: MagmaCreateQueueInfo)
        ensures
            r.queue_family_idx == queue_family_idx,
            r.priority == priority,
            r.flags == flags,
            r._padding == 0,
    {
        let r = MagmaCreateQueueInfo {
            queue_family_idx,
            priority,
            flags,
            _padding: 0,
        };
        r
    }
}

impl MagmaQueueFamilyProperties {
    /// A `MagmaQueueFamilyProperties` with the given fields.
    pub fn new(queue_flags: MagmaQueueFlags, queue_count: u32) -> (r: MagmaQueueFamilyProperties)
        ensures
            r.queue_flags == queue_flags,
            r.queue_count == queue_count,
    {
        let r = MagmaQueueFamilyProperties {
            queue_flags,
            queue_count,
        };
        r
    }
}

impl MagmaCreateBufferInfo {
    /// A `MagmaCreateBufferInfo` with the given fields, a header that tags it and gives its size, no extension linked.
    pub fn new(memory_type_idx: u32, alignment: u32, common_flags: u32, vendor_flags: u32, size: u64) -> (r: MagmaCreateBufferInfo)
        ensures
            r.header.stype == MAGMA_STRUCTURE_TYPE_CREATE_BUFFER_INFO,
            r.header.size == MagmaCreateBufferInfo::wire_size(),
            r.header.p_next == 0,
            r.spec_bytes().len() == r.header.size,
            r.memory_type_idx == memory_type_idx,
            r.alignment == alignment,
            r.common_flags == common_flags,
            r.vendor_flags == vendor_flags,
            r.size == size,
    {
        let r = MagmaCreateBufferInfo {
            header: MagmaStructureTypeHeader { stype: MAGMA_STRUCTURE_TYPE_CREATE_BUFFER_INFO, size: 40, p_next: 0 },
            memory_type_idx,
            alignment,
            common_flags,
            vendor_flags,
            size,
        };
        proof {
            r.lemma_bytes_len();
        }
        r
    }
}

impl MagmaDeviceCreateInfo {
    /// A `MagmaDeviceCreateInfo` with the given fields, a header that tags it and gives its size, no extension linked and zeroed padding.
    pub fn new(flags: u32) -> (r: MagmaDeviceCreateInfo)
        ensures
            r.header.stype == MAGMA_STRUCTURE_TYPE_DEVICE_CREATE_INFO,
            r.header.size == MagmaDeviceCreateInfo::wire_size(),
            r.header.p_next == 0,
            r.spec_bytes().len() == r.header.size,
            r.flags == flags,
            r._padding == 0,
    {
        let r = MagmaDeviceCreateInfo {
            header: MagmaStructureTypeHeader { stype: MAGMA_STRUCTURE_TYPE_DEVICE_CREATE_INFO, size: 24, p_next: 0 },
            flags,
            _padding: 0,
        };
        proof {
            r.lemma_bytes_len();
        }
        r
    }
}

impl MagmaWireSubmitSyncInfo {
    /// A `MagmaWireSubmitSyncInfo` with the given fields, a header that tags it and gives its size, no extension linked.
    pub fn new(num_wait_sync_objs: u32, num_signal_sync_objs: u32, wait_sync_objs: [u32; MAGMA_MAX_SYNCOBJS], signal_sync_objs: [u32; MAGMA_MAX_SYNCOBJS], wait_points: [u64; MAGMA_MAX_SYNCOBJS], signal_points: [u64; MAGMA_MAX_SYNCOBJS]) -> (r: MagmaWireSubmitSyncInfo)
        ensures
            r.header.stype == MAGMA_STRUCTURE_TYPE_SUBMIT_SYNC_INFO,
            r.header.size == MagmaWireSubmitSyncInfo::wire_size(),
            r.header.p_next == 0,
            r.spec_bytes().len() == r.header.size,
            r.num_wait_sync_objs == num_wait_sync_objs,
            r.num_signal_sync_objs == num_signal_sync_objs,
            r.wait_sync_objs == wait_sync_objs,
            r.signal_sync_objs == signal_sync_objs,
            r.wait_points == wait_points,
            r.signal_points == signal_points,
    {
        let r = MagmaWireSubmitSyncInfo {
            header: MagmaStructureTypeHeader { stype: MAGMA_STRUCTURE_TYPE_SUBMIT_SYNC_INFO, size: 408, p_next: 0 },
            num_wait_sync_objs,
            num_signal_sync_objs,
            wait_sync_objs,
            signal_sync_objs,
            wait_points,
            signal_points,
        };
        proof {
            r.lemma_bytes_len();
        }
        r
    }
}

impl MagmaWireSubmitInfo {
    /// A `MagmaWireSubmitInfo` with the given fields, a header that tags it and gives its size, no extension linked and zeroed padding.
    pub fn new(flags: u32, sync_info: MagmaWireSubmitSyncInfo) -> (r: MagmaWireSubmitInfo)
        ensures
            r.header.stype == MAGMA_STRUCTURE_TYPE_SUBMIT_INFO,
            r.header.size == MagmaWireSubmitInfo::wire_size(),
            r.header.p_next == 0,
            r.spec_bytes().len() == r.header.size,
            r.flags == flags,
            r.sync_info == sync_info,
            r._pad0 == 0,
    {
        let r = MagmaWireSubmitInfo {
            header: MagmaStructureTypeHeader { stype: MAGMA_STRUCTURE_TYPE_SUBMIT_INFO, size: 432, p_next: 0 },
            flags,
            sync_info,
            _pad0: 0,
        };
        proof {
            r.lemma_bytes_len();
        }
        r
    }
}

impl MagmaSubmitAddressSpaceInfo {
    /// A `MagmaSubmitAddressSpaceInfo` with the given fields, a header that tags it and gives its size, no extension linked.
    pub fn new(command_va: u64, length: u64) -> (r: MagmaSubmitAddressSpaceInfo)
        ensures
            r.header.stype == MAGMA_STRUCTURE_TYPE_SUBMIT_ADDRESS_SPACE_INFO,
            r.header.size == MagmaSubmitAddressSpaceInfo::wire_size(),
            r.header.p_next == 0,
            r.spec_bytes().len() == r.header.size,
            r.command_va == command_va,
            r.length == length,
    {
        let r = MagmaSubmitAddressSpaceInfo {
            header: MagmaStructureTypeHeader { stype: MAGMA_STRUCTURE_TYPE_SUBMIT_ADDRESS_SPACE_INFO, size: 32, p_next: 0 },
            command_va,
            length,
        };
        proof {
            r.lemma_bytes_len();
        }
        r
    }
}

impl MagmaWireSubmitBufferInfo {
    /// A `MagmaWireSubmitBufferInfo` with the given fields, a header that tags it and gives its size, no extension linked and zeroed padding.
    pub fn new(command_buffer: u32, start_offset: u64, length: u64) -> (r: MagmaWireSubmitBufferInfo)
        ensures
            r.header.stype == MAGMA_STRUCTURE_TYPE_SUBMIT_BUFFER_INFO,
            r.header.size == MagmaWireSubmitBufferInfo::wire_size(),
            r.header.p_next == 0,
            r.spec_bytes().len() == r.header.size,
            r.command_buffer == command_buffer,
            r.start_offset == start_offset,
            r.length == length,
            r._pad0 == 0,
    {
        let r = MagmaWireSubmitBufferInfo {
            header: MagmaStructureTypeHeader { stype: MAGMA_STRUCTURE_TYPE_SUBMIT_BUFFER_INFO, size: 40, p_next: 0 },
            command_buffer,
            start_offset,
            length,
            _pad0: 0,
        };
        proof {
            r.lemma_bytes_len();
        }
        r
    }
}

impl MagmaCreateSyncObjInfo {
    /// A `MagmaCreateSyncObjInfo` with the given fields, a header that tags it and gives its size, no extension linked.
    pub fn new(sync_type: u32, use_flags: MagmaSyncObjUseFlags, initial_point: u64) -> (r: MagmaCreateSyncObjInfo)
        ensures
            r.header.stype == MAGMA_STRUCTURE_TYPE_CREATE_SYNC_OBJ_INFO,
            r.header.size == MagmaCreateSyncObjInfo::wire_size(),
            r.header.p_next == 0,
            r.spec_bytes().len() == r.header.size,
            r.sync_type == sync_type,
            r.use_flags == use_flags,
            r.initial_point == initial_point,
    {
        let r = MagmaCreateSyncObjInfo {
            header: MagmaStructureTypeHeader { stype: MAGMA_STRUCTURE_TYPE_CREATE_SYNC_OBJ_INFO, size: 32, p_next: 0 },
            sync_type,
            use_flags,
            initial_point,
        };
        proof {
            r.lemma_bytes_len();
        }
        r
    }
}

impl MagmaSyncProperties {
    /// A `MagmaSyncProperties` with the given fields, a header that tags it and gives its size, no extension linked and zeroed padding.
    pub fn new(capabilities: u32, max_timeline_value_difference: u64) -> (r: MagmaSyncProperties)
        ensures
            r.header.stype == MAGMA_STRUCTURE_TYPE_SYNC_PROPERTIES,
            r.header.size == MagmaSyncProperties::wire_size(),
            r.header.p_next == 0,
            r.spec_bytes().len() == r.header.size,
            r.capabilities == capabilities,
            r.max_timeline_value_difference == max_timeline_value_difference,
            r._pad0 == 0,
    {
        let r = MagmaSyncProperties {
            header: MagmaStructureTypeHeader { stype: MAGMA_STRUCTURE_TYPE_SYNC_PROPERTIES, size: 32, p_next: 0 },
            capabilities,
            max_timeline_value_difference,
            _pad0: 0,
        };
        proof {
            r.lemma_bytes_len();
        }
        r
    }
}

impl MagmaVirtCapabilities {
    /// A `MagmaVirtCapabilities` with the given fields, a header that tags it and gives its size, no extension linked and zeroed padding.
    pub fn new(capset_version: u32, num_physical_devices: u32, blob_preference: VirtioGpuBlobPreference, ring_buffer_len: u64) -> (r: MagmaVirtCapabilities)
        ensures
            r.header.stype == MAGMA_STRUCTURE_TYPE_VIRT_CAPABILITIES,
            r.header.size == MagmaVirtCapabilities::wire_size(),
            r.header.p_next == 0,
            r.spec_bytes().len() == r.header.size,
            r.capset_version == capset_version,
            r.num_physical_devices == num_physical_devices,
            r.blob_preference == blob_preference,
            r.ring_buffer_len == ring_buffer_len,
            r._pad0 == 0,
    {
        let r = MagmaVirtCapabilities {
            header: MagmaStructureTypeHeader { stype: MAGMA_STRUCTURE_TYPE_VIRT_CAPABILITIES, size: 40, p_next: 0 },
            capset_version,
            num_physical_devices,
            blob_preference,
            ring_buffer_len,
            _pad0: 0,
        };
        proof {
            r.lemma_bytes_len();
        }
        r
    }
}

impl MagmaPhysicalDeviceInfo {
    /// A `MagmaPhysicalDeviceInfo` with the given fields, a header that tags it and gives its size, no extension linked.
    pub fn new(bus_type: u32, vendor_id: MagmaVendorId, device_id: u16, flags: u32, pci_bus_info: MagmaPciBusInfo, queue_family_count: u32, queue_families: [MagmaQueueFamilyProperties; MAGMA_MAX_QUEUES]) -> (r: MagmaPhysicalDeviceInfo)
        ensures
            r.header.stype == MAGMA_STRUCTURE_TYPE_PHYSICAL_DEVICE_INFO,
            r.header.size == MagmaPhysicalDeviceInfo::wire_size(),
            r.header.p_next == 0,
            r.spec_bytes().len() == r.header.size,
            r.bus_type == bus_type,
            r.vendor_id == vendor_id,
            r.device_id == device_id,
            r.flags == flags,
            r.pci_bus_info == pci_bus_info,
            r.queue_family_count == queue_family_count,
            r.queue_families == queue_families,
    {
        let r = MagmaPhysicalDeviceInfo {
            header: MagmaStructureTypeHeader { stype: MAGMA_STRUCTURE_TYPE_PHYSICAL_DEVICE_INFO, size: 176, p_next: 0 },
            bus_type,
            vendor_id,
            device_id,
            flags,
            pci_bus_info,
            queue_family_count,
            queue_families,
        };
        proof {
            r.lemma_bytes_len();
        }
        r
    }
}

impl MagmaPhysicalDeviceMemoryType {
    /// A `MagmaPhysicalDeviceMemoryType` with the given fields, a header that tags it and gives its size, no extension linked.
    pub fn new(property_flags: u32, heap_idx: u32) -> (r: MagmaPhysicalDeviceMemoryType)
        ensures
            r.header.stype == MAGMA_STRUCTURE_TYPE_PHYSICAL_DEVICE_MEMORY_TYPE,
            r.header.size == MagmaPhysicalDeviceMemoryType::wire_size(),
            r.header.p_next == 0,
            r.spec_bytes().len() == r.header.size,
            r.property_flags == property_flags,
            r.heap_idx == heap_idx,
    {
        let r = MagmaPhysicalDeviceMemoryType {
            header: MagmaStructureTypeHeader { stype: MAGMA_STRUCTURE_TYPE_PHYSICAL_DEVICE_MEMORY_TYPE, size: 24, p_next: 0 },
            property_flags,
            heap_idx,
        };
        proof {
            r.lemma_bytes_len();
        }
        r
    }
}

impl MagmaPhysicalDeviceMemoryHeap {
    /// A `MagmaPhysicalDeviceMemoryHeap` with the given fields, a header that tags it and gives its size, no extension linked.
    pub fn new(heap_size: u64, heap_flags: u64) -> (r: MagmaPhysicalDeviceMemoryHeap)
        ensures
            r.header.stype == MAGMA_STRUCTURE_TYPE_PHYSICAL_DEVICE_MEMORY_HEAP,
            r.header.size == MagmaPhysicalDeviceMemoryHeap::wire_size(),
            r.header.p_next == 0,
            r.spec_bytes().len() == r.header.size,
            r.heap_size == heap_size,
            r.heap_flags == heap_flags,
    {
        let r = MagmaPhysicalDeviceMemoryHeap {
            header: MagmaStructureTypeHeader { stype: MAGMA_STRUCTURE_TYPE_PHYSICAL_DEVICE_MEMORY_HEAP, size: 32, p_next: 0 },
            heap_size,
            heap_flags,
        };
        proof {
            r.lemma_bytes_len();
        }
        r
    }
}

impl MagmaExtensibleStruct {
    /// The header of the structure held.
    pub open spec fn spec_header(self) -> MagmaStructureTypeHeader {
        match self {
            MagmaExtensibleStruct::CreateBufferInfo(s) => s.header,
            MagmaExtensibleStruct::DeviceCreateInfo(s) => s.header,
            MagmaExtensibleStruct::WireSubmitSyncInfo(s) => s.header,
            MagmaExtensibleStruct::WireSubmitInfo(s) => s.header,
            MagmaExtensibleStruct::SubmitAddressSpaceInfo(s) => s.header,
            MagmaExtensibleStruct::WireSubmitBufferInfo(s) => s.header,
            MagmaExtensibleStruct::CreateSyncObjInfo(s) => s.header,
            MagmaExtensibleStruct::SyncProperties(s) => s.header,
            MagmaExtensibleStruct::VirtCapabilities(s) => s.header,
            MagmaExtensibleStruct::PhysicalDeviceInfo(s) => s.header,
            MagmaExtensibleStruct::PhysicalDeviceMemoryType(s) => s.header,
            MagmaExtensibleStruct::PhysicalDeviceMemoryHeap(s) => s.header,
        }
    }

    /// The header of the structure held.
    pub fn header(&self) -> (h: MagmaStructureTypeHeader)
        ensures
            h == self.spec_header(),
    {
        match self {
            MagmaExtensibleStruct::CreateBufferInfo(s) => s.header,
            MagmaExtensibleStruct::DeviceCreateInfo(s) => s.header,
            MagmaExtensibleStruct::WireSubmitSyncInfo(s) => s.header,
            MagmaExtensibleStruct::WireSubmitInfo(s) => s.header,
            MagmaExtensibleStruct::SubmitAddressSpaceInfo(s) => s.header,
            MagmaExtensibleStruct::WireSubmitBufferInfo(s) => s.header,
            MagmaExtensibleStruct::CreateSyncObjInfo(s) => s.header,
            MagmaExtensibleStruct::SyncProperties(s) => s.header,
            MagmaExtensibleStruct::VirtCapabilities(s) => s.header,
            MagmaExtensibleStruct::PhysicalDeviceInfo(s) => s.header,
            MagmaExtensibleStruct::PhysicalDeviceMemoryType(s) => s.header,
            MagmaExtensibleStruct::PhysicalDeviceMemoryHeap(s) => s.header,
        }
    }

    /// The tag that belongs to the kind of structure held.
    pub open spec fn spec_kind_tag(self) -> u32 {
        match self {
            MagmaExtensibleStruct::CreateBufferInfo(s) => MAGMA_STRUCTURE_TYPE_CREATE_BUFFER_INFO,
            MagmaExtensibleStruct::DeviceCreateInfo(s) => MAGMA_STRUCTURE_TYPE_DEVICE_CREATE_INFO,
            MagmaExtensibleStruct::WireSubmitSyncInfo(s) => MAGMA_STRUCTURE_TYPE_SUBMIT_SYNC_INFO,
            MagmaExtensibleStruct::WireSubmitInfo(s) => MAGMA_STRUCTURE_TYPE_SUBMIT_INFO,
            MagmaExtensibleStruct::SubmitAddressSpaceInfo(s) => MAGMA_STRUCTURE_TYPE_SUBMIT_ADDRESS_SPACE_INFO,
            MagmaExtensibleStruct::WireSubmitBufferInfo(s) => MAGMA_STRUCTURE_TYPE_SUBMIT_BUFFER_INFO,
            MagmaExtensibleStruct::CreateSyncObjInfo(s) => MAGMA_STRUCTURE_TYPE_CREATE_SYNC_OBJ_INFO,
            MagmaExtensibleStruct::SyncProperties(s) => MAGMA_STRUCTURE_TYPE_SYNC_PROPERTIES,
            MagmaExtensibleStruct::VirtCapabilities(s) => MAGMA_STRUCTURE_TYPE_VIRT_CAPABILITIES,
            MagmaExtensibleStruct::PhysicalDeviceInfo(s) => MAGMA_STRUCTURE_TYPE_PHYSICAL_DEVICE_INFO,
            MagmaExtensibleStruct::PhysicalDeviceMemoryType(s) => MAGMA_STRUCTURE_TYPE_PHYSICAL_DEVICE_MEMORY_TYPE,
            MagmaExtensibleStruct::PhysicalDeviceMemoryHeap(s) => MAGMA_STRUCTURE_TYPE_PHYSICAL_DEVICE_MEMORY_HEAP,
        }
    }

    /// The tag that belongs to the kind of structure held.
    pub fn kind_tag(&self) -> (t: u32)
        ensures
            t == self.spec_kind_tag(),
    {
        match self {
            MagmaExtensibleStruct::CreateBufferInfo(s) => MAGMA_STRUCTURE_TYPE_CREATE_BUFFER_INFO,
            MagmaExtensibleStruct::DeviceCreateInfo(s) => MAGMA_STRUCTURE_TYPE_DEVICE_CREATE_INFO,
            MagmaExtensibleStruct::WireSubmitSyncInfo(s) => MAGMA_STRUCTURE_TYPE_SUBMIT_SYNC_INFO,
            MagmaExtensibleStruct::WireSubmitInfo(s) => MAGMA_STRUCTURE_TYPE_SUBMIT_INFO,
            MagmaExtensibleStruct::SubmitAddressSpaceInfo(s) => MAGMA_STRUCTURE_TYPE_SUBMIT_ADDRESS_SPACE_INFO,
            MagmaExtensibleStruct::WireSubmitBufferInfo(s) => MAGMA_STRUCTURE_TYPE_SUBMIT_BUFFER_INFO,
            MagmaExtensibleStruct::CreateSyncObjInfo(s) => MAGMA_STRUCTURE_TYPE_CREATE_SYNC_OBJ_INFO,
            MagmaExtensibleStruct::SyncProperties(s) => MAGMA_STRUCTURE_TYPE_SYNC_PROPERTIES,
            MagmaExtensibleStruct::VirtCapabilities(s) => MAGMA_STRUCTURE_TYPE_VIRT_CAPABILITIES,
            MagmaExtensibleStruct::PhysicalDeviceInfo(s) => MAGMA_STRUCTURE_TYPE_PHYSICAL_DEVICE_INFO,
            MagmaExtensibleStruct::PhysicalDeviceMemoryType(s) => MAGMA_STRUCTURE_TYPE_PHYSICAL_DEVICE_MEMORY_TYPE,
            MagmaExtensibleStruct::PhysicalDeviceMemoryHeap(s) => MAGMA_STRUCTURE_TYPE_PHYSICAL_DEVICE_MEMORY_HEAP,
        }
    }

    /// The wire bytes of the structure held.
    pub open spec fn spec_bytes(self) -> Seq<u8> {
        match self {
            MagmaExtensibleStruct::CreateBufferInfo(s) => s.spec_bytes(),
            MagmaExtensibleStruct::DeviceCreateInfo(s) => s.spec_bytes(),
            MagmaExtensibleStruct::WireSubmitSyncInfo(s) => s.spec_bytes(),
            MagmaExtensibleStruct::WireSubmitInfo(s) => s.spec_bytes(),
            MagmaExtensibleStruct::SubmitAddressSpaceInfo(s) => s.spec_bytes(),
            MagmaExtensibleStruct::WireSubmitBufferInfo(s) => s.spec_bytes(),
            MagmaExtensibleStruct::CreateSyncObjInfo(s) => s.spec_bytes(),
            MagmaExtensibleStruct::SyncProperties(s) => s.spec_bytes(),
            MagmaExtensibleStruct::VirtCapabilities(s) => s.spec_bytes(),
            MagmaExtensibleStruct::PhysicalDeviceInfo(s) => s.spec_bytes(),
            MagmaExtensibleStruct::PhysicalDeviceMemoryType(s) => s.spec_bytes(),
            MagmaExtensibleStruct::PhysicalDeviceMemoryHeap(s) => s.spec_bytes(),
        }
    }

    /// The held structure with its link replaced by `p_next`.
    pub open spec fn spec_with_next(self, p_next: u64) -> Self {
        match self {
            MagmaExtensibleStruct::CreateBufferInfo(s) => MagmaExtensibleStruct::CreateBufferInfo(MagmaCreateBufferInfo { header: MagmaStructureTypeHeader { p_next: p_next, ..s.header }, ..s }),
            MagmaExtensibleStruct::DeviceCreateInfo(s) => MagmaExtensibleStruct::DeviceCreateInfo(MagmaDeviceCreateInfo { header: MagmaStructureTypeHeader { p_next: p_next, ..s.header }, ..s }),
            MagmaExtensibleStruct::WireSubmitSyncInfo(s) => MagmaExtensibleStruct::WireSubmitSyncInfo(MagmaWireSubmitSyncInfo { header: MagmaStructureTypeHeader { p_next: p_next, ..s.header }, ..s }),
            MagmaExtensibleStruct::WireSubmitInfo(s) => MagmaExtensibleStruct::WireSubmitInfo(MagmaWireSubmitInfo { header: MagmaStructureTypeHeader { p_next: p_next, ..s.header }, ..s }),
            MagmaExtensibleStruct::SubmitAddressSpaceInfo(s) => MagmaExtensibleStruct::SubmitAddressSpaceInfo(MagmaSubmitAddressSpaceInfo { header: MagmaStructureTypeHeader { p_next: p_next, ..s.header }, ..s }),
            MagmaExtensibleStruct::WireSubmitBufferInfo(s) => MagmaExtensibleStruct::WireSubmitBufferInfo(MagmaWireSubmitBufferInfo { header: MagmaStructureTypeHeader { p_next: p_next, ..s.header }, ..s }),
            MagmaExtensibleStruct::CreateSyncObjInfo(s) => MagmaExtensibleStruct::CreateSyncObjInfo(MagmaCreateSyncObjInfo { header: MagmaStructureTypeHeader { p_next: p_next, ..s.header }, ..s }),
            MagmaExtensibleStruct::SyncProperties(s) => MagmaExtensibleStruct::SyncProperties(MagmaSyncProperties { header: MagmaStructureTypeHeader { p_next: p_next, ..s.header }, ..s }),
            MagmaExtensibleStruct::VirtCapabilities(s) => MagmaExtensibleStruct::VirtCapabilities(MagmaVirtCapabilities { header: MagmaStructureTypeHeader { p_next: p_next, ..s.header }, ..s }),
            MagmaExtensibleStruct::PhysicalDeviceInfo(s) => MagmaExtensibleStruct::PhysicalDeviceInfo(MagmaPhysicalDeviceInfo { header: MagmaStructureTypeHeader { p_next: p_next, ..s.header }, ..s }),
            MagmaExtensibleStruct::PhysicalDeviceMemoryType(s) => MagmaExtensibleStruct::PhysicalDeviceMemoryType(MagmaPhysicalDeviceMemoryType { header: MagmaStructureTypeHeader { p_next: p_next, ..s.header }, ..s }),
            MagmaExtensibleStruct::PhysicalDeviceMemoryHeap(s) => MagmaExtensibleStruct::PhysicalDeviceMemoryHeap(MagmaPhysicalDeviceMemoryHeap { header: MagmaStructureTypeHeader { p_next: p_next, ..s.header }, ..s }),
        }
    }
}

/// Index, among the structures of `chain`, of the first one tagged `stype`
/// that the link `next` reaches; the walk stops at a zero link or when the
/// chain runs out.
pub open spec fn chain_find(next: u64, chain: Seq<MagmaExtensibleStruct>, stype: u32) -> Option<int>
    decreases chain.len(),
{
    if next == 0 || chain.len() == 0 {
        None
    } else if chain[0].spec_header().stype == stype {
        Some(0)
    } else {
        match chain_find(chain[0].spec_header().p_next, chain.drop_first(), stype) {
            Some(i) => Some(i + 1),
            None => None,
        }
    }
}

pub proof fn lemma_chain_find_bounds(next: u64, chain: Seq<MagmaExtensibleStruct>, stype: u32)
    ensures
        chain_find(next, chain, stype) is Some ==> 0 <= chain_find(next, chain, stype)->0 < chain.len(),
    decreases chain.len(),
{
    if next != 0 && chain.len() > 0 && chain[0].spec_header().stype != stype {
        lemma_chain_find_bounds(chain[0].spec_header().p_next, chain.drop_first(), stype);
    }
}

/// Walks the links from `next` through `chain` and returns the index of the
/// first structure tagged `stype`.
pub fn find_extension(next: u64, chain: &[MagmaExtensibleStruct], stype: u32) -> (r: Option<usize>)
    ensures
        r is Some ==> chain_find(next, chain@, stype) == Some(r->0 as int),
        r is None ==> chain_find(next, chain@, stype) is None,
{
    let mut curr = next;
    let mut i: usize = 0;
    assert(chain@.skip(0) =~= chain@);
    while curr != 0 && i < chain.len()
        invariant
            i <= chain@.len(),
            chain_find(next, chain@, stype) == (match chain_find(curr, chain@.skip(i as int), stype) {
                Some(j) => Some(j + i),
                None => None,
            }),
        decreases chain.len() - i,
    {
        let h = chain[i].header();
        if h.stype == stype {
            return Some(i);
        }
        assert(chain@.skip(i as int).drop_first() =~= chain@.skip(i as int + 1));
        curr = h.p_next;
        i = i + 1;
    }
    None
}

impl MagmaExtensibleStruct {
    /// The held structure with its link replaced by `p_next`.
    pub fn with_next(&self, p_next: u64) -> (r: MagmaExtensibleStruct)
        ensures
            r == self.spec_with_next(p_next),
            r.spec_header().p_next == p_next,
            r.spec_header().stype == self.spec_header().stype,
            r.spec_kind_tag() == self.spec_kind_tag(),
    {
        match self {
            MagmaExtensibleStruct::CreateBufferInfo(s) => {
                let mut t = *s;
                t.header.p_next = p_next;
                MagmaExtensibleStruct::CreateBufferInfo(t)
            },
            MagmaExtensibleStruct::DeviceCreateInfo(s) => {
                let mut t = *s;
                t.header.p_next = p_next;
                MagmaExtensibleStruct::DeviceCreateInfo(t)
            },
            MagmaExtensibleStruct::WireSubmitSyncInfo(s) => {
                let mut t = *s;
                t.header.p_next = p_next;
                MagmaExtensibleStruct::WireSubmitSyncInfo(t)
            },
            MagmaExtensibleStruct::WireSubmitInfo(s) => {
                let mut t = *s;
                t.header.p_next = p_next;
                MagmaExtensibleStruct::WireSubmitInfo(t)
            },
            MagmaExtensibleStruct::SubmitAddressSpaceInfo(s) => {
                let mut t = *s;
                t.header.p_next = p_next;
                MagmaExtensibleStruct::SubmitAddressSpaceInfo(t)
            },
            MagmaExtensibleStruct::WireSubmitBufferInfo(s) => {
                let mut t = *s;
                t.header.p_next = p_next;
                MagmaExtensibleStruct::WireSubmitBufferInfo(t)
            },
            MagmaExtensibleStruct::CreateSyncObjInfo(s) => {
                let mut t = *s;
                t.header.p_next = p_next;
                MagmaExtensibleStruct::CreateSyncObjInfo(t)
            },
            MagmaExtensibleStruct::SyncProperties(s) => {
                let mut t = *s;
                t.header.p_next = p_next;
                MagmaExtensibleStruct::SyncProperties(t)
            },
            MagmaExtensibleStruct::VirtCapabilities(s) => {
                let mut t = *s;
                t.header.p_next = p_next;
                MagmaExtensibleStruct::VirtCapabilities(t)
            },
            MagmaExtensibleStruct::PhysicalDeviceInfo(s) => {
                let mut t = *s;
                t.header.p_next = p_next;
                MagmaExtensibleStruct::PhysicalDeviceInfo(t)
            },
            MagmaExtensibleStruct::PhysicalDeviceMemoryType(s) => {
                let mut t = *s;
                t.header.p_next = p_next;
                MagmaExtensibleStruct::PhysicalDeviceMemoryType(t)
            },
            MagmaExtensibleStruct::PhysicalDeviceMemoryHeap(s) => {
                let mut t = *s;
                t.header.p_next = p_next;
                MagmaExtensibleStruct::PhysicalDeviceMemoryHeap(t)
            },
        }
    }
}

/// Number of structures of `chain` that the link `next` reaches, before a
/// zero link or the end of the chain.
pub open spec fn chain_reach(next: u64, chain: Seq<MagmaExtensibleStruct>) -> nat
    decreases chain.len(),
{
    if next == 0 || chain.len() == 0 {
        0
    } else {
        1 + chain_reach(chain[0].spec_header().p_next, chain.drop_first())
    }
}

pub proof fn lemma_chain_reach_bounds(next: u64, chain: Seq<MagmaExtensibleStruct>)
    ensures
        chain_reach(next, chain) <= chain.len(),
        next != 0 && chain.len() > 0 ==> chain_reach(next, chain) >= 1,
    decreases chain.len(),
{
    if next != 0 && chain.len() > 0 {
        lemma_chain_reach_bounds(chain[0].spec_header().p_next, chain.drop_first());
    }
}

/// The root link and chain after appending the structures `tail` at the
/// end of the chain that `root` reaches: the last link reached is set,
/// `tail` comes right after it, and what lay past the end is dropped.
pub open spec fn spec_push_next(root: u64, chain: Seq<MagmaExtensibleStruct>, tail: Seq<MagmaExtensibleStruct>) -> (u64, Seq<MagmaExtensibleStruct>) {
    let k = chain_reach(root, chain);
    if k == 0 {
        (1, tail)
    } else {
        (root, chain.take(k - 1).push(chain[k - 1].spec_with_next(1)) + tail)
    }
}

/// Appends the extension `ext`, followed by the chain `ext_chain` that its
/// own link leads into, at the end of the chain that `root` (the header of
/// the structure the chain extends) reaches through `chain`.
pub fn push_next(
    root: &mut MagmaStructureTypeHeader,
    chain: &mut Vec<MagmaExtensibleStruct>,
    ext: MagmaExtensibleStruct,
    ext_chain: &[MagmaExtensibleStruct],
)
    ensures
        final(root).p_next == spec_push_next(old(root).p_next, old(chain)@, seq![ext] + ext_chain@).0,
        final(root).stype == old(root).stype,
        final(root).size == old(root).size,
        final(chain)@ == spec_push_next(old(root).p_next, old(chain)@, seq![ext] + ext_chain@).1,
{
    let ghost c0 = chain@;
    let ghost r0 = root.p_next;
    let mut link = root.p_next;
    let mut i: usize = 0;
    assert(chain@.skip(0) =~= chain@);
    while link != 0 && i < chain.len()
        invariant
            chain@ == c0,
            i <= c0.len(),
            chain_reach(r0, c0) == i + chain_reach(link, c0.skip(i as int)),
            i > 0 ==> link == c0[i - 1].spec_header().p_next,
            i == 0 ==> link == r0,
        decreases chain.len() - i,
    {
        assert(c0.skip(i as int).drop_first() =~= c0.skip(i as int + 1));
        link = chain[i].header().p_next;
        i = i + 1;
    }
    proof {
        lemma_chain_reach_bounds(r0, c0);
    }
    assert(chain_reach(r0, c0) == i);
    if i == 0 {
        root.p_next = 1;
    } else {
        let last = chain[i - 1].with_next(1);
        chain.set(i - 1, last);
    }
    chain.truncate(i);
    let ghost prefix = chain@;
    chain.push(ext);
    let mut j: usize = 0;
    while j < ext_chain.len()
        invariant
            j <= ext_chain@.len(),
            chain@ == prefix + seq![ext] + ext_chain@.take(j as int),
        decreases ext_chain.len() - j,
    {
        chain.push(ext_chain[j]);
        j = j + 1;
        assert(chain@ =~= prefix + seq![ext] + ext_chain@.take(j as int));
    }
    proof {
        assert(ext_chain@.take(ext_chain@.len() as int) =~= ext_chain@);
        if i > 0 {
            assert(prefix =~= c0.take(i - 1).push(c0[i - 1].spec_with_next(1)));
        } else {
            assert(prefix =~= Seq::<MagmaExtensibleStruct>::empty());
        }
        assert(chain@ =~= spec_push_next(r0, c0, seq![ext] + ext_chain@).1);
    }
}

proof fn lemma_with_next_header(e: MagmaExtensibleStruct, p_next: u64)
    ensures
        e.spec_with_next(p_next).spec_header() == (MagmaStructureTypeHeader { p_next, ..e.spec_header() }),
        e.spec_with_next(p_next).spec_kind_tag() == e.spec_kind_tag(),
{
}

proof fn lemma_find_within_reach(next: u64, chain: Seq<MagmaExtensibleStruct>, stype: u32)
    ensures
        chain_find(next, chain, stype) is Some ==> chain_find(next, chain, stype)->0 < chain_reach(next, chain),
    decreases chain.len(),
{
    if next != 0 && chain.len() > 0 && chain[0].spec_header().stype != stype {
        lemma_find_within_reach(chain[0].spec_header().p_next, chain.drop_first(), stype);
    }
}

/// A lookup that the appended structures answer, shifted past `k` earlier
/// structures.
pub open spec fn shift_find(found: Option<int>, k: int) -> Option<int> {
    match found {
        Some(j) => Some(j + k),
        None => None,
    }
}

proof fn lemma_push_find(next: u64, chain: Seq<MagmaExtensibleStruct>, tail: Seq<MagmaExtensibleStruct>, stype: u32)
    requires
        next != 0,
        chain_reach(next, chain) >= 1,
    ensures
        ({
            let k = chain_reach(next, chain);
            let c2 = chain.take(k - 1).push(chain[k - 1].spec_with_next(1)) + tail;
            &&& chain_reach(next, c2) == k + chain_reach(1, tail)
            &&& chain_find(next, c2, stype) == (match chain_find(next, chain, stype) {
                Some(i) => Some(i),
                None => shift_find(chain_find(1, tail, stype), k as int),
            })
        }),
    decreases chain.len(),
{
    let k = chain_reach(next, chain);
    let c2 = chain.take(k - 1).push(chain[k - 1].spec_with_next(1)) + tail;
    lemma_chain_reach_bounds(next, chain);
    assert(chain.len() > 0);
    let n0 = chain[0].spec_header().p_next;
    let rest = chain.drop_first();
    assert(k == 1 + chain_reach(n0, rest));
    if k == 1 {
        let w = chain[0].spec_with_next(1);
        lemma_with_next_header(chain[0], 1);
        lemma_find_within_reach(n0, rest, stype);
        assert(c2 =~= seq![w] + tail);
        assert(c2[0] == w);
        assert(c2.drop_first() =~= tail);
        assert(chain_reach(next, c2) == 1 + chain_reach(1, c2.drop_first()));
        assert(chain_find(n0, rest, stype) is None);
    } else {
        assert(n0 != 0);
        lemma_chain_reach_bounds(n0, rest);
        lemma_push_find(n0, rest, tail, stype);
        assert(rest[k - 2] == chain[k - 1]);
        assert(c2.drop_first() =~= rest.take(k - 2).push(rest[k - 2].spec_with_next(1)) + tail);
        assert(c2[0] == chain[0]);
        assert(chain_reach(next, c2) == 1 + chain_reach(n0, c2.drop_first()));
    }
}

/// Appending structures puts them at the end of the chain, the chain they
/// carry included: the chain now reaches what it reached and then what the
/// appended structures reach, and a lookup finds what it found before, or
/// else what a lookup in the appended structures finds, placed after the
/// structures reached before.
pub proof fn lemma_push_next_then_find(root: u64, chain: Seq<MagmaExtensibleStruct>, tail: Seq<MagmaExtensibleStruct>, stype: u32)
    ensures
        ({
            let (r2, c2) = spec_push_next(root, chain, tail);
            &&& chain_reach(r2, c2) == chain_reach(root, chain) + chain_reach(1, tail)
            &&& chain_find(r2, c2, stype) == (match chain_find(root, chain, stype) {
                Some(i) => Some(i),
                None => shift_find(chain_find(1, tail, stype), chain_reach(root, chain) as int),
            })
        }),
{
    let k = chain_reach(root, chain);
    lemma_chain_reach_bounds(root, chain);
    if k == 0 {
        assert(chain_find(root, chain, stype) is None) by {
            lemma_find_within_reach(root, chain, stype);
        }
        assert(shift_find(chain_find(1, tail, stype), 0) == chain_find(1, tail, stype));
    } else {
        lemma_push_find(root, chain, tail, stype);
    }
}

/// A structure that starts with a tagged header.
pub trait MagmaTaggedStructure {
    /// The header of the structure.
    spec fn spec_header(&self) -> MagmaStructureTypeHeader;

    /// The tag that structures of this kind carry.
    fn structure_type() -> MagmaStructureType;

    /// The header of the structure.
    fn header(&self) -> (h: &MagmaStructureTypeHeader)
        ensures
            *h == self.spec_header(),
    ;
}

/// Marks that structures of kind `Self` may extend structures of kind `Root`.
pub trait MagmaExtends<Root> {}

impl MagmaTaggedStructure for MagmaCreateBufferInfo {
    open spec fn spec_header(&self) -> MagmaStructureTypeHeader {
        self.header
    }

    fn structure_type() -> (r: MagmaStructureType)
        ensures
            r == MagmaStructureType::CreateBufferInfo,
    {
        MagmaStructureType::CreateBufferInfo
    }

    fn header(&self) -> &MagmaStructureTypeHeader {
        &self.header
    }
}

impl MagmaTaggedStructure for MagmaDeviceCreateInfo {
    open spec fn spec_header(&self) -> MagmaStructureTypeHeader {
        self.header
    }

    fn structure_type() -> (r: MagmaStructureType)
        ensures
            r == MagmaStructureType::DeviceCreateInfo,
    {
        MagmaStructureType::DeviceCreateInfo
    }

    fn header(&self) -> &MagmaStructureTypeHeader {
        &self.header
    }
}

impl MagmaTaggedStructure for MagmaWireSubmitSyncInfo {
    open spec fn spec_header(&self) -> MagmaStructureTypeHeader {
        self.header
    }

    fn structure_type() -> (r: MagmaStructureType)
        ensures
            r == MagmaStructureType::SubmitSyncInfo,
    {
        MagmaStructureType::SubmitSyncInfo
    }

    fn header(&self) -> &MagmaStructureTypeHeader {
        &self.header
    }
}

impl MagmaTaggedStructure for MagmaWireSubmitInfo {
    open spec fn spec_header(&self) -> MagmaStructureTypeHeader {
        self.header
    }

    fn structure_type() -> (r: MagmaStructureType)
        ensures
            r == MagmaStructureType::SubmitInfo,
    {
        MagmaStructureType::SubmitInfo
    }

    fn header(&self) -> &MagmaStructureTypeHeader {
        &self.header
    }
}

impl MagmaTaggedStructure for MagmaSubmitAddressSpaceInfo {
    open spec fn spec_header(&self) -> MagmaStructureTypeHeader {
        self.header
    }

    fn structure_type() -> (r: MagmaStructureType)
        ensures
            r == MagmaStructureType::SubmitAddressSpaceInfo,
    {
        MagmaStructureType::SubmitAddressSpaceInfo
    }

    fn header(&self) -> &MagmaStructureTypeHeader {
        &self.header
    }
}

impl MagmaTaggedStructure for MagmaWireSubmitBufferInfo {
    open spec fn spec_header(&self) -> MagmaStructureTypeHeader {
        self.header
    }

    fn structure_type() -> (r: MagmaStructureType)
        ensures
            r == MagmaStructureType::SubmitBufferInfo,
    {
        MagmaStructureType::SubmitBufferInfo
    }

    fn header(&self) -> &MagmaStructureTypeHeader {
        &self.header
    }
}

impl MagmaTaggedStructure for MagmaCreateSyncObjInfo {
    open spec fn spec_header(&self) -> MagmaStructureTypeHeader {
        self.header
    }

    fn structure_type() -> (r: MagmaStructureType)
        ensures
            r == MagmaStructureType::CreateSyncObjInfo,
    {
        MagmaStructureType::CreateSyncObjInfo
    }

    fn header(&self) -> &MagmaStructureTypeHeader {
        &self.header
    }
}

impl MagmaTaggedStructure for MagmaSyncProperties {
    open spec fn spec_header(&self) -> MagmaStructureTypeHeader {
        self.header
    }

    fn structure_type() -> (r: MagmaStructureType)
        ensures
            r == MagmaStructureType::SyncProperties,
    {
        MagmaStructureType::SyncProperties
    }

    fn header(&self) -> &MagmaStructureTypeHeader {
        &self.header
    }
}

impl MagmaTaggedStructure for MagmaVirtCapabilities {
    open spec fn spec_header(&self) -> MagmaStructureTypeHeader {
        self.header
    }

    fn structure_type() -> (r: MagmaStructureType)
        ensures
            r == MagmaStructureType::VirtCapabilities,
    {
        MagmaStructureType::VirtCapabilities
    }

    fn header(&self) -> &MagmaStructureTypeHeader {
        &self.header
    }
}

impl MagmaTaggedStructure for MagmaPhysicalDeviceInfo {
    open spec fn spec_header(&self) -> MagmaStructureTypeHeader {
        self.header
    }

    fn structure_type() -> (r: MagmaStructureType)
        ensures
            r == MagmaStructureType::PhysicalDeviceInfo,
    {
        MagmaStructureType::PhysicalDeviceInfo
    }

    fn header(&self) -> &MagmaStructureTypeHeader {
        &self.header
    }
}

impl MagmaTaggedStructure for MagmaPhysicalDeviceMemoryType {
    open spec fn spec_header(&self) -> MagmaStructureTypeHeader {
        self.header
    }

    fn structure_type() -> (r: MagmaStructureType)
        ensures
            r == MagmaStructureType::PhysicalDeviceMemoryType,
    {
        MagmaStructureType::PhysicalDeviceMemoryType
    }

    fn header(&self) -> &MagmaStructureTypeHeader {
        &self.header
    }
}

impl MagmaTaggedStructure for MagmaPhysicalDeviceMemoryHeap {
    open spec fn spec_header(&self) -> MagmaStructureTypeHeader {
        self.header
    }

    fn structure_type() -> (r: MagmaStructureType)
        ensures
            r == MagmaStructureType::PhysicalDeviceMemoryHeap,
    {
        MagmaStructureType::PhysicalDeviceMemoryHeap
    }

    fn header(&self) -> &MagmaStructureTypeHeader {
        &self.header
    }
}

impl MagmaExtends<MagmaWireSubmitInfo> for MagmaSubmitAddressSpaceInfo {}

impl MagmaExtends<MagmaWireSubmitInfo> for MagmaWireSubmitBufferInfo {}

impl MagmaExtends<MagmaVirtCapabilities> for MagmaPhysicalDeviceInfo {}

impl MagmaExtends<MagmaPhysicalDeviceInfo> for MagmaPhysicalDeviceMemoryType {}

impl MagmaExtends<MagmaPhysicalDeviceInfo> for MagmaPhysicalDeviceMemoryHeap {}

impl MagmaWireSubmitInfo {
    /// The first address-space extension in the chain that this structure links to, if any.
    pub fn address_space_info(&self, chain: &[MagmaExtensibleStruct]) -> (r: Option<MagmaSubmitAddressSpaceInfo>)
        ensures
            r == (match chain_find(self.header.p_next, chain@, MAGMA_STRUCTURE_TYPE_SUBMIT_ADDRESS_SPACE_INFO) {
                Some(i) => (match chain@[i] {
                    MagmaExtensibleStruct::SubmitAddressSpaceInfo(s) => Some(s),
                    _ => None,
                }),
                None => None,
            }),
    {
        proof {
            lemma_chain_find_bounds(self.header.p_next, chain@, MAGMA_STRUCTURE_TYPE_SUBMIT_ADDRESS_SPACE_INFO);
        }
        match find_extension(self.header.p_next, chain, MAGMA_STRUCTURE_TYPE_SUBMIT_ADDRESS_SPACE_INFO) {
            Some(i) => match &chain[i] {
                MagmaExtensibleStruct::SubmitAddressSpaceInfo(s) => Some(*s),
                _ => None,
            },
            None => None,
        }
    }

    /// The first command-buffer extension in the chain that this structure links to, if any.
    pub fn buffer_info(&self, chain: &[MagmaExtensibleStruct]) -> (r: Option<MagmaWireSubmitBufferInfo>)
        ensures
            r == (match chain_find(self.header.p_next, chain@, MAGMA_STRUCTURE_TYPE_SUBMIT_BUFFER_INFO) {
                Some(i) => (match chain@[i] {
                    MagmaExtensibleStruct::WireSubmitBufferInfo(s) => Some(s),
                    _ => None,
                }),
                None => None,
            }),
    {
        proof {
            lemma_chain_find_bounds(self.header.p_next, chain@, MAGMA_STRUCTURE_TYPE_SUBMIT_BUFFER_INFO);
        }
        match find_extension(self.header.p_next, chain, MAGMA_STRUCTURE_TYPE_SUBMIT_BUFFER_INFO) {
            Some(i) => match &chain[i] {
                MagmaExtensibleStruct::WireSubmitBufferInfo(s) => Some(*s),
                _ => None,
            },
            None => None,
        }
    }
}

impl MagmaVirtCapabilities {
    /// The first physical device record in the chain that this structure links to, if any.
    pub fn physical_device_info(&self, chain: &[MagmaExtensibleStruct]) -> (r: Option<MagmaPhysicalDeviceInfo>)
        ensures
            r == (match chain_find(self.header.p_next, chain@, MAGMA_STRUCTURE_TYPE_PHYSICAL_DEVICE_INFO) {
                Some(i) => (match chain@[i] {
                    MagmaExtensibleStruct::PhysicalDeviceInfo(s) => Some(s),
                    _ => None,
                }),
                None => None,
            }),
    {
        proof {
            lemma_chain_find_bounds(self.header.p_next, chain@, MAGMA_STRUCTURE_TYPE_PHYSICAL_DEVICE_INFO);
        }
        match find_extension(self.header.p_next, chain, MAGMA_STRUCTURE_TYPE_PHYSICAL_DEVICE_INFO) {
            Some(i) => match &chain[i] {
                MagmaExtensibleStruct::PhysicalDeviceInfo(s) => Some(*s),
                _ => None,
            },
            None => None,
        }
    }
}

impl MagmaPhysicalDeviceInfo {
    /// The first memory type record in the chain that this structure links to, if any.
    pub fn memory_type(&self, chain: &[MagmaExtensibleStruct]) -> (r: Option<MagmaPhysicalDeviceMemoryType>)
        ensures
            r == (match chain_find(self.header.p_next, chain@, MAGMA_STRUCTURE_TYPE_PHYSICAL_DEVICE_MEMORY_TYPE) {
                Some(i) => (match chain@[i] {
                    MagmaExtensibleStruct::PhysicalDeviceMemoryType(s) => Some(s),
                    _ => None,
                }),
                None => None,
            }),
    {
        proof {
            lemma_chain_find_bounds(self.header.p_next, chain@, MAGMA_STRUCTURE_TYPE_PHYSICAL_DEVICE_MEMORY_TYPE);
        }
        match find_extension(self.header.p_next, chain, MAGMA_STRUCTURE_TYPE_PHYSICAL_DEVICE_MEMORY_TYPE) {
            Some(i) => match &chain[i] {
                MagmaExtensibleStruct::PhysicalDeviceMemoryType(s) => Some(*s),
                _ => None,
            },
            None => None,
        }
    }

    /// The first memory heap record in the chain that this structure links to, if any.
    pub fn memory_heap(&self, chain: &[MagmaExtensibleStruct]) -> (r: Option<MagmaPhysicalDeviceMemoryHeap>)
        ensures
            r == (match chain_find(self.header.p_next, chain@, MAGMA_STRUCTURE_TYPE_PHYSICAL_DEVICE_MEMORY_HEAP) {
                Some(i) => (match chain@[i] {
                    MagmaExtensibleStruct::PhysicalDeviceMemoryHeap(s) => Some(s),
                    _ => None,
                }),
                None => None,
            }),
    {
        proof {
            lemma_chain_find_bounds(self.header.p_next, chain@, MAGMA_STRUCTURE_TYPE_PHYSICAL_DEVICE_MEMORY_HEAP);
        }
        match find_extension(self.header.p_next, chain, MAGMA_STRUCTURE_TYPE_PHYSICAL_DEVICE_MEMORY_HEAP) {
            Some(i) => match &chain[i] {
                MagmaExtensibleStruct::PhysicalDeviceMemoryHeap(s) => Some(*s),
                _ => None,
            },
            None => None,
        }
    }
}

} // verus!
