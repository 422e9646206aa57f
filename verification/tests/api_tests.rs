use magma::api::find_extension;
use magma::api::push_next;
use magma::defines::MAGMA_HEAP_CPU_VISIBLE_BIT;
use magma::defines::MAGMA_HEAP_DEVICE_LOCAL_BIT;
use magma::defines::MAGMA_MEMORY_PROPERTY_DEVICE_LOCAL_BIT;
use magma::defines::MAGMA_MEMORY_PROPERTY_HOST_CACHED_BIT;
use magma::defines::MAGMA_MEMORY_PROPERTY_HOST_COHERENT_BIT;
use magma::defines::MAGMA_MEMORY_PROPERTY_HOST_VISIBLE_BIT;
use magma::defines::MAGMA_MEMORY_PROPERTY_PROTECTED_BIT;
use magma::protocol::MagmaCreateBufferInfo;
use magma::protocol::MagmaExtensibleStruct;
use magma::protocol::MagmaHeap;
use magma::protocol::MagmaMemoryType;
use magma::protocol::MagmaPhysicalDeviceMemoryHeap;
use magma::protocol::MagmaStatus;
use magma::protocol::MagmaStructureType;
use magma::protocol::MagmaSubmitAddressSpaceInfo;
use magma::protocol::MagmaSyncObjType;
use magma::protocol::MagmaVendorId;
use magma::protocol::MagmaWireSubmitBufferInfo;
use magma::protocol::MagmaWireSubmitInfo;
use magma::protocol::MagmaWireSubmitSyncInfo;
use magma::protocol::VirtioGpuBlobPreference;
use magma::protocol::MAGMA_STRUCTURE_TYPE_CREATE_BUFFER_INFO;
use magma::protocol::MAGMA_STRUCTURE_TYPE_SUBMIT_ADDRESS_SPACE_INFO;
use magma::protocol::MAGMA_STRUCTURE_TYPE_SUBMIT_BUFFER_INFO;
use magma::protocol::MAGMA_STRUCTURE_TYPE_SUBMIT_INFO;

#[test]
fn map_info_of_memory_types() {
    let mt = |f: u32| MagmaMemoryType::new(f, 0).get_map_info();
    assert_eq!(mt(MAGMA_MEMORY_PROPERTY_DEVICE_LOCAL_BIT), None);
    // Host visible and cached: cached mode (1) with read-write access (0x30).
    assert_eq!(mt(MAGMA_MEMORY_PROPERTY_HOST_VISIBLE_BIT | MAGMA_MEMORY_PROPERTY_HOST_CACHED_BIT), Some(0x31));
    // Host visible and coherent only: write-combined (3).
    assert_eq!(mt(MAGMA_MEMORY_PROPERTY_HOST_VISIBLE_BIT | MAGMA_MEMORY_PROPERTY_HOST_COHERENT_BIT), Some(0x33));
    // Host visible only: uncached (2).
    assert_eq!(mt(MAGMA_MEMORY_PROPERTY_HOST_VISIBLE_BIT), Some(0x32));
    assert_eq!(
        mt(MAGMA_MEMORY_PROPERTY_HOST_VISIBLE_BIT | MAGMA_MEMORY_PROPERTY_HOST_CACHED_BIT | MAGMA_MEMORY_PROPERTY_HOST_COHERENT_BIT),
        Some(0x31)
    );
}

#[test]
fn memory_type_predicates() {
    let m = MagmaMemoryType::new(MAGMA_MEMORY_PROPERTY_DEVICE_LOCAL_BIT | MAGMA_MEMORY_PROPERTY_PROTECTED_BIT, 2);
    assert!(m.is_device_local());
    assert!(m.is_protected());
    assert!(!m.is_host_visible());
    assert!(!m.is_coherent());
    assert!(!m.is_cached());
    assert_eq!(m.heap_idx, 2);
    let h = MagmaHeap::new(100, MAGMA_HEAP_CPU_VISIBLE_BIT);
    assert!(h.is_cpu_visible());
    assert!(!h.is_device_local());
    assert!(MagmaHeap::new(1, MAGMA_HEAP_DEVICE_LOCAL_BIT).is_device_local());
}

#[test]
fn sync_type_from_number() {
    assert_eq!(MagmaSyncObjType::from(1u32), MagmaSyncObjType::Timeline);
    assert_eq!(MagmaSyncObjType::from(0u32), MagmaSyncObjType::Binary);
    assert_eq!(MagmaSyncObjType::from(7u32), MagmaSyncObjType::Binary);
}

#[test]
fn enum_numbers_round_trip() {
    assert_eq!(MagmaVendorId::Intel.raw(), 0x8086);
    assert_eq!(MagmaVendorId::from_raw(0x1002), Some(MagmaVendorId::Amd));
    assert_eq!(MagmaVendorId::from_raw(1), None);
    assert_eq!(MagmaStatus::from_raw(-6), Some(MagmaStatus::TimedOut));
    assert_eq!(MagmaStatus::TimedOut.raw(), -6);
    assert_eq!(VirtioGpuBlobPreference::from_raw(2), Some(VirtioGpuBlobPreference::Host));
    assert_eq!(VirtioGpuBlobPreference::from_raw(3), None);
    assert_eq!(MagmaStructureType::from_raw(MAGMA_STRUCTURE_TYPE_CREATE_BUFFER_INFO).map(|t| t.raw()), Some(1));
}

#[test]
fn constructors_tag_and_size() {
    let info = MagmaCreateBufferInfo::new(1, 64, 0, 0, 4096);
    assert_eq!(info.header.stype, MAGMA_STRUCTURE_TYPE_CREATE_BUFFER_INFO);
    assert_eq!(info.header.size, 40);
    assert_eq!(info.header.p_next, 0);
    assert_eq!(info.size, 4096);
    let a = MagmaSubmitAddressSpaceInfo::new(0x1000, 64);
    assert_eq!(a.header.stype, MAGMA_STRUCTURE_TYPE_SUBMIT_ADDRESS_SPACE_INFO);
    assert_eq!(a.header.size, 32);
    let b = MagmaWireSubmitBufferInfo::new(3, 8, 16);
    assert_eq!(b.header.stype, MAGMA_STRUCTURE_TYPE_SUBMIT_BUFFER_INFO);
    assert_eq!(b.header.size, 40);
}

fn submit_info(p_next: u64) -> MagmaWireSubmitInfo {
    let sync = MagmaWireSubmitSyncInfo::new(0, 0, [0; 16], [0; 16], [0; 16], [0; 16]);
    let mut s = MagmaWireSubmitInfo::new(0, sync);
    assert_eq!(s.header.stype, MAGMA_STRUCTURE_TYPE_SUBMIT_INFO);
    s.header.p_next = p_next;
    s
}

#[test]
fn extension_lookup_follows_links() {
    let mut a = MagmaSubmitAddressSpaceInfo::new(0x2000, 128);
    let mut b = MagmaWireSubmitBufferInfo::new(4, 0, 256);
    b.header.p_next = 1;
    a.header.p_next = 0;
    let chain = vec![MagmaExtensibleStruct::WireSubmitBufferInfo(b), MagmaExtensibleStruct::SubmitAddressSpaceInfo(a)];
    let s = submit_info(1);
    assert_eq!(s.address_space_info(&chain).map(|x| x.command_va), Some(0x2000));
    assert_eq!(s.buffer_info(&chain).map(|x| x.command_buffer), Some(4));
    assert_eq!(find_extension(1, &chain, MAGMA_STRUCTURE_TYPE_SUBMIT_ADDRESS_SPACE_INFO), Some(1));
    // Without a link, nothing is found.
    let s = submit_info(0);
    assert!(s.address_space_info(&chain).is_none());
    // A chain that ends before the extension.
    let mut b2 = b;
    b2.header.p_next = 0;
    let chain2 = vec![MagmaExtensibleStruct::WireSubmitBufferInfo(b2), MagmaExtensibleStruct::SubmitAddressSpaceInfo(a)];
    assert_eq!(find_extension(1, &chain2, MAGMA_STRUCTURE_TYPE_SUBMIT_ADDRESS_SPACE_INFO), None);
}

#[test]
fn heap_record_lookup() {
    let heap = MagmaPhysicalDeviceMemoryHeap::new(1 << 30, MAGMA_HEAP_DEVICE_LOCAL_BIT);
    let chain = vec![MagmaExtensibleStruct::PhysicalDeviceMemoryHeap(heap)];
    assert_eq!(find_extension(1, &chain, heap.header.stype), Some(0));
    assert_eq!(find_extension(1, &chain, 12345), None);
}

#[test]
fn pushed_extension_is_found_at_the_end() {
    let mut root = submit_info(0).header;
    let mut chain: Vec<MagmaExtensibleStruct> = Vec::new();
    let a = MagmaSubmitAddressSpaceInfo::new(0x3000, 64);
    push_next(&mut root, &mut chain, MagmaExtensibleStruct::SubmitAddressSpaceInfo(a), &[]);
    assert_eq!(root.p_next, 1);
    assert_eq!(chain.len(), 1);
    assert_eq!(find_extension(root.p_next, &chain, MAGMA_STRUCTURE_TYPE_SUBMIT_ADDRESS_SPACE_INFO), Some(0));
    let b = MagmaWireSubmitBufferInfo::new(7, 0, 32);
    push_next(&mut root, &mut chain, MagmaExtensibleStruct::WireSubmitBufferInfo(b), &[]);
    assert_eq!(chain.len(), 2);
    // The first extension now links to the second.
    assert_eq!(chain[0].header().p_next, 1);
    assert_eq!(find_extension(root.p_next, &chain, MAGMA_STRUCTURE_TYPE_SUBMIT_BUFFER_INFO), Some(1));
    assert_eq!(find_extension(root.p_next, &chain, MAGMA_STRUCTURE_TYPE_SUBMIT_ADDRESS_SPACE_INFO), Some(0));
}

#[test]
fn pushed_extension_keeps_its_own_chain() {
    let mut root = submit_info(0).header;
    let mut chain: Vec<MagmaExtensibleStruct> = Vec::new();
    // The buffer extension already links to an address-space extension.
    let mut b = MagmaWireSubmitBufferInfo::new(7, 0, 32);
    b.header.p_next = 1;
    let a = MagmaSubmitAddressSpaceInfo::new(0x3000, 64);
    push_next(
        &mut root,
        &mut chain,
        MagmaExtensibleStruct::WireSubmitBufferInfo(b),
        &[MagmaExtensibleStruct::SubmitAddressSpaceInfo(a)],
    );
    assert_eq!(root.p_next, 1);
    assert_eq!(chain.len(), 2);
    assert_eq!(find_extension(root.p_next, &chain, MAGMA_STRUCTURE_TYPE_SUBMIT_BUFFER_INFO), Some(0));
    assert_eq!(find_extension(root.p_next, &chain, MAGMA_STRUCTURE_TYPE_SUBMIT_ADDRESS_SPACE_INFO), Some(1));
}
