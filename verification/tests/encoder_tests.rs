use magma::encoder::EncodeError;
use magma::encoder::Encoder;
use magma::protocol::BufferClose;
use magma::protocol::CreateBuffer;
use magma::protocol::CreateDevice;
use magma::protocol::MagmaCommandHeader;
use magma::protocol::MagmaCreateBufferInfo;
use magma::protocol::MagmaExtensibleStruct;
use magma::protocol::MagmaPhysicalDeviceMemoryHeap;
use magma::protocol::MagmaPhysicalDeviceMemoryType;
use magma::protocol::MagmaProtocol;
use magma::protocol::MagmaStructureTypeHeader;
use magma::protocol::MagmaSubmitAddressSpaceInfo;
use magma::protocol::MAGMA_OPCODE_BUFFER_CLOSE;
use magma::protocol::MAGMA_OPCODE_CREATE_DEVICE;
use magma::protocol::MAGMA_STRUCTURE_TYPE_CREATE_BUFFER_INFO;
use magma::protocol::MAGMA_STRUCTURE_TYPE_PHYSICAL_DEVICE_MEMORY_HEAP;
use magma::protocol::MAGMA_STRUCTURE_TYPE_PHYSICAL_DEVICE_MEMORY_TYPE;

fn le32(x: u32) -> Vec<u8> {
    x.to_le_bytes().to_vec()
}

fn le64(x: u64) -> Vec<u8> {
    x.to_le_bytes().to_vec()
}

#[test]
fn create_device_bytes() {
    let msg = CreateDevice {
        header: MagmaCommandHeader { opcode: MAGMA_OPCODE_CREATE_DEVICE, size: 16 },
        physical_device: 3,
        device: 1,
    };
    let mut e = Encoder::new(Vec::new());
    assert_eq!(e.encode_create_device(&msg), Ok(()));
    assert_eq!(e.bytes_written(), 16);
    let mut expected = Vec::new();
    expected.extend(le32(2));
    expected.extend(le32(16));
    expected.extend(le32(3));
    expected.extend(le32(1));
    assert_eq!(e.into_inner(), expected);
}

#[test]
fn growable_sink_keeps_what_it_held() {
    let msg = BufferClose { header: MagmaCommandHeader { opcode: MAGMA_OPCODE_BUFFER_CLOSE, size: 16 }, buffer: 9, _padding: 0 };
    let mut e = Encoder::new(vec![0xaa, 0xbb]);
    assert_eq!(e.encode_msg(&MagmaProtocol::BufferClose(msg), &[]), Ok(()));
    let out = e.into_inner();
    assert_eq!(out.len(), 18);
    assert_eq!(&out[..2], &[0xaa, 0xbb]);
    assert_eq!(&out[2..6], &le32(9)[..]);
}

#[test]
fn fixed_sink_fails_when_full() {
    let msg = BufferClose { header: MagmaCommandHeader { opcode: MAGMA_OPCODE_BUFFER_CLOSE, size: 16 }, buffer: 9, _padding: 0 };
    let mut e = Encoder::from_slice(vec![0u8; 20]);
    assert_eq!(e.encode_buffer_close(&msg), Ok(()));
    assert_eq!(e.bytes_written(), 16);
    assert_eq!(e.encode_buffer_close(&msg), Err(EncodeError::WriteZero));
    assert_eq!(e.bytes_written(), 16);
    let out = e.into_inner();
    assert_eq!(out.len(), 20);
    assert_eq!(&out[16..20], &le32(MAGMA_OPCODE_BUFFER_CLOSE)[..]);
}

fn memory_type(p_next: u64) -> MagmaExtensibleStruct {
    MagmaExtensibleStruct::PhysicalDeviceMemoryType(MagmaPhysicalDeviceMemoryType {
        header: MagmaStructureTypeHeader { stype: MAGMA_STRUCTURE_TYPE_PHYSICAL_DEVICE_MEMORY_TYPE, size: 24, p_next },
        property_flags: 7,
        heap_idx: 0,
    })
}

fn memory_heap(p_next: u64) -> MagmaExtensibleStruct {
    MagmaExtensibleStruct::PhysicalDeviceMemoryHeap(MagmaPhysicalDeviceMemoryHeap {
        header: MagmaStructureTypeHeader { stype: MAGMA_STRUCTURE_TYPE_PHYSICAL_DEVICE_MEMORY_HEAP, size: 32, p_next },
        heap_size: 4096,
        heap_flags: 1,
    })
}

#[test]
fn chain_links_become_flags() {
    let chain = vec![memory_type(0x1234), memory_heap(0)];
    let mut e = Encoder::new(Vec::new());
    assert_eq!(e.encode_extensible_chain(0xdead, &chain), Ok(()));
    let out = e.into_inner();
    assert_eq!(out.len(), 24 + 32);
    // The first link is set: written as 1.
    assert_eq!(&out[8..16], &le64(1)[..]);
    // The second ends the chain: written as 0.
    assert_eq!(&out[24 + 8..24 + 16], &le64(0)[..]);
    assert_eq!(&out[24 + 16..24 + 24], &le64(4096)[..]);
}

#[test]
fn chain_stops_at_a_zero_link() {
    let chain = vec![memory_type(0), memory_heap(0)];
    let mut e = Encoder::new(Vec::new());
    assert_eq!(e.encode_extensible_chain(1, &chain), Ok(()));
    assert_eq!(e.bytes_written(), 24);
    let mut e = Encoder::new(Vec::new());
    assert_eq!(e.encode_extensible_chain(0, &chain), Ok(()));
    assert_eq!(e.bytes_written(), 0);
}

#[test]
fn chain_with_a_wrong_tag_is_invalid() {
    let bad = MagmaExtensibleStruct::PhysicalDeviceMemoryHeap(MagmaPhysicalDeviceMemoryHeap {
        header: MagmaStructureTypeHeader { stype: 99, size: 32, p_next: 0 },
        heap_size: 1,
        heap_flags: 1,
    });
    let chain = vec![memory_type(1), bad];
    let mut e = Encoder::new(Vec::new());
    assert_eq!(e.encode_extensible_chain(1, &chain), Err(EncodeError::InvalidData));
    assert_eq!(e.bytes_written(), 24);
}

#[test]
fn create_buffer_follows_its_chain() {
    let info = MagmaCreateBufferInfo {
        header: MagmaStructureTypeHeader { stype: MAGMA_STRUCTURE_TYPE_CREATE_BUFFER_INFO, size: 40, p_next: 77 },
        memory_type_idx: 1,
        alignment: 0,
        common_flags: 0,
        vendor_flags: 0,
        size: 4096,
    };
    let msg = CreateBuffer {
        header: MagmaCommandHeader { opcode: 4, size: 64 },
        device: 0,
        _pad0: 0,
        info,
        buffer_out: 5,
        _padding: 0,
    };
    let chain = vec![MagmaExtensibleStruct::SubmitAddressSpaceInfo(MagmaSubmitAddressSpaceInfo {
        header: MagmaStructureTypeHeader { stype: 5, size: 32, p_next: 0 },
        command_va: 0x1000,
        length: 64,
    })];
    let mut e = Encoder::new(Vec::new());
    assert_eq!(e.encode_create_buffer(&msg, &chain), Ok(()));
    let out = e.into_inner();
    assert_eq!(out.len(), 64 + 32);
    assert_eq!(&out[16 + 8..16 + 16], &le64(1)[..]);
    assert_eq!(&out[64 + 16..64 + 24], &le64(0x1000)[..]);
}

#[test]
fn element_bytes_uses_the_given_link() {
    let b = magma::encoder::element_bytes(&memory_heap(55), 1);
    assert_eq!(b.len(), 32);
    assert_eq!(&b[8..16], &le64(1)[..]);
}
