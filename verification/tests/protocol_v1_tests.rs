use magma::encoder::EncodeError;
use magma::protocol::MagmaCommandHeader;
use magma::protocol_v1::create_buffer_req;
use magma::protocol_v1::encode_request;
use magma::protocol_v1::get_memory_budget_req;
use magma::protocol_v1::CreateDeviceResp;
use magma::protocol_v1::Encoder;
use magma::protocol_v1::MagmaCreateBufferInfo;
use magma::protocol_v1::MagmaProtocol;
use magma::protocol_v1::MagmaStatus;
use magma::protocol_v1::MagmaStructureTypeHeader;
use magma::protocol_v1::MagmaVendorId;
use magma::protocol_v1::Writer;

#[test]
fn budget_request_bytes() {
    let req = get_memory_budget_req(3);
    let bytes = encode_request(&MagmaProtocol::GetMemoryBudget(req), 256).unwrap();
    let mut expected = Vec::new();
    for w in [4u32, 16, 0, 3] {
        expected.extend_from_slice(&w.to_le_bytes());
    }
    assert_eq!(bytes, expected);
}

#[test]
fn requests_must_fit() {
    let req = get_memory_budget_req(3);
    assert_eq!(encode_request(&MagmaProtocol::GetMemoryBudget(req), 15), Err(EncodeError::UnexpectedEof));
    let info = MagmaCreateBufferInfo {
        header: MagmaStructureTypeHeader { stype: 1, size: 32 },
        memory_type_idx: 0,
        alignment: 0,
        common_flags: 0,
        vendor_flags: 0,
        size: 1 << 20,
    };
    let bytes = encode_request(&MagmaProtocol::CreateBuffer(create_buffer_req(&info)), 512).unwrap();
    assert_eq!(bytes.len(), 48);
    assert_eq!(&bytes[40..48], &(1u64 << 20).to_le_bytes());
}

#[test]
fn encoder_writes_whole_messages_or_nothing() {
    let resp = CreateDeviceResp { header: MagmaCommandHeader { opcode: 0x8000_0002, size: 16 }, device: 5, padding: 0 };
    let mut e = Encoder::new(vec![0u8; 24]);
    assert_eq!(e.encode_resp_create_device(&resp), Ok(()));
    assert_eq!(e.bytes_written(), 16);
    assert_eq!(e.encode_resp_create_device(&resp), Err(EncodeError::UnexpectedEof));
    assert_eq!(e.bytes_written(), 16);
    let out = e.into_inner();
    assert_eq!(&out[16..24], &[0u8; 8]);
    let mut w = Writer::new(vec![0u8; 4]);
    assert_eq!(w.write_all(&[1, 2]), Ok(()));
    assert_eq!(w.write_all(&[3, 4, 5]), Err(EncodeError::UnexpectedEof));
    assert_eq!(w.write_all(&[3, 4]), Ok(()));
    assert_eq!(w.into_inner(), vec![1, 2, 3, 4]);
}

#[test]
fn numbers_of_the_first_version() {
    assert_eq!(MagmaVendorId::ARM.raw(), 0x13B5);
    assert_eq!(MagmaVendorId::Qualcomm.raw(), 0x5413);
    assert_eq!(MagmaStatus::Unimplemented.raw(), -7);
    assert_eq!(MagmaStatus::Success.raw(), 0);
}
