use magma::error::Error;
use magma::virtgpu::queue_ring_idx;
use magma::virtgpu::validate_ring_buffer_len;

#[test]
fn ring_buffer_len_bounds() {
    assert_eq!(validate_ring_buffer_len(4096), Ok(4096usize));
    assert_eq!(validate_ring_buffer_len(256 * 1024 * 1024), Ok(256 * 1024 * 1024usize));
    assert_eq!(validate_ring_buffer_len(0), Err(Error::InvalidArgs));
    assert_eq!(validate_ring_buffer_len(4095), Err(Error::InvalidArgs));
    assert_eq!(validate_ring_buffer_len(4097), Err(Error::InvalidArgs));
    assert_eq!(validate_ring_buffer_len(256 * 1024 * 1024 + 4096), Err(Error::InvalidArgs));
    assert_eq!(validate_ring_buffer_len(8192), Ok(8192usize));
}

#[test]
fn queue_rings_cycle_through_63() {
    assert_eq!(queue_ring_idx(0), 1);
    assert_eq!(queue_ring_idx(62), 63);
    assert_eq!(queue_ring_idx(63), 1);
    assert_eq!(queue_ring_idx(u32::MAX), u32::MAX % 63 + 1);
}

use magma::protocol::MagmaCreateBufferInfo;
use magma::protocol::MagmaCreateQueueInfo;
use magma::protocol::MagmaExtensibleStruct;
use magma::protocol::MagmaPciBusInfo;
use magma::protocol::MagmaPhysicalDeviceInfo;
use magma::protocol::MagmaPhysicalDeviceMemoryHeap;
use magma::protocol::MagmaPhysicalDeviceMemoryType;
use magma::protocol::MagmaQueueFamilyProperties;
use magma::protocol::MagmaQueueFlags;
use magma::protocol::MagmaSubmitAddressSpaceInfo;
use magma::protocol::MagmaVendorId;
use magma::protocol::MagmaVirtCapabilities;
use magma::protocol::VirtioGpuBlobPreference;
use magma::submit::MagmaSubmitBufferInfo;
use magma::tracker::SyncObjectState;
use magma::tracker::VirtioSyncOp;
use magma::virtgpu;
use magma::virtgpu::VirtGpuFeature;
use magma::virtgpu::VirtGpuFeatures;
use magma::virtgpu::VirtioSubmitSync;
use magma::virtgpu::VirtioSyncRef;

fn caps(num_devices: u32, ring_len: u64) -> MagmaExtensibleStruct {
    MagmaExtensibleStruct::VirtCapabilities(MagmaVirtCapabilities::new(1, num_devices, VirtioGpuBlobPreference::Guest, ring_len))
}

fn device(device_id: u16) -> MagmaExtensibleStruct {
    let families = [MagmaQueueFamilyProperties::new(MagmaQueueFlags::from_bits_retain(3), 1); 16];
    MagmaExtensibleStruct::PhysicalDeviceInfo(MagmaPhysicalDeviceInfo::new(
        1,
        MagmaVendorId::Intel,
        device_id,
        0,
        MagmaPciBusInfo::new(0, 0, 0, 0, 0, 0, 0),
        2,
        families,
    ))
}

fn mem_type(flags: u32) -> MagmaExtensibleStruct {
    MagmaExtensibleStruct::PhysicalDeviceMemoryType(MagmaPhysicalDeviceMemoryType::new(flags, 0))
}

fn mem_heap(size: u64) -> MagmaExtensibleStruct {
    MagmaExtensibleStruct::PhysicalDeviceMemoryHeap(MagmaPhysicalDeviceMemoryHeap::new(size, 1))
}

#[test]
fn capabilities_group_types_and_heaps_by_device() {
    let structs = vec![
        caps(2, 8192),
        mem_type(9),
        device(1),
        mem_type(1),
        mem_heap(100),
        mem_type(2),
        device(2),
        mem_heap(200),
    ];
    let d = virtgpu::decode_capabilities(&structs).unwrap();
    assert_eq!(d.caps.ring_buffer_len, 8192);
    assert_eq!(d.devices.len(), 2);
    assert_eq!(d.devices[0].info.device_id, 1);
    assert_eq!(d.devices[0].memory_types.iter().map(|t| t.property_flags).collect::<Vec<_>>(), vec![1, 2]);
    assert_eq!(d.devices[0].memory_heaps.iter().map(|h| h.heap_size).collect::<Vec<_>>(), vec![100]);
    assert_eq!(d.devices[1].info.device_id, 2);
    assert!(d.devices[1].memory_types.is_empty());
    assert_eq!(d.devices[1].memory_heaps[0].heap_size, 200);
    let families = virtgpu::queue_family_properties(&d.devices[0].info);
    assert_eq!(families.len(), 2);
}

#[test]
fn capabilities_errors() {
    assert_eq!(virtgpu::decode_capabilities(&[]).err(), Some(Error::InvalidArgs));
    assert_eq!(virtgpu::decode_capabilities(&[caps(1, 8192)]).err(), Some(Error::InvalidArgs));
    assert_eq!(virtgpu::decode_capabilities(&[caps(0, 100)]).err(), Some(Error::InvalidArgs));
    assert_eq!(virtgpu::decode_capabilities(&[caps(1, 100), device(1), caps(1, 4096)]).err(), Some(Error::InvalidArgs));
    assert_eq!(virtgpu::decode_capabilities(&[caps(0, 4096)]).map(|d| d.devices.len()), Ok(0));
}

#[test]
fn queue_families_are_cut_to_the_count() {
    let mut info = match device(1) {
        MagmaExtensibleStruct::PhysicalDeviceInfo(i) => i,
        _ => unreachable!(),
    };
    info.queue_family_count = 40;
    assert_eq!(virtgpu::queue_family_properties(&info).len(), 16);
    info.queue_family_count = 0;
    assert!(virtgpu::queue_family_properties(&info).is_empty());
}

#[test]
fn host_features() {
    let mut values = [0u64; 10];
    values[2] = 1;
    values[5] = 1;
    values[6] = 1 << 7;
    let f = VirtGpuFeatures::new(values);
    assert!(f.support(VirtGpuFeature::ResourceBlob));
    assert!(!f.support(VirtGpuFeature::GpuRendering));
    assert!(f.support_capset(7));
    assert!(!f.support_capset(6));
    assert_eq!(f.value(VirtGpuFeature::SupportedCapsetIds), 128);
    assert_eq!(VirtGpuFeature::CreateGuestHandle.index(), 9);
    assert_eq!(virtgpu::check_host_features(&f), Ok(()));
    values[5] = 0;
    assert_eq!(virtgpu::check_host_features(&VirtGpuFeatures::new(values)), Err(Error::Unimplemented));
}

#[test]
fn command_records() {
    let c = virtgpu::create_device_cmd(2);
    assert_eq!((c.header.opcode, c.header.size, c.physical_device, c.device), (2, 16, 2, 1));
    let q = virtgpu::create_queue_cmd(None, &MagmaCreateQueueInfo::new(1, 0, 0), 9);
    assert_eq!((q.header.size, q.address_space, q.queue), (40, 1, 9));
    assert_eq!(virtgpu::create_queue_cmd(Some(4), &MagmaCreateQueueInfo::new(1, 0, 0), 9).address_space, 4);
    let m = virtgpu::map_buffer_gpu_cmd(3, None, 0, 0x1000, 64, magma::protocol::MagmaGpuMapFlags::empty());
    assert_eq!((m.header.size, m.buffer), (48, 1));
    assert_eq!(virtgpu::create_fence_cmd(0, 1).err(), Some(Error::Unimplemented));
    assert_eq!(virtgpu::create_fence_cmd(4, 1).map(|f| f.ring_idx), Ok(4));
    let close = virtgpu::virtio_sync_obj_close_cmd(5, 2, 11);
    assert_eq!((close.header.size, close.sync_obj, close.ring_idx, close.wait_seqno), (24, 5, 2, 11));
    assert_eq!(virtgpu::check_import_handle_type(32), Ok(()));
    assert_eq!(virtgpu::check_import_handle_type(80), Ok(()));
    assert_eq!(virtgpu::check_import_handle_type(16), Err(Error::InvalidArgs));
    assert_eq!(virtgpu::kumquat_exec_flags(0), 0x04);
    assert_eq!(virtgpu::kumquat_exec_flags(2), 0x14);
    assert_eq!(virtgpu::buffer_map_info(&[], 0), None);
    assert_eq!(virtgpu::get_memory_budget(&[], 0).err(), Some(Error::InvalidArgs));
}

#[test]
fn buffer_command_bytes() {
    let cmd = virtgpu::create_buffer_cmd(&MagmaCreateBufferInfo::new(1, 0, 0, 0, 4096), 7);
    let bytes = virtgpu::encode_create_buffer_cmd(&cmd).unwrap();
    assert_eq!(bytes.len(), 64);
    assert_eq!(&bytes[0..4], &4u32.to_le_bytes());
    assert_eq!(&bytes[56..60], &7u32.to_le_bytes());
}

fn sync(host_object_id: u32, has_imported_fence: bool, point: u64) -> VirtioSubmitSync {
    VirtioSubmitSync { virtio: Some(VirtioSyncRef { host_object_id, has_imported_fence }), point }
}

#[test]
fn wire_sync_info_skips_imported_fences() {
    let waits = vec![sync(1, false, 5), sync(2, true, 6), VirtioSubmitSync { virtio: None, point: 1 }, sync(3, false, 7)];
    let signals = vec![sync(4, true, 8)];
    let (info, cpu) = virtgpu::wire_sync_info(&waits, &signals);
    assert_eq!(cpu, vec![1]);
    assert_eq!(info.num_wait_sync_objs, 2);
    assert_eq!(&info.wait_sync_objs[..3], &[1, 3, 0]);
    assert_eq!(&info.wait_points[..3], &[5, 7, 0]);
    assert_eq!(info.num_signal_sync_objs, 1);
    assert_eq!((info.signal_sync_objs[0], info.signal_points[0]), (4, 8));
    assert_eq!(info.header.size, 408);
    let (wait_ops, signal_ops) = virtgpu::submission_ops(&waits, &signals, 3, 9);
    assert_eq!(wait_ops, vec![Some(VirtioSyncOp::Wait { ring_idx: 3, seqno: 9 }), None, None, Some(VirtioSyncOp::Wait { ring_idx: 3, seqno: 9 })]);
    assert_eq!(signal_ops, vec![Some(VirtioSyncOp::Signal { ring_idx: 3, seqno: 9, point: 8 })]);
}

#[test]
fn wire_sync_info_keeps_the_first_sixteen() {
    let waits: Vec<VirtioSubmitSync> = (0..20).map(|i| sync(i, false, i as u64)).collect();
    let (info, cpu) = virtgpu::wire_sync_info(&waits, &[]);
    assert!(cpu.is_empty());
    assert_eq!(info.num_wait_sync_objs, 16);
    assert_eq!(info.wait_sync_objs[15], 15);
    assert_eq!(info.num_signal_sync_objs, 0);
}

#[test]
fn submit_command_encoding() {
    let (sync_info, _) = virtgpu::wire_sync_info(&[], &[]);
    let (cmd, chain) = virtgpu::submit_command_msg(6, 2, 0, sync_info, Some(MagmaSubmitAddressSpaceInfo::new(0x7000, 32)), None);
    assert_eq!((cmd.header.size, cmd.queue, cmd._pad0, cmd.submit_info.header.p_next), (448, 6, 2, 1));
    assert_eq!(chain.len(), 1);
    let bytes = virtgpu::encode_submit(&cmd, &chain).unwrap();
    assert_eq!(bytes.len(), 480);
    assert_eq!(&bytes[448 + 16..448 + 24], &0x7000u64.to_le_bytes());
    // A command-buffer extension fits the buffer too: 448 + 40 bytes.
    let b = MagmaSubmitBufferInfo { header: Default::default(), command_buffer: 1, start_offset: 0, length: 8 };
    let (cmd, chain) = virtgpu::submit_command_msg(6, 2, 0, sync_info, None, Some(b));
    assert_eq!(chain.len(), 1);
    let bytes = virtgpu::encode_submit(&cmd, &chain).unwrap();
    assert_eq!(bytes.len(), 488);
    assert_eq!(&bytes[448 + 16..448 + 20], &1u32.to_le_bytes());
    let (cmd, chain) = virtgpu::submit_command_msg(6, 2, 0, sync_info, None, None);
    assert_eq!(cmd.submit_info.header.p_next, 0);
    assert_eq!(virtgpu::encode_submit(&cmd, &chain).map(|b| b.len()), Ok(448));
}

#[test]
fn wait_plan() {
    assert_eq!(virtgpu::wait_needs_guest_syncobj(SyncObjectState::CpuSignaled, 0), Ok(false));
    assert_eq!(virtgpu::wait_needs_guest_syncobj(SyncObjectState::Imported, 0), Err(Error::InvalidArgs));
    assert_eq!(virtgpu::wait_needs_guest_syncobj(SyncObjectState::Imported, 3), Ok(true));
}

#[test]
fn ring_submission_writes_pings_and_records() {
    let mut ring = magma::ring::MagmaRingBuffer::from_raw_parts(vec![0u8; 64 + 4096]).ok().unwrap();
    let mut pinged = 0;
    let waits = vec![sync(1, false, 5)];
    let signals = vec![sync(4, false, 9)];
    let r = virtgpu::ring_submit(
        &mut ring,
        6,
        2,
        0,
        &waits,
        &signals,
        Some(MagmaSubmitAddressSpaceInfo::new(0x7000, 32)),
        None,
        || {
            pinged += 1;
            Ok(())
        },
    );
    let (wait_ops, signal_ops) = r.unwrap();
    // The consumer of a fresh ring sleeps, so the host was pinged once.
    assert_eq!(pinged, 1);
    assert_eq!(ring.submitted_seqno(), 1);
    assert_eq!(ring.control().write_offset, 480);
    assert_eq!(wait_ops, vec![Some(VirtioSyncOp::Wait { ring_idx: 2, seqno: 1 })]);
    assert_eq!(signal_ops, vec![Some(VirtioSyncOp::Signal { ring_idx: 2, seqno: 1, point: 9 })]);
    // A failed ping fails the submission.
    let r = virtgpu::ring_submit(&mut ring, 6, 2, 0, &[], &[], None, None, || Err(Error::InternalError));
    assert_eq!(r.err(), Some(Error::InternalError));
}
