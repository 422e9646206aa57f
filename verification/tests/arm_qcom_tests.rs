use magma::defines::MagmaMappedMemoryRange;
use magma::error::Error;
use magma::kgsl;
use magma::kgsl::vbo_search_start;
use magma::kgsl::vbo_search_step;
use magma::kgsl::KgslAddressSpace;
use magma::kgsl::VboAction;
use magma::kgsl::VboEvent;
use magma::kgsl::VboSearch;
use magma::msm;
use magma::panthor;
use magma::protocol::MagmaCreateQueueInfo;
use magma::protocol::MagmaGpuMapFlags;
use magma::protocol::MagmaHeap;
use magma::protocol::MagmaSubmitAddressSpaceInfo;
use magma::submit::MagmaSubmitBufferInfo;

fn buf_info(command_buffer: u32, start_offset: u64, length: u64) -> MagmaSubmitBufferInfo {
    MagmaSubmitBufferInfo { header: Default::default(), command_buffer, start_offset, length }
}

#[test]
fn kgsl_gpu_ids() {
    assert_eq!(kgsl::derive_gpu_id(0x0603_0001, 0), 630);
    assert_eq!(kgsl::derive_gpu_id(0x0704_0300, 0), 743);
    assert_eq!(kgsl::derive_gpu_id(0x0603_0001, 650), 650);
    assert_eq!(kgsl::derive_gpu_id(0xffff_ffff, 0), 255 * 111);
}

#[test]
fn kgsl_address_space_targets() {
    let a = KgslAddressSpace::new(7, 0x1000, 0x4000);
    assert_eq!(a.compute_target_offset(0x1800), 0x800);
    assert_eq!(a.compute_target_offset(0x800), 0x800);
    assert_eq!(a.as_vm_id(), Some(7));
    assert_eq!(a.map_target(Some(3), 0x1000, 0x4000), Ok(Some((3, 0))));
    assert_eq!(a.map_target(Some(3), 0x1000, 0x4001), Err(Error::Unimplemented));
    assert_eq!(a.map_target(Some(3), u64::MAX, 2), Err(Error::Unimplemented));
    assert_eq!(a.map_target(None, 0x1000, 1), Err(Error::Unimplemented));
    assert_eq!(a.unmap_target(0x2000), Some(0x1000));
    let none = KgslAddressSpace::new(0, 0, 0);
    assert_eq!(none.as_vm_id(), None);
    assert_eq!(none.map_target(Some(3), 0, 1 << 40), Ok(None));
    assert_eq!(none.unmap_target(5), None);
}

#[test]
fn kgsl_memory_and_queues() {
    let types = kgsl::get_memory_types();
    assert_eq!(types.iter().map(|t| t.property_flags).collect::<Vec<_>>(), vec![0x7, 0xf]);
    let heaps = kgsl::get_memory_heaps();
    assert_eq!((heaps[0].heap_size, heaps[0].heap_flags), (kgsl::KGSL_HEAP_SIZE, 0x11));
    let b = kgsl::get_memory_budget(&heaps, 0).unwrap();
    assert_eq!((b.budget, b.usage), (kgsl::KGSL_HEAP_SIZE, 0));
    assert_eq!(kgsl::get_memory_budget(&heaps, 1).err(), Some(Error::InvalidArgs));
    let f = kgsl::get_queue_family_properties().unwrap();
    assert_eq!((f[0].queue_flags.bits(), f[0].queue_count), (3, 1));
    assert_eq!(kgsl::fence_handle(5), Some(5));
    assert_eq!(kgsl::fence_handle(-1), None);
    assert_eq!(kgsl::gpumem_alloc_flags(true), 0x8C00_0000);
    assert_eq!(kgsl::gpumem_alloc_flags(false), 0);
    assert_eq!(kgsl::buffer_memory(&types, 1), Ok((true, Some(0x31))));
    assert_eq!(kgsl::buffer_memory(&types, 0), Ok((false, Some(0x33))));
    assert_eq!(kgsl::buffer_memory(&types, 2), Err(Error::InvalidArgs));
}

#[test]
fn kgsl_commands() {
    let c = kgsl::gpu_command(Some(MagmaSubmitAddressSpaceInfo::new(0x8000, 96)), Some(buf_info(1, 2, 3)), &[Some(4), None, Some(6)]).unwrap();
    assert_eq!((c.cmd.offset, c.cmd.gpuaddr, c.cmd.size, c.cmd.flags, c.cmd.id), (0, 0x8000, 96, kgsl::KGSL_CMDLIST_IB, 0));
    assert_eq!(c.fences, vec![4, 6]);
    let c = kgsl::gpu_command(None, Some(buf_info(11, 32, 64)), &[]).unwrap();
    assert_eq!((c.cmd.offset, c.cmd.gpuaddr, c.cmd.size, c.cmd.id), (32, 0, 64, 11));
    assert!(c.fences.is_empty());
    assert_eq!(kgsl::gpu_command(None, None, &[]).err(), Some(Error::Unimplemented));
}

#[test]
fn panthor_memory() {
    let heaps = panthor::query_memory_heaps();
    assert_eq!((heaps[0].heap_size, heaps[0].heap_flags), (panthor::PANTHOR_HEAP_SIZE, 0x11));
    let coherent = panthor::query_memory_types(0);
    assert_eq!(coherent.iter().map(|t| t.property_flags).collect::<Vec<_>>(), vec![0x1, 0x7, 0xf, 0xb]);
    let plain = panthor::query_memory_types(panthor::DRM_PANTHOR_GPU_COHERENCY_NONE);
    assert_eq!(plain.iter().map(|t| t.property_flags).collect::<Vec<_>>(), vec![0x1, 0x7, 0xb]);
}

#[test]
fn panthor_groups() {
    let info = MagmaCreateQueueInfo::new(0, 2, 0);
    let g = panthor::group_create_params(0b1111, 0b1, 3, &info);
    assert_eq!((g.max_compute_cores, g.max_fragment_cores, g.max_tiler_cores), (4, 4, 1));
    assert_eq!((g.compute_core_mask, g.tiler_core_mask, g.vm_id), (0b1111, 1, 3));
    assert_eq!(g.priority, panthor::PANTHOR_GROUP_PRIORITY_HIGH);
    assert_eq!((g.queue_priority, g.ringbuf_size), (1, 0x1_0000));
    let g = panthor::group_create_params(0, 0, 3, &MagmaCreateQueueInfo::new(0, 9, 0));
    assert_eq!((g.compute_core_mask, g.max_compute_cores, g.tiler_core_mask), (1, 1, 1));
    assert_eq!(g.priority, panthor::PANTHOR_GROUP_PRIORITY_MEDIUM);
    assert_eq!(panthor::group_create_params(u64::MAX, 1, 0, &MagmaCreateQueueInfo::new(0, 0, 0)).max_compute_cores, 64);
    assert_eq!(panthor::count_ones_u64(0x8000_0000_0000_0001), 2);
    assert!(panthor::is_bind_queue(&MagmaCreateQueueInfo::new(1, 0, 0)));
    assert!(panthor::is_bind_queue(&MagmaCreateQueueInfo::new(0, 0, 8)));
    assert!(!panthor::is_bind_queue(&MagmaCreateQueueInfo::new(2, 0, 7)));
}

#[test]
fn panthor_bind_flags_and_syncs() {
    assert_eq!(panthor::map_bind_flags(MagmaGpuMapFlags::from_bits_retain(7)), 0);
    assert_eq!(panthor::map_bind_flags(MagmaGpuMapFlags::from_bits_retain(1)), 0x3);
    assert_eq!(panthor::map_bind_flags(MagmaGpuMapFlags::from_bits_retain(3)), 0x2);
    assert_eq!(panthor::bo_create_flags(true), panthor::DRM_PANTHOR_BO_WB_MMAP);
    assert_eq!(panthor::bo_create_flags(false), 0);
    let whole = panthor::bo_sync_ops(5, 4096, 1, &[]);
    assert_eq!(whole.len(), 1);
    assert_eq!((whole[0].handle, whole[0].type_, whole[0].offset, whole[0].size), (5, 1, 0, 4096));
    let ranges = [MagmaMappedMemoryRange { offset: 8, size: 16 }, MagmaMappedMemoryRange { offset: 64, size: 32 }];
    let ops = panthor::bo_sync_ops(5, 4096, 0, &ranges);
    assert_eq!(ops.iter().map(|o| (o.offset, o.size)).collect::<Vec<_>>(), vec![(8, 16), (64, 32)]);
}

#[test]
fn panthor_submissions() {
    let s = panthor::queue_submit(false, None, Some(buf_info(1, 0x100, 0x1_0000_0040)), &[Some(3)], &[None, Some(4)]);
    assert_eq!((s.bind, s.stream_addr, s.stream_size), (false, 0x100, 0x40));
    assert_eq!(s.sync_ops.iter().map(|o| (o.flags, o.handle)).collect::<Vec<_>>(), vec![(0, 3), (0x8000_0000, 4)]);
    let s = panthor::queue_submit(false, Some(MagmaSubmitAddressSpaceInfo::new(0x9000, 12)), Some(buf_info(1, 2, 3)), &[], &[]);
    assert_eq!((s.stream_addr, s.stream_size), (0x9000, 12));
    let s = panthor::queue_submit(false, None, None, &[], &[]);
    assert_eq!((s.stream_addr, s.stream_size), (0, 0));
    let s = panthor::queue_submit(true, Some(MagmaSubmitAddressSpaceInfo::new(0x9000, 12)), None, &[Some(1)], &[]);
    assert_eq!((s.bind, s.stream_addr, s.sync_ops.len()), (true, 0, 1));
    assert_eq!(panthor::vm_status(Ok(0)), Ok(()));
    assert_eq!(panthor::vm_status(Ok(1)), Err(Error::ContextKilled));
    assert_eq!(panthor::vm_status(Err(Error::TimedOut)), Err(Error::InternalError));
    assert_eq!(panthor::group_status(Ok(0)), Ok(()));
    assert_eq!(panthor::group_status(Ok(3)), Err(Error::TimedOut));
    assert_eq!(panthor::group_status(Ok(2)), Err(Error::ContextKilled));
    assert_eq!(panthor::group_status(Err(Error::BadState)), Err(Error::InternalError));
}

#[test]
fn msm_submissions() {
    let s = msm::gem_submit(4, Some(buf_info(7, 16, 128)), &[Some(1), None], &[Some(2)]).unwrap();
    assert_eq!((s.bo_handle, s.bo_flags, s.cmd_type, s.submit_offset, s.size, s.queueid), (7, 1, 1, 16, 128, 4));
    assert_eq!(s.flags, msm::MSM_SUBMIT_SYNCOBJ_IN | msm::MSM_SUBMIT_SYNCOBJ_OUT);
    assert_eq!(s.in_syncs.iter().map(|x| x.handle).collect::<Vec<_>>(), vec![1]);
    assert_eq!(s.out_syncs.iter().map(|x| x.handle).collect::<Vec<_>>(), vec![2]);
    let s = msm::gem_submit(4, Some(buf_info(7, 16, 128)), &[], &[]).unwrap();
    assert_eq!(s.flags, 0);
    assert_eq!(msm::gem_submit(4, None, &[], &[]).err(), Some(Error::Unimplemented));
    let f = msm::get_queue_family_properties().unwrap();
    assert_eq!((f[0].queue_flags.bits(), f[0].queue_count), (3, 1));
    assert!(msm::get_memory_types().unwrap().is_empty());
    assert!(msm::get_memory_heaps().unwrap().is_empty());
}

#[test]
fn kgsl_budget_ignores_flags() {
    let heaps = [MagmaHeap::new(5, 0)];
    assert_eq!(kgsl::get_memory_budget(&heaps, 0).map(|b| b.budget), Ok(5));
}

#[test]
fn kgsl_vbo_search_settles_on_first_fit() {
    let vbo_flags = kgsl::KGSL_MEMFLAGS_VBO | kgsl::KGSL_MEMFLAGS_VBO_NO_MAP_ZERO;
    let (s, a) = vbo_search_start();
    assert_eq!(a, VboAction::Alloc { size: 0x100_0000_0000, flags: vbo_flags });
    // The 1 TiB allocation fails: the search moves to 256 GiB.
    let (s, a) = vbo_search_step(s, VboEvent::Allocated(None));
    assert_eq!(a, VboAction::Alloc { size: 0x40_0000_0000, flags: vbo_flags });
    // 256 GiB is allocated but cannot be located: it is freed.
    let (s, a) = vbo_search_step(s, VboEvent::Allocated(Some(3)));
    assert_eq!(a, VboAction::Info { id: 3 });
    let (s, a) = vbo_search_step(s, VboEvent::Located(None));
    assert_eq!(a, VboAction::Free { id: 3 });
    let (s, a) = vbo_search_step(s, VboEvent::Freed);
    assert_eq!(a, VboAction::Alloc { size: 0x20_0000_0000, flags: vbo_flags });
    // 128 GiB is allocated and located.
    let (s, a) = vbo_search_step(s, VboEvent::Allocated(Some(4)));
    assert_eq!(a, VboAction::Info { id: 4 });
    let (s, a) = vbo_search_step(s, VboEvent::Located(Some(0x5000_0000)));
    assert_eq!(s, VboSearch::Finished);
    assert_eq!(a, VboAction::Done(KgslAddressSpace::new(4, 0x5000_0000, 0x20_0000_0000)));
}

#[test]
fn kgsl_vbo_search_without_any_fit() {
    let (mut s, mut a) = vbo_search_start();
    let mut sizes = Vec::new();
    while let VboAction::Alloc { size, .. } = a {
        sizes.push(size);
        let next = vbo_search_step(s, VboEvent::Allocated(None));
        s = next.0;
        a = next.1;
    }
    assert_eq!(sizes, vec![0x100_0000_0000, 0x40_0000_0000, 0x20_0000_0000, 0x10_0000_0000, 0x4_0000_0000, 0x1_0000_0000]);
    assert_eq!(s, VboSearch::Finished);
    assert_eq!(a, VboAction::Done(KgslAddressSpace::new(0, 0, 0)));
}

#[test]
fn kgsl_fence_poll_decisions() {
    assert_eq!(kgsl::poll_timeout_ms(u64::MAX), -1);
    assert_eq!(kgsl::poll_timeout_ms(2_500_000), 2);
    assert_eq!(kgsl::poll_timeout_ms(999_999), 0);
    assert_eq!(kgsl::poll_timeout_ms(u64::MAX - 1), i32::MAX);
    assert_eq!(kgsl::poll_result(-1), Err(Error::InternalError));
    assert_eq!(kgsl::poll_result(0), Err(Error::TimedOut));
    assert_eq!(kgsl::poll_result(1), Ok(()));
}
