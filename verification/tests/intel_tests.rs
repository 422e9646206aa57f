use magma::defines::MAGMA_BUFFER_FLAG_SCANOUT;
use magma::defines::MAGMA_HEAP_CPU_VISIBLE_BIT;
use magma::defines::MAGMA_HEAP_DEVICE_LOCAL_BIT;
use magma::defines::MAGMA_MEMORY_PROPERTY_DEVICE_LOCAL_BIT;
use magma::defines::MAGMA_MEMORY_PROPERTY_HOST_CACHED_BIT;
use magma::defines::MAGMA_MEMORY_PROPERTY_HOST_COHERENT_BIT;
use magma::defines::MAGMA_MEMORY_PROPERTY_HOST_VISIBLE_BIT;
use magma::defines::MAGMA_MEMORY_PROPERTY_PROTECTED_BIT;
use magma::error::Error;
use magma::i915;
use magma::i915::I915MemoryInfo;
use magma::i915::I915MemoryRegion;
use magma::protocol::MagmaCreateBufferInfo;
use magma::protocol::MagmaCreateQueueInfo;
use magma::protocol::MagmaHeap;
use magma::protocol::MagmaMemoryType;
use magma::protocol::MagmaSubmitAddressSpaceInfo;
use magma::submit::MagmaSubmitBufferInfo;
use magma::amdgpu::SubmitSyncObj;
use magma::xe;
use magma::xe::XeMemRegion;
use magma::xe::XeMemoryInfo;

#[test]
fn xe_graphics_versions() {
    assert_eq!(xe::determine_graphics_version(0x6420), Ok(20));
    assert_eq!(xe::determine_graphics_version(0xB0B0), Ok(20));
    assert_eq!(xe::determine_graphics_version(0x46A0), Ok(12));
    assert_eq!(xe::determine_graphics_version(0x56a0), Ok(12));
    // Unknown devices are taken as version 12.
    assert_eq!(xe::determine_graphics_version(0x1234), Ok(12));
}

fn region(mem_class: u16, instance: u16, total_size: u64, used: u64, cpu_visible_size: u64, cpu_visible_used: u64) -> XeMemRegion {
    XeMemRegion { mem_class, instance, total_size, used, cpu_visible_size, cpu_visible_used }
}

#[test]
fn xe_memory_regions() {
    let info = xe::xe_query_memory_regions(&[region(0, 0, 1000, 100, 0, 0), region(1, 1, 800, 300, 200, 50)]).unwrap();
    assert_eq!((info.sysmem_size, info.sysmem_used, info.sysmem_instance), (1000, 100, 0));
    assert_eq!((info.vram_size, info.vram_used), (600, 250));
    assert_eq!((info.vram_cpu_visible_size, info.vram_cpu_visible_used, info.vram_instance), (200, 50, 1));
    assert_eq!(xe::xe_query_memory_regions(&[]).unwrap(), XeMemoryInfo::default());
    assert_eq!(
        xe::xe_query_memory_regions(&[region(0, 0, 1, 0, 0, 0), region(0, 1, 2, 0, 0, 0)]).err(),
        Some(Error::InternalError)
    );
    assert_eq!(
        xe::xe_query_memory_regions(&[region(1, 0, 10, 0, 5, 0), region(1, 1, 10, 0, 5, 0)]).err(),
        Some(Error::InternalError)
    );
    assert_eq!(xe::xe_query_memory_regions(&[region(2, 0, 1, 0, 0, 0)]).err(), Some(Error::Unimplemented));
    // The first error stops the walk, before a region that would not fit.
    assert_eq!(
        xe::xe_query_memory_regions(&[region(7, 0, 1, 0, 0, 0), region(1, 0, 1, 0, 5, 0)]).err(),
        Some(Error::Unimplemented)
    );
}

fn xe_info() -> XeMemoryInfo {
    XeMemoryInfo {
        sysmem_size: 1000,
        vram_size: 600,
        sysmem_used: 100,
        vram_used: 250,
        vram_cpu_visible_size: 200,
        vram_cpu_visible_used: 50,
        sysmem_instance: 0,
        vram_instance: 1,
    }
}

#[test]
fn xe_memory_layout_and_budgets() {
    let (types, heaps) = xe::xe_query_memory(&xe_info()).unwrap();
    assert_eq!(heaps.len(), 3);
    assert_eq!((heaps[0].heap_size, heaps[0].heap_flags), (1000, MAGMA_HEAP_CPU_VISIBLE_BIT));
    assert_eq!((heaps[1].heap_size, heaps[1].heap_flags), (200, MAGMA_HEAP_CPU_VISIBLE_BIT | MAGMA_HEAP_DEVICE_LOCAL_BIT));
    assert_eq!((heaps[2].heap_size, heaps[2].heap_flags), (600, MAGMA_HEAP_DEVICE_LOCAL_BIT));
    assert_eq!(types.iter().map(|t| (t.property_flags, t.heap_idx)).collect::<Vec<_>>(), vec![(0xf, 0), (0x7, 1), (0x1, 2)]);
    let b = xe::get_memory_budget(&heaps, 0, &xe_info()).unwrap();
    assert_eq!((b.budget, b.usage), (1000, 100));
    let b = xe::get_memory_budget(&heaps, 1, &xe_info()).unwrap();
    assert_eq!((b.budget, b.usage), (200, 50));
    let b = xe::get_memory_budget(&heaps, 2, &xe_info()).unwrap();
    assert_eq!((b.budget, b.usage), (600, 250));
    assert_eq!(xe::get_memory_budget(&heaps, 3, &xe_info()).err(), Some(Error::InvalidArgs));
    assert_eq!(xe::get_memory_budget(&[MagmaHeap::new(1, 0)], 0, &xe_info()).err(), Some(Error::Unimplemented));
    let (types, heaps) = xe::xe_query_memory(&XeMemoryInfo::default()).unwrap();
    assert!(types.is_empty() && heaps.is_empty());
}

#[test]
fn xe_queue_families() {
    let f = xe::get_queue_family_properties().unwrap();
    assert_eq!(f.iter().map(|q| (q.queue_flags.bits(), q.queue_count)).collect::<Vec<_>>(), vec![(0x1f, 1), (0x0e, 1), (0x14, 1)]);
}

#[test]
fn xe_buffer_params() {
    let (types, heaps) = xe::xe_query_memory(&xe_info()).unwrap();
    let info = |idx: u32, flags: u32| MagmaCreateBufferInfo::new(idx, 0, flags, 0, 8192);
    let p = xe::xe_buffer_create_params(&info(0, 0), &types, &heaps, 0, 1).unwrap();
    assert_eq!((p.flags, p.cpu_caching, p.placement), (0, xe::DRM_XE_GEM_CPU_CACHING_WB, 1));
    assert_eq!(p.map_info, Some(0x31));
    assert_eq!(p.size, 8192);
    let p = xe::xe_buffer_create_params(&info(1, 0), &types, &heaps, 0, 1).unwrap();
    assert_eq!((p.flags, p.cpu_caching, p.placement), (xe::DRM_XE_GEM_CREATE_FLAG_NEEDS_VISIBLE_VRAM, xe::DRM_XE_GEM_CPU_CACHING_WC, 0b11));
    assert_eq!(p.map_info, Some(0x33));
    let p = xe::xe_buffer_create_params(&info(2, MAGMA_BUFFER_FLAG_SCANOUT), &types, &heaps, 0, 3).unwrap();
    assert_eq!((p.flags, p.cpu_caching, p.placement), (xe::DRM_XE_GEM_CREATE_FLAG_SCANOUT, xe::DRM_XE_GEM_CPU_CACHING_WC, 0b1000));
    assert_eq!(p.map_info, None);
    let p = xe::xe_buffer_create_params(&info(0, MAGMA_BUFFER_FLAG_SCANOUT), &types, &heaps, 0, 1).unwrap();
    assert_eq!(p.map_info, Some(0x33));
    assert_eq!(xe::xe_buffer_create_params(&info(3, 0), &types, &heaps, 0, 1).err(), Some(Error::InvalidArgs));
    let bad = vec![MagmaMemoryType::new(MAGMA_MEMORY_PROPERTY_PROTECTED_BIT, 9)];
    assert_eq!(xe::xe_buffer_create_params(&info(0, 0), &bad, &heaps, 0, 1).err(), Some(Error::InvalidArgs));
    let prot = vec![MagmaMemoryType::new(MAGMA_MEMORY_PROPERTY_PROTECTED_BIT | MAGMA_MEMORY_PROPERTY_DEVICE_LOCAL_BIT, 2)];
    assert!(xe::xe_buffer_create_params(&info(0, 0), &prot, &heaps, 0, 1).unwrap().is_protected);
}

#[test]
fn xe_queues_and_submissions() {
    let q = |family: u32, flags: u32| MagmaCreateQueueInfo::new(family, 0, flags);
    let p = xe::xe_queue_params(Some(4), &q(0, 0)).unwrap();
    assert_eq!((p.vm_id, p.engine_class, p.is_bind_queue), (4, xe::DRM_XE_ENGINE_CLASS_RENDER, false));
    assert_eq!(xe::xe_queue_params(Some(4), &q(1, 0)).unwrap().engine_class, xe::DRM_XE_ENGINE_CLASS_COMPUTE);
    assert_eq!(xe::xe_queue_params(Some(4), &q(2, 0)).unwrap().engine_class, xe::DRM_XE_ENGINE_CLASS_COPY);
    let p = xe::xe_queue_params(Some(4), &q(2, 8)).unwrap();
    assert_eq!((p.engine_class, p.is_bind_queue), (xe::DRM_XE_ENGINE_CLASS_VM_BIND, true));
    assert_eq!(xe::xe_queue_params(None, &q(0, 0)).err(), Some(Error::Unimplemented));

    let waits = vec![SubmitSyncObj { handle: Some(1), is_timeline: true, point: 5 }, SubmitSyncObj { handle: None, is_timeline: true, point: 5 }];
    let signals = vec![SubmitSyncObj { handle: Some(2), is_timeline: false, point: 9 }];
    let s = xe::xe_submit_command(false, Some(MagmaSubmitAddressSpaceInfo::new(0x4000, 64)), &waits, &signals).unwrap();
    assert_eq!((s.bind, s.num_batch_buffer, s.address), (false, 1, 0x4000));
    assert_eq!(s.syncs.len(), 2);
    assert_eq!((s.syncs[0].type_, s.syncs[0].flags, s.syncs[0].handle, s.syncs[0].timeline_value), (xe::DRM_XE_SYNC_TYPE_TIMELINE_SYNCOBJ, 0, 1, 5));
    assert_eq!((s.syncs[1].type_, s.syncs[1].flags, s.syncs[1].handle, s.syncs[1].timeline_value), (xe::DRM_XE_SYNC_TYPE_SYNCOBJ, xe::DRM_XE_SYNC_FLAG_SIGNAL, 2, 0));
    let s = xe::xe_submit_command(false, Some(MagmaSubmitAddressSpaceInfo::new(0x4000, 0)), &[], &[]).unwrap();
    assert_eq!((s.num_batch_buffer, s.address), (0, 0));
    let s = xe::xe_submit_command(true, None, &[], &signals).unwrap();
    assert_eq!((s.bind, s.num_batch_buffer, s.syncs.len()), (true, 0, 1));
    assert_eq!(xe::xe_submit_command(false, None, &[], &[]).err(), Some(Error::Unimplemented));
    assert_eq!(xe::xe_queue_status(Ok(0)), Ok(()));
    assert_eq!(xe::xe_queue_status(Ok(1)), Err(Error::ContextKilled));
    assert_eq!(xe::xe_queue_status(Err(Error::TimedOut)), Err(Error::InternalError));
}

#[test]
fn xe_config() {
    let cfg = [0u64, 0, 4096, 48, 0];
    assert_eq!(xe::xe_device_config(5, &cfg), (1u64 << 48, 4096));
    assert_eq!(xe::xe_device_config(40, &cfg), (1u64 << 48, 4096));
}

#[test]
fn i915_memory_regions_and_layout() {
    let regions = [
        I915MemoryRegion { memory_class: 0, probed_size: 1000, unallocated_size: 600, probed_cpu_visible_size: 0, unallocated_cpu_visible_size: 0 },
        I915MemoryRegion { memory_class: 1, probed_size: 800, unallocated_size: 500, probed_cpu_visible_size: 300, unallocated_cpu_visible_size: 100 },
    ];
    let info = i915::query_memory_regions(&regions).unwrap();
    assert_eq!((info.sysmem_total, info.sysmem_free), (1000, 600));
    assert_eq!((info.vram_mappable_total, info.vram_mappable_free), (300, 100));
    assert_eq!((info.vram_unmappable_total, info.vram_unmappable_free), (500, 400));
    let (types, heaps) = i915::query_memory(&info).unwrap();
    assert_eq!(heaps.iter().map(|h| (h.heap_size, h.heap_flags)).collect::<Vec<_>>(), vec![(1000, 0x10), (300, 0x11), (500, 0x1)]);
    assert_eq!(types.iter().map(|t| (t.property_flags, t.heap_idx)).collect::<Vec<_>>(), vec![(0xe, 0), (0x3, 1), (0x1, 2)]);
    let b = i915::get_memory_budget(&heaps, 0, &info).unwrap();
    assert_eq!((b.budget, b.usage), (1000, 400));
    let b = i915::get_memory_budget(&heaps, 2, &info).unwrap();
    assert_eq!((b.budget, b.usage), (500, 100));
    assert_eq!(i915::get_memory_budget(&heaps, 3, &info).err(), Some(Error::InvalidArgs));
}

#[test]
fn i915_unknown_free_and_fallback() {
    let regions = [
        I915MemoryRegion { memory_class: 1, probed_size: 800, unallocated_size: u64::MAX, probed_cpu_visible_size: 0, unallocated_cpu_visible_size: 0 },
        I915MemoryRegion { memory_class: 5, probed_size: 1, unallocated_size: 1, probed_cpu_visible_size: 0, unallocated_cpu_visible_size: 0 },
    ];
    let info = i915::query_memory_regions(&regions).unwrap();
    assert_eq!((info.vram_mappable_total, info.vram_mappable_free, info.vram_unmappable_total), (800, 0, 0));
    let (types, heaps) = i915::query_memory(&I915MemoryInfo::default()).unwrap();
    assert_eq!(heaps.len(), 1);
    assert_eq!(heaps[0].heap_size, i915::I915_FALLBACK_HEAP_SIZE);
    assert_eq!(types[0].property_flags, MAGMA_MEMORY_PROPERTY_HOST_COHERENT_BIT | MAGMA_MEMORY_PROPERTY_HOST_VISIBLE_BIT | MAGMA_MEMORY_PROPERTY_HOST_CACHED_BIT);
}

#[test]
fn i915_batches() {
    let b = MagmaSubmitBufferInfo { header: Default::default(), command_buffer: 3, start_offset: 0x1_0000_0010, length: 64 };
    let e = i915::gem_execbuffer2(9, Some(b)).unwrap();
    assert_eq!((e.handle, e.batch_start_offset, e.batch_len, e.flags, e.rsvd1), (3, 0x10, 64, i915::I915_EXEC_RENDER, 9));
    assert_eq!(i915::gem_execbuffer2(9, None).err(), Some(Error::Unimplemented));
}

#[test]
fn i915_query_probe_sizes() {
    // A header of 16 bytes and elements of 88 bytes: 2 elements take 192.
    assert_eq!(magma::i915::query_element_count(192, 16, 88), Ok(2));
    // A partial element is rounded up.
    assert_eq!(magma::i915::query_element_count(200, 16, 88), Ok(3));
    // An answer shorter than the header holds nothing.
    assert_eq!(magma::i915::query_element_count(8, 16, 88), Ok(0));
    // A negative length is the kernel's error number.
    assert_eq!(magma::i915::query_element_count(-22, 16, 88), Err(22));
}
